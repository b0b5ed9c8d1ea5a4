//! Fast-profile management: short idps-fw intervals and identity overrides
//! applied to a running device.
//!
//! Only `/etc/idd/idps-fw.yaml` is rewritten (the whole file is regenerated
//! from known defaults, so no field is dropped). The previous file is backed
//! up once and restored if idps-fw fails to come back healthy.

use vstd::prelude::*;

use crate::config::RunConfig;
use crate::environment::{fast_config, fast_config_text};
use crate::text::{contains, push_str, str_contains};

verus! {

/// Where the fast configuration is staged on the device.
pub const REMOTE_TMP: &'static str = "/data/local/tmp/fw-verify-idps-fw.yaml";

/// Back up the current configuration unless a backup exists.
pub const BACKUP_CMD: &'static str = "[ -e /etc/idd/idps-fw.yaml.fwv-bak ] || cp /etc/idd/idps-fw.yaml /etc/idd/idps-fw.yaml.fwv-bak";

/// Install the staged fast configuration.
pub const INSTALL_CMD: &'static str = "cp /data/local/tmp/fw-verify-idps-fw.yaml /etc/idd/idps-fw.yaml";

/// Put the backed-up configuration back, if there is one.
pub const ROLLBACK_CMD: &'static str = "[ -e /etc/idd/idps-fw.yaml.fwv-bak ] && cp /etc/idd/idps-fw.yaml.fwv-bak /etc/idd/idps-fw.yaml";

/// Put the backed-up configuration back and say so.
pub const RESTORE_CMD: &'static str = "[ -e /etc/idd/idps-fw.yaml.fwv-bak ] && cp /etc/idd/idps-fw.yaml.fwv-bak /etc/idd/idps-fw.yaml && echo restored";

/// Ask whether the runtime keystore exists.
pub const KEYSTORE_CHECK_CMD: &'static str = "[ -e /data/idd/keys/aes.keystore ] && echo yes || echo no";

/// The fast idps-fw configuration for a session: the TARGET interface
/// monitored, a 10 s initial rule timeout.
pub fn fast_yaml(cfg: &RunConfig) -> (s: String)
    ensures
        s@ == fast_config(
            cfg.state_db@,
            cfg.target_iface@,
            10,
            cfg.app_identity_key@,
            cfg.app_uid,
            cfg.app_pkg@,
            cfg.app_name@,
        ),
{
    fast_config_text(
        cfg.state_db.as_str(),
        cfg.target_iface.as_str(),
        10,
        cfg.app_identity_key.as_str(),
        cfg.app_uid,
        cfg.app_pkg.as_str(),
        cfg.app_name.as_str(),
    )
}

/// The shell commands that restart a daemon through Android init: stop,
/// then start.
pub fn restart_cmds(service: &str) -> (cmds: (String, String))
    ensures
        cmds.0@ == "stop "@ + service@,
        cmds.1@ == "start "@ + service@,
{
    let mut a = "stop ".to_string();
    push_str(&mut a, service);
    let mut b = "start ".to_string();
    push_str(&mut b, service);
    (a, b)
}

/// Whether the keystore check found the keystore.
pub fn keystore_present(answer: &str) -> (b: bool)
    ensures
        b == contains(answer@, "yes"@),
{
    str_contains(answer, "yes")
}

/// Whether the restore command reported a restored backup.
pub fn restored(answer: &str) -> (b: bool)
    ensures
        b == contains(answer@, "restored"@),
{
    str_contains(answer, "restored")
}

} // verus!
