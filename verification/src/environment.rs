//! `setup-env` / `clean-env` — the test environment on the device.
//!
//! A veth pair whose peer end is parked in a network namespace, so
//! target↔peer traffic crosses the idps-fw–monitored interface; the idps-fw
//! config tuned for fast tests; and the generated `fw-verify.conf`. On
//! Android a debug VIN/DSN is injected so idps-server derives a keystore.
//! This module decides which `ip` invocations build and tear down the
//! topology and what the config files say; running them is left to the
//! caller.

use vstd::prelude::*;

use crate::config::{GlobalArgs, Mode};
use crate::exec::{lossy_text, output_parts, strs, ProcessOutput};
use crate::net::{ip_text, IpAddr};
use crate::text::{dec, join, join_strings, push_dec, push_str, trim, trim_str};

verus! {

/// The idps-fw configuration file.
pub const FW_CONFIG: &'static str = "/etc/idd/idps-fw.yaml";

/// Where the previous idps-fw configuration is kept.
pub const FW_BACKUP: &'static str = "/etc/idd/idps-fw.yaml.fwv-bak";

/// The directory the configuration files live in.
pub const IDD_ETC: &'static str = "/etc/idd";

/// The fw-verify configuration file written by `setup-env`.
pub const FWV_CONF: &'static str = "/etc/idd/fw-verify.conf";

/// The runtime keystore idps-server derives.
pub const KEYSTORE: &'static str = "/data/idd/keys/aes.keystore";

/// The debug VIN injected when the device has none.
pub const DEFAULT_DEBUG_VIN: &'static str = "FWVERIFYTEST00001";

/// The debug DSN injected when the device has none.
pub const DEFAULT_DEBUG_DSN: &'static str = "FWVERIFYTESTDSN01";

/// Resolved topology parameters for a setup/clean run.
#[derive(Debug, Clone)]
pub struct Topology {
    pub netns: String,
    pub target_iface: String,
    pub peer_iface: String,
    pub target_ip: IpAddr,
    pub peer_ip: IpAddr,
    pub prefix: u8,
}

fn copy_ip(ip: &IpAddr) -> (r: IpAddr)
    ensures
        r == *ip,
{
    match ip {
        IpAddr::V4(o) => IpAddr::V4(*o),
        IpAddr::V6(t) => IpAddr::V6(t.clone()),
    }
}

impl Topology {
    /// The topology the options describe: the TARGET at 10.123.0.1 and the
    /// PEER at 10.123.0.2 unless given.
    pub fn from(global: &GlobalArgs) -> (t: Topology)
        ensures
            t.netns == global.peer_netns,
            t.target_iface == global.target_iface,
            t.peer_iface == global.peer_iface,
            t.target_ip == match global.target_ip {
                Some(ip) => ip,
                None => IpAddr::V4([10u8, 123u8, 0u8, 1u8]),
            },
            t.peer_ip == match global.peer_ip {
                Some(ip) => ip,
                None => IpAddr::V4([10u8, 123u8, 0u8, 2u8]),
            },
            t.prefix == global.veth_prefix,
    {
        Topology {
            netns: global.peer_netns.clone(),
            target_iface: global.target_iface.clone(),
            peer_iface: global.peer_iface.clone(),
            target_ip: match &global.target_ip {
                Some(ip) => copy_ip(ip),
                None => IpAddr::V4([10, 123, 0, 1]),
            },
            peer_ip: match &global.peer_ip {
                Some(ip) => copy_ip(ip),
                None => IpAddr::V4([10, 123, 0, 2]),
            },
            prefix: global.veth_prefix,
        }
    }
}

/// The `ip` arguments that remove the topology: the namespace, then the
/// TARGET veth end (which removes the pair). Failures are ignored.
pub fn teardown_steps(topo: &Topology) -> (steps: Vec<Vec<String>>)
    ensures
        steps@.len() == 2,
        strs(steps@[0]@) == seq!["netns"@, "del"@, topo.netns@],
        strs(steps@[1]@) == seq!["link"@, "del"@, topo.target_iface@],
{
    let a = vec!["netns".to_string(), "del".to_string(), topo.netns.clone()];
    let b = vec!["link".to_string(), "del".to_string(), topo.target_iface.clone()];
    assert(strs(a@) =~= seq!["netns"@, "del"@, topo.netns@]);
    assert(strs(b@) =~= seq!["link"@, "del"@, topo.target_iface@]);
    vec![a, b]
}

/// `addr/prefix` of an address.
pub open spec fn cidr_of(ip: IpAddr, prefix: u8) -> Seq<char> {
    ip_text(ip) + "/"@ + dec(prefix as nat)
}

fn cidr(ip: &IpAddr, prefix: u8) -> (s: String)
    ensures
        s@ == cidr_of(*ip, prefix),
{
    let mut s = ip.to_text();
    push_str(&mut s, "/");
    push_dec(&mut s, prefix as u64);
    s
}

/// The `ip` arguments that run `args` inside network namespace `ns`.
pub open spec fn in_netns(ns: Seq<char>, args: Seq<Seq<char>>) -> Seq<Seq<char>> {
    seq!["netns"@, "exec"@, ns, "ip"@] + args
}

/// How the topology is built, as `ip` arguments: the namespace; the veth
/// pair made directly with its peer end in the namespace, or, when that is
/// refused, made in the root namespace and its peer end moved in; then the
/// addresses and links brought up, the PEER's inside the namespace.
pub struct TopologyPlan {
    pub netns_add: Vec<String>,
    pub veth_direct: Vec<String>,
    pub veth_plain: Vec<String>,
    pub veth_move: Vec<String>,
    pub rest: Vec<Vec<String>>,
}

/// The `ip` arguments that build the topology.
pub fn topology_plan(topo: &Topology) -> (p: TopologyPlan)
    ensures
        strs(p.netns_add@) == seq!["netns"@, "add"@, topo.netns@],
        strs(p.veth_direct@) == seq![
            "link"@,
            "add"@,
            topo.target_iface@,
            "type"@,
            "veth"@,
            "peer"@,
            "name"@,
            topo.peer_iface@,
            "netns"@,
            topo.netns@,
        ],
        strs(p.veth_plain@) == seq![
            "link"@,
            "add"@,
            topo.target_iface@,
            "type"@,
            "veth"@,
            "peer"@,
            "name"@,
            topo.peer_iface@,
        ],
        strs(p.veth_move@) == seq!["link"@, "set"@, topo.peer_iface@, "netns"@, topo.netns@],
        p.rest@.len() == 5,
        strs(p.rest@[0]@) == seq![
            "addr"@,
            "add"@,
            cidr_of(topo.target_ip, topo.prefix),
            "dev"@,
            topo.target_iface@,
        ],
        strs(p.rest@[1]@) == seq!["link"@, "set"@, topo.target_iface@, "up"@],
        strs(p.rest@[2]@) == in_netns(topo.netns@, seq!["link"@, "set"@, "lo"@, "up"@]),
        strs(p.rest@[3]@) == in_netns(
            topo.netns@,
            seq!["addr"@, "add"@, cidr_of(topo.peer_ip, topo.prefix), "dev"@, topo.peer_iface@],
        ),
        strs(p.rest@[4]@) == in_netns(topo.netns@, seq!["link"@, "set"@, topo.peer_iface@, "up"@]),
{
    let ns = &topo.netns;
    let tif = &topo.target_iface;
    let pif = &topo.peer_iface;
    let netns_add = vec!["netns".to_string(), "add".to_string(), ns.clone()];
    let veth_direct = vec![
        "link".to_string(),
        "add".to_string(),
        tif.clone(),
        "type".to_string(),
        "veth".to_string(),
        "peer".to_string(),
        "name".to_string(),
        pif.clone(),
        "netns".to_string(),
        ns.clone(),
    ];
    let veth_plain = vec![
        "link".to_string(),
        "add".to_string(),
        tif.clone(),
        "type".to_string(),
        "veth".to_string(),
        "peer".to_string(),
        "name".to_string(),
        pif.clone(),
    ];
    let veth_move = vec!["link".to_string(), "set".to_string(), pif.clone(), "netns".to_string(), ns.clone()];
    let r0 = vec!["addr".to_string(), "add".to_string(), cidr(&topo.target_ip, topo.prefix), "dev".to_string(), tif.clone()];
    let r1 = vec!["link".to_string(), "set".to_string(), tif.clone(), "up".to_string()];
    let r2 = vec![
        "netns".to_string(),
        "exec".to_string(),
        ns.clone(),
        "ip".to_string(),
        "link".to_string(),
        "set".to_string(),
        "lo".to_string(),
        "up".to_string(),
    ];
    let r3 = vec![
        "netns".to_string(),
        "exec".to_string(),
        ns.clone(),
        "ip".to_string(),
        "addr".to_string(),
        "add".to_string(),
        cidr(&topo.peer_ip, topo.prefix),
        "dev".to_string(),
        pif.clone(),
    ];
    let r4 = vec![
        "netns".to_string(),
        "exec".to_string(),
        ns.clone(),
        "ip".to_string(),
        "link".to_string(),
        "set".to_string(),
        pif.clone(),
        "up".to_string(),
    ];
    assert(strs(netns_add@) =~= seq!["netns"@, "add"@, topo.netns@]);
    assert(strs(veth_direct@) =~= seq![
        "link"@,
        "add"@,
        topo.target_iface@,
        "type"@,
        "veth"@,
        "peer"@,
        "name"@,
        topo.peer_iface@,
        "netns"@,
        topo.netns@,
    ]);
    assert(strs(veth_plain@) =~= seq![
        "link"@,
        "add"@,
        topo.target_iface@,
        "type"@,
        "veth"@,
        "peer"@,
        "name"@,
        topo.peer_iface@,
    ]);
    assert(strs(veth_move@) =~= seq!["link"@, "set"@, topo.peer_iface@, "netns"@, topo.netns@]);
    assert(strs(r0@) =~= seq![
        "addr"@,
        "add"@,
        cidr_of(topo.target_ip, topo.prefix),
        "dev"@,
        topo.target_iface@,
    ]);
    assert(strs(r1@) =~= seq!["link"@, "set"@, topo.target_iface@, "up"@]);
    assert(strs(r2@) =~= in_netns(topo.netns@, seq!["link"@, "set"@, "lo"@, "up"@]));
    assert(strs(r3@) =~= in_netns(
        topo.netns@,
        seq!["addr"@, "add"@, cidr_of(topo.peer_ip, topo.prefix), "dev"@, topo.peer_iface@],
    ));
    assert(strs(r4@) =~= in_netns(topo.netns@, seq!["link"@, "set"@, topo.peer_iface@, "up"@]));
    TopologyPlan { netns_add, veth_direct, veth_plain, veth_move, rest: vec![r0, r1, r2, r3, r4] }
}

/// A command of the setup failed: the command line and its trimmed stderr.
#[derive(Debug)]
pub struct StepFailed {
    pub command: String,
    pub stderr: String,
}

/// What a finished setup command means: success exactly when it exited
/// with status zero; else the command line (`program` and `args` joined by
/// spaces) and its trimmed stderr.
pub fn step_result(program: &str, args: &Vec<String>, out: &ProcessOutput) -> (r: Result<(), StepFailed>)
    ensures
        out.code == Some(0i32) ==> r is Ok,
        out.code != Some(0i32) ==> (r matches Err(e) && e.command@ == program@ + " "@ + join(
            strs(args@),
            " "@,
        ) && e.stderr@ == trim(lossy_text(out.stderr@))),
{
    let ok = match out.code {
        Some(c) => c == 0,
        None => false,
    };
    if ok {
        Ok(())
    } else {
        let (_code, _stdout, stderr) = output_parts(out);
        let mut command = program.to_string();
        push_str(&mut command, " ");
        let joined = join_strings(args, " ");
        assert(args@.map_values(|p: String| p@) == strs(args@));
        push_str(&mut command, joined.as_str());
        Err(StepFailed { command, stderr: trim_str(stderr.as_str()) })
    }
}

/// The idps-fw configuration tuned for fast tests: the state database
/// `db`, the monitored interface `iface` on both directions, short poll
/// intervals, the given initial rule timeout, and the app-uid identity
/// override.
pub open spec fn fast_config(db: Seq<char>, iface: Seq<char>, rule_timeout: u64, key: Seq<char>, uid: u32, pkg: Seq<char>, name: Seq<char>) -> Seq<char> {
    "runtime_config_path: /etc/idd/idps.yaml\nstate_dir: /data/idd/idps-fw\nstate_db_path: "@ + db
        + "\nebpf_object_path: /etc/idd/idps-fw.bpf.o\ncgroup_path: /sys/fs/cgroup\ntc_ingress_ifaces:\n  - "@
        + iface + "\ntc_egress_ifaces:\n  - "@ + iface
        + "\nrule_poll_interval_secs: 3\ninitial_rule_timeout_secs: "@ + dec(rule_timeout as nat)
        + "\nevent_poll_interval_ms: 100\nidentity_refresh_interval_secs: 10\nreport_flush_interval_ms: 500\nreport_ack_timeout_secs: 10\ntraffic_cycle_secs: 5\ninterface_categories:\n  - exact: "@
        + iface
        + "\n    category: wifi\n  - prefix: rmnet\n    category: mobile\n  - prefix: ccmni\n    category: mobile\nidentity_overrides:\n  - identity_key: \""@
        + key + "\"\n    uid: "@ + dec(uid as nat) + "\n    pkg_name: \""@ + pkg
        + "\"\n    app_name: \""@ + name + "\"\n"@
}

/// The idps-fw configuration tuned for fast tests.
pub fn fast_config_text(db: &str, iface: &str, rule_timeout: u64, key: &str, uid: u32, pkg: &str, name: &str) -> (s: String)
    ensures
        s@ == fast_config(db@, iface@, rule_timeout, key@, uid, pkg@, name@),
{
    let mut s = "runtime_config_path: /etc/idd/idps.yaml\nstate_dir: /data/idd/idps-fw\nstate_db_path: ".to_string();
    push_str(&mut s, db);
    push_str(&mut s, "\nebpf_object_path: /etc/idd/idps-fw.bpf.o\ncgroup_path: /sys/fs/cgroup\ntc_ingress_ifaces:\n  - ");
    push_str(&mut s, iface);
    push_str(&mut s, "\ntc_egress_ifaces:\n  - ");
    push_str(&mut s, iface);
    push_str(&mut s, "\nrule_poll_interval_secs: 3\ninitial_rule_timeout_secs: ");
    push_dec(&mut s, rule_timeout);
    push_str(&mut s, "\nevent_poll_interval_ms: 100\nidentity_refresh_interval_secs: 10\nreport_flush_interval_ms: 500\nreport_ack_timeout_secs: 10\ntraffic_cycle_secs: 5\ninterface_categories:\n  - exact: ");
    push_str(&mut s, iface);
    push_str(&mut s, "\n    category: wifi\n  - prefix: rmnet\n    category: mobile\n  - prefix: ccmni\n    category: mobile\nidentity_overrides:\n  - identity_key: \"");
    push_str(&mut s, key);
    push_str(&mut s, "\"\n    uid: ");
    push_dec(&mut s, uid as u64);
    push_str(&mut s, "\n    pkg_name: \"");
    push_str(&mut s, pkg);
    push_str(&mut s, "\"\n    app_name: \"");
    push_str(&mut s, name);
    push_str(&mut s, "\"\n");
    s
}

/// The idps-fw configuration `setup-env` writes: the fast configuration
/// monitoring the TARGET veth end, with a 30 s initial rule timeout.
pub fn setup_fw_config(global: &GlobalArgs, topo: &Topology) -> (s: String)
    ensures
        s@ == fast_config(
            global.state_db@,
            topo.target_iface@,
            30,
            global.app_identity_key@,
            global.app_uid,
            global.app_pkg@,
            global.app_name@,
        ),
{
    fast_config_text(
        global.state_db.as_str(),
        topo.target_iface.as_str(),
        30,
        global.app_identity_key.as_str(),
        global.app_uid,
        global.app_pkg.as_str(),
        global.app_name.as_str(),
    )
}

/// The lowercase name of a mode.
pub open spec fn mode_text(m: Mode) -> Seq<char> {
    match m {
        Mode::Android => "android"@,
        Mode::Host => "host"@,
    }
}

/// The VSOC settings of a host-mode `fw-verify.conf`: the dashboard URL
/// (the default one when none is given), then the client certificate and
/// key (and CA, when given) when both are given, else a reminder to set
/// them.
pub open spec fn vsoc_settings(g: GlobalArgs) -> Seq<char> {
    "vsoc_url = "@ + match g.vsoc_url {
        Some(u) => u@,
        None => "https://127.0.0.1:8443"@,
    } + "\n"@ + match (g.vsoc_cert, g.vsoc_key) {
        (Some(c), Some(k)) => "vsoc_cert = "@ + c@ + "\nvsoc_key = "@ + k@ + "\n"@ + match g.vsoc_cacert {
            Some(a) => "vsoc_cacert = "@ + a@ + "\n"@,
            None => Seq::empty(),
        },
        _ => "# set vsoc_cert/vsoc_key to the VSOC mTLS client certificate before running\n"@,
    }
}

/// The `fw-verify.conf` that `setup-env` writes: the session's settings as
/// `key = value` lines, and in host mode the VSOC settings.
pub open spec fn fwv_conf(g: GlobalArgs, t: Topology) -> Seq<char> {
    "# fw-verify config (written by `fw-verify setup-env`).\nmode = "@ + mode_text(g.mode)
        + "\ntarget_iface = "@ + t.target_iface@ + "\npeer_iface = "@ + t.peer_iface@
        + "\npeer_netns = "@ + t.netns@ + "\ntarget_ip = "@ + ip_text(t.target_ip)
        + "\npeer_ip = "@ + ip_text(t.peer_ip) + "\nidps_fw = "@ + g.idps_fw@ + "\nstate_db = "@
        + g.state_db@ + "\napp_uid = "@ + dec(g.app_uid as nat) + "\napp_identity_key = "@
        + g.app_identity_key@ + "\napp_pkg = "@ + g.app_pkg@ + "\napp_name = "@ + g.app_name@
        + "\n"@ + if g.mode == Mode::Host {
        vsoc_settings(g)
    } else {
        Seq::empty()
    }
}

fn push_setting(s: &mut String, label: &str, value: &str)
    ensures
        final(s)@ == old(s)@ + label@ + value@,
{
    push_str(s, label);
    push_str(s, value);
}

/// The `fw-verify.conf` that `setup-env` writes.
pub fn fwv_conf_text(global: &GlobalArgs, topo: &Topology) -> (s: String)
    ensures
        s@ == fwv_conf(*global, *topo),
{
    let mut s = "# fw-verify config (written by `fw-verify setup-env`).\nmode = ".to_string();
    push_str(&mut s, match global.mode {
        Mode::Android => "android",
        Mode::Host => "host",
    });
    push_setting(&mut s, "\ntarget_iface = ", topo.target_iface.as_str());
    push_setting(&mut s, "\npeer_iface = ", topo.peer_iface.as_str());
    push_setting(&mut s, "\npeer_netns = ", topo.netns.as_str());
    push_setting(&mut s, "\ntarget_ip = ", topo.target_ip.to_text().as_str());
    push_setting(&mut s, "\npeer_ip = ", topo.peer_ip.to_text().as_str());
    push_setting(&mut s, "\nidps_fw = ", global.idps_fw.as_str());
    push_setting(&mut s, "\nstate_db = ", global.state_db.as_str());
    push_str(&mut s, "\napp_uid = ");
    push_dec(&mut s, global.app_uid as u64);
    push_setting(&mut s, "\napp_identity_key = ", global.app_identity_key.as_str());
    push_setting(&mut s, "\napp_pkg = ", global.app_pkg.as_str());
    push_setting(&mut s, "\napp_name = ", global.app_name.as_str());
    push_str(&mut s, "\n");
    if global.mode == Mode::Host {
        push_str(&mut s, "vsoc_url = ");
        match &global.vsoc_url {
            Some(u) => push_str(&mut s, u.as_str()),
            None => push_str(&mut s, "https://127.0.0.1:8443"),
        }
        push_str(&mut s, "\n");
        match (&global.vsoc_cert, &global.vsoc_key) {
            (Some(cert), Some(key)) => {
                push_setting(&mut s, "vsoc_cert = ", cert.as_str());
                push_setting(&mut s, "\nvsoc_key = ", key.as_str());
                push_str(&mut s, "\n");
                if let Some(cacert) = &global.vsoc_cacert {
                    push_setting(&mut s, "vsoc_cacert = ", cacert.as_str());
                    push_str(&mut s, "\n");
                }
            },
            _ => push_str(&mut s, "# set vsoc_cert/vsoc_key to the VSOC mTLS client certificate before running\n"),
        }
    }
    s
}

/// How a daemon is restarted in `mode`: Android init `stop` then `start`,
/// host `systemctl try-restart`; as program and arguments.
pub fn restart_commands(mode: Mode, service: &str) -> (cmds: Vec<(String, Vec<String>)>)
    ensures
        mode == Mode::Android ==> cmds@.len() == 2 && cmds@[0].0@ == "stop"@ && strs(cmds@[0].1@)
            == seq![service@] && cmds@[1].0@ == "start"@ && strs(cmds@[1].1@) == seq![service@],
        mode == Mode::Host ==> cmds@.len() == 1 && cmds@[0].0@ == "systemctl"@ && strs(
            cmds@[0].1@,
        ) == seq!["try-restart"@, service@],
{
    match mode {
        Mode::Android => {
            let a = vec![service.to_string()];
            let b = vec![service.to_string()];
            assert(strs(a@) =~= seq![service@]);
            assert(strs(b@) =~= seq![service@]);
            vec![("stop".to_string(), a), ("start".to_string(), b)]
        },
        Mode::Host => {
            let a = vec!["try-restart".to_string(), service.to_string()];
            assert(strs(a@) =~= seq!["try-restart"@, service@]);
            vec![("systemctl".to_string(), a)]
        },
    }
}

/// Whether a health snapshot says idps-fw is connected.
pub fn healthy(connected: Option<bool>) -> (b: bool)
    ensures
        b == (connected == Some(true)),
{
    connected == Some(true)
}

/// The shell command that writes debug identity `value` to
/// `/data/idd/<name>`, readable by idps-server and with the right SELinux
/// label.
pub open spec fn debug_id_cmd(name: Seq<char>, value: Seq<char>) -> Seq<char> {
    "printf %s '"@ + value + "' > /data/idd/"@ + name + "; chmod 644 /data/idd/"@ + name
        + "; restorecon /data/idd/"@ + name + " 2>/dev/null"@
}

/// The shell command that writes a debug identity file.
pub fn debug_id_command(name: &str, value: &str) -> (s: String)
    ensures
        s@ == debug_id_cmd(name@, value@),
{
    let mut s = "printf %s '".to_string();
    push_str(&mut s, value);
    push_str(&mut s, "' > /data/idd/");
    push_str(&mut s, name);
    push_str(&mut s, "; chmod 644 /data/idd/");
    push_str(&mut s, name);
    push_str(&mut s, "; restorecon /data/idd/");
    push_str(&mut s, name);
    push_str(&mut s, " 2>/dev/null");
    s
}

} // verus!
