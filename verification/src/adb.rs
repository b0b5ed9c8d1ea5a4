//! The `adb` command line: what each operation runs and what its output
//! means.
//!
//! The whole remote command is passed as a single argument to `adb shell`,
//! so the caller controls quoting rather than relying on adb's argument
//! joining. Running the process is left to the caller; these functions build
//! the argv after the program name and read the finished process's output.

use vstd::prelude::*;

use crate::exec::{
    exit_code, inet_address, lossy_text, output_parts, parse_inet, strs, trimmed_stdout,
    ProcessOutput,
};
use crate::text::trim;

verus! {

/// The arguments of `adb -s <serial> <args...>`.
pub open spec fn adb_args(serial: Seq<char>, args: Seq<Seq<char>>) -> Seq<Seq<char>> {
    seq!["-s"@, serial] + args
}

/// The arguments of `adb -s <serial> <args...>`.
pub fn raw_argv(serial: &str, args: &Vec<String>) -> (argv: Vec<String>)
    ensures
        strs(argv@) == adb_args(serial@, strs(args@)),
{
    let mut argv: Vec<String> = vec!["-s".to_string(), serial.to_string()];
    let ghost start = strs(argv@);
    assert(start =~= seq!["-s"@, serial@]);
    let mut i: usize = 0;
    while i < args.len()
        invariant
            i <= args.len(),
            start == seq!["-s"@, serial@],
            strs(argv@) == start + strs(args@.take(i as int)),
        decreases args.len() - i,
    {
        let ghost before = argv@;
        argv.push(args[i].clone());
        assert(strs(argv@) =~= strs(before).push(args@[i as int]@));
        assert(strs(args@.take(i + 1)) =~= strs(args@.take(i as int)).push(args@[i as int]@));
        i = i + 1;
    }
    assert(args@.take(args.len() as int) =~= args@);
    argv
}

/// The arguments of `adb -s <serial> shell <remote_cmd>`.
pub fn shell_argv(serial: &str, remote_cmd: &str) -> (argv: Vec<String>)
    ensures
        strs(argv@) == adb_args(serial@, seq!["shell"@, remote_cmd@]),
{
    let args = vec!["shell".to_string(), remote_cmd.to_string()];
    assert(strs(args@) =~= seq!["shell"@, remote_cmd@]);
    raw_argv(serial, &args)
}

/// `(exit_code, stdout, stderr)` of a finished `adb shell` run; the exit
/// code is `-1` when a signal ended the process.
pub fn shell_full(out: &ProcessOutput) -> (r: (i32, String, String))
    ensures
        r.0 == exit_code(out.code),
        r.1@ == lossy_text(out.stdout@),
        r.2@ == lossy_text(out.stderr@),
{
    output_parts(out)
}

/// The trimmed standard output of a finished `adb shell` run. adb's exit
/// status is not trusted (it is unreliable over TCP), so callers validate
/// via stdout.
pub fn shell(out: &ProcessOutput) -> (s: String)
    ensures
        s@ == trim(lossy_text(out.stdout@)),
{
    trimmed_stdout(out)
}

/// The two invocations that enable root and wait for the device to come
/// back, in order.
pub fn root(serial: &str) -> (steps: Vec<Vec<String>>)
    ensures
        steps@.len() == 2,
        strs(steps@[0]@) == adb_args(serial@, seq!["root"@]),
        strs(steps@[1]@) == adb_args(serial@, seq!["wait-for-device"@]),
{
    let a = vec!["root".to_string()];
    assert(strs(a@) =~= seq!["root"@]);
    let b = vec!["wait-for-device".to_string()];
    assert(strs(b@) =~= seq!["wait-for-device"@]);
    let first = raw_argv(serial, &a);
    let second = raw_argv(serial, &b);
    vec![first, second]
}

/// The arguments of a best-effort `adb remount`.
pub fn remount_argv(serial: &str) -> (argv: Vec<String>)
    ensures
        strs(argv@) == adb_args(serial@, seq!["remount"@]),
{
    let a = vec!["remount".to_string()];
    assert(strs(a@) =~= seq!["remount"@]);
    raw_argv(serial, &a)
}

/// Whether `adb remount` succeeded: it exited with status zero.
pub fn remount(out: &ProcessOutput) -> (ok: bool)
    ensures
        ok == (out.code == Some(0i32)),
{
    match out.code {
        Some(c) => c == 0,
        None => false,
    }
}

/// The arguments of `adb get-state`.
pub fn get_state_argv(serial: &str) -> (argv: Vec<String>)
    ensures
        strs(argv@) == adb_args(serial@, seq!["get-state"@]),
{
    let a = vec!["get-state".to_string()];
    assert(strs(a@) =~= seq!["get-state"@]);
    raw_argv(serial, &a)
}

/// The device adb state (`device`, `offline`, ...): the trimmed output of
/// `adb get-state`.
pub fn get_state(out: &ProcessOutput) -> (s: String)
    ensures
        s@ == trim(lossy_text(out.stdout@)),
{
    trimmed_stdout(out)
}

/// The arguments of `adb push <local> <remote>`.
pub fn push_argv(serial: &str, local: &str, remote: &str) -> (argv: Vec<String>)
    ensures
        strs(argv@) == adb_args(serial@, seq!["push"@, local@, remote@]),
{
    let a = vec!["push".to_string(), local.to_string(), remote.to_string()];
    assert(strs(a@) =~= seq!["push"@, local@, remote@]);
    raw_argv(serial, &a)
}

/// A failed `adb push`: what was pushed where, and adb's trimmed stderr.
#[derive(Debug)]
pub struct PushFailed {
    pub local: String,
    pub remote: String,
    pub stderr: String,
}

/// The result of `adb push <local> <remote>`: an error unless it exited with
/// status zero.
pub fn push(local: &str, remote: &str, out: &ProcessOutput) -> (r: Result<(), PushFailed>)
    ensures
        out.code == Some(0i32) ==> r is Ok,
        out.code != Some(0i32) ==> (r matches Err(e) && e.local@ == local@ && e.remote@ == remote@
            && e.stderr@ == trim(lossy_text(out.stderr@))),
{
    if remount(out) {
        Ok(())
    } else {
        let (_code, _stdout, stderr) = output_parts(out);
        Err(PushFailed {
            local: local.to_string(),
            remote: remote.to_string(),
            stderr: crate::text::trim_str(stderr.as_str()),
        })
    }
}

/// The arguments of a background `adb shell <remote_cmd>` (e.g. a listener).
pub fn spawn_shell_argv(serial: &str, remote_cmd: &str) -> (argv: Vec<String>)
    ensures
        strs(argv@) == adb_args(serial@, seq!["shell"@, remote_cmd@]),
{
    shell_argv(serial, remote_cmd)
}

/// No IPv4 address could be read for an interface of a device.
#[derive(Debug)]
pub struct NoAddress {
    pub iface: String,
    pub serial: String,
    pub shown: String,
}

/// The IPv4 address bound to `iface` on device `serial`, read from the
/// trimmed output `shown` of `ip -4 addr show dev <iface>`.
pub fn detect_ipv4(serial: &str, iface: &str, shown: &str) -> (r: Result<String, NoAddress>)
    ensures
        match inet_address(shown@) {
            Some(a) => r matches Ok(s) && s@ == a,
            None => r matches Err(e) && e.iface@ == iface@ && e.serial@ == serial@
                && e.shown@ == shown@,
        },
{
    match parse_inet(shown) {
        Some(a) => Ok(a),
        None => Err(NoAddress {
            iface: iface.to_string(),
            serial: serial.to_string(),
            shown: shown.to_string(),
        }),
    }
}

} // verus!
