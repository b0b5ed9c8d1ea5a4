//! Rule provisioning decisions.
//!
//! Android mode writes the encrypted depot directly through the worker's
//! `provision-rule` and waits for idps-fw to load it; the version is forced
//! to `current + 1` so `firewall_rule_ver` strictly increases. Host mode
//! upserts the rule into VSOC and waits for the cloud-synced version. idps-fw
//! blocks in `RuleSyncing` until it has both a firewall and a traffic-policy
//! rule, so a traffic-policy rule is written before any firewall rule is
//! waited for.

use vstd::prelude::*;

use crate::exec::strs;
use crate::target::HealthSnapshot;
use crate::text::{dec, int_dec, push_dec, push_int, push_str};

verus! {

/// How often the health snapshot is polled while waiting (ms).
pub const POLL_MS: u64 = 1000;

/// How often a still-waiting line is logged (ms).
pub const WAIT_LOG_MS: u64 = 5000;

/// Where the rule text is staged on the TARGET.
pub fn remote_rule_path() -> (p: &'static str)
    ensures
        p@ == "/data/local/tmp/fw-verify-rule.txt"@,
{
    "/data/local/tmp/fw-verify-rule.txt"
}

/// The rule version to provision after `before` (`-1` when unknown): one
/// past it, and at least `1`.
pub open spec fn target_ver_of(before: i64) -> int {
    (if before > 0 { before as int } else { 0 }) + 1
}

/// The rule version to provision after `before` (`-1` when unknown).
pub fn target_rule_ver(before: i64) -> (v: i64)
    requires
        before < i64::MAX,
    ensures
        v == target_ver_of(before),
{
    (if before > 0 { before } else { 0 }) + 1
}

/// The traffic-policy version a health read gives, `-1` when it failed or
/// lacks one.
pub fn traffic_rule_ver(health: &Option<HealthSnapshot>) -> (v: i64)
    ensures
        v == match health {
            Some(h) => match h.traffic_rule_ver {
                Some(x) => x,
                None => -1i64,
            },
            None => -1i64,
        },
{
    match health {
        Some(h) => match h.traffic_rule_ver {
            Some(x) => x,
            None => -1,
        },
        None => -1,
    }
}

/// The worker arguments that encrypt the staged rule into the depot as
/// version `ver` of rule `fun` of domain `acd`.
pub open spec fn provision_args_of(acd: i32, fun: i32, ver: i64) -> Seq<Seq<char>> {
    seq![
        "provision-rule"@,
        "--acd"@,
        int_dec(acd as int),
        "--fun"@,
        int_dec(fun as int),
        "--ver"@,
        int_dec(ver as int),
        "--input"@,
        "/data/local/tmp/fw-verify-rule.txt"@,
    ]
}

fn int_text(n: i64) -> (s: String)
    ensures
        s@ == int_dec(n as int),
{
    let mut s = String::new();
    push_int(&mut s, n);
    assert(Seq::<char>::empty() + int_dec(n as int) =~= int_dec(n as int));
    s
}

/// The worker arguments that encrypt the staged rule into the depot.
pub fn provision_args(acd: i32, fun: i32, ver: i64) -> (args: Vec<String>)
    ensures
        strs(args@) == provision_args_of(acd, fun, ver),
{
    let args = vec![
        "provision-rule".to_string(),
        "--acd".to_string(),
        int_text(acd as i64),
        "--fun".to_string(),
        int_text(fun as i64),
        "--ver".to_string(),
        int_text(ver),
        "--input".to_string(),
        remote_rule_path().to_string(),
    ];
    assert(strs(args@) =~= provision_args_of(acd, fun, ver));
    args
}

/// The traffic-policy rule for a cycle of `cycle` seconds.
pub open spec fn cycle_rule_of(cycle: u64) -> Seq<char> {
    "{\"cycle\":"@ + dec(cycle as nat) + "}"@
}

/// The traffic-policy rule for a cycle of `cycle` seconds.
pub fn cycle_rule(cycle: u64) -> (s: String)
    ensures
        s@ == cycle_rule_of(cycle),
{
    let mut s = "{\"cycle\":".to_string();
    push_dec(&mut s, cycle);
    push_str(&mut s, "}");
    s
}

/// The worker could not derive the runtime AES key (no keystore, no
/// VIN/DSN): idps-server is likely not initialized on the TARGET.
#[derive(Debug)]
pub struct KeyMissing;

/// The worker's `key_present` answer: an error exactly when it says `false`.
pub fn require_key_present(key_present: Option<bool>) -> (r: Result<(), KeyMissing>)
    ensures
        r is Err <==> key_present == Some(false),
{
    if key_present == Some(false) {
        Err(KeyMissing)
    } else {
        Ok(())
    }
}

/// Whether a health read shows `field` at or past `expected` (an absent
/// field counts as `-1`); a failed read shows nothing.
pub fn rule_ver_reached(observed: Option<i64>, expected: i64) -> (b: bool)
    ensures
        b == (match observed {
            Some(x) => x,
            None => -1i64,
        } >= expected),
{
    match observed {
        Some(x) => x >= expected,
        None => -1 >= expected,
    }
}

/// Whether a health read shows the traffic cycle at `cycle` (an absent
/// field counts as `0`).
pub fn cycle_reached(observed: Option<u64>, cycle: u64) -> (b: bool)
    ensures
        b == (match observed {
            Some(x) => x,
            None => 0u64,
        } == cycle),
{
    match observed {
        Some(x) => x == cycle,
        None => 0 == cycle,
    }
}

/// What a waiting loop does after a health read.
#[derive(Debug, Clone, Copy, PartialEq, Eq, Structural)]
pub enum PollStep {
    /// The awaited value arrived.
    Reached,
    /// The deadline passed.
    TimedOut,
    /// Log that it is still waiting, then wait a poll interval.
    Report,
    /// Wait a poll interval.
    Wait,
}

/// What a waiting loop does at `now_ms`: done when the value arrived, else
/// out of time at the deadline, else a log line when one is due, else wait.
pub fn poll_step(reached: bool, now_ms: u64, deadline_ms: u64, next_log_ms: u64) -> (s: PollStep)
    ensures
        s == if reached {
            PollStep::Reached
        } else if now_ms >= deadline_ms {
            PollStep::TimedOut
        } else if now_ms >= next_log_ms {
            PollStep::Report
        } else {
            PollStep::Wait
        },
{
    if reached {
        PollStep::Reached
    } else if now_ms >= deadline_ms {
        PollStep::TimedOut
    } else if now_ms >= next_log_ms {
        PollStep::Report
    } else {
        PollStep::Wait
    }
}

/// The depot file pattern of rule `fun` of domain `acd`.
pub open spec fn depot_pattern(acd: i32, fun: i32) -> Seq<char> {
    "/data/idd/rule/depot/"@ + int_dec(acd as int) + "-"@ + int_dec(fun as int) + "-*.rule*"@
}

fn depot_pattern_text(acd: i32, fun: i32) -> (s: String)
    ensures
        s@ == depot_pattern(acd, fun),
{
    let mut s = "/data/idd/rule/depot/".to_string();
    push_int(&mut s, acd as i64);
    push_str(&mut s, "-");
    push_int(&mut s, fun as i64);
    push_str(&mut s, "-*.rule*");
    s
}

/// The shell commands that reset Android depot rules to the defaults:
/// remove the provisioned firewall and traffic-policy rules, then the
/// staged rule file.
pub fn reset_commands(acd: i32, fun_fw: i32, fun_traffic: i32) -> (cmds: (String, String))
    ensures
        cmds.0@ == "rm -f "@ + depot_pattern(acd, fun_fw) + " "@ + depot_pattern(acd, fun_traffic),
        cmds.1@ == "rm -f /data/local/tmp/fw-verify-rule.txt"@,
{
    let mut a = "rm -f ".to_string();
    push_str(&mut a, depot_pattern_text(acd, fun_fw).as_str());
    push_str(&mut a, " ");
    push_str(&mut a, depot_pattern_text(acd, fun_traffic).as_str());
    (a, "rm -f /data/local/tmp/fw-verify-rule.txt".to_string())
}

/// The allow-all firewall rule a host-mode reset upserts.
pub fn allow_all_rule() -> (s: &'static str)
    ensures
        s@ == "chain=localin,action=P\n"@,
{
    "chain=localin,action=P\n"
}


/// The version forced on an Android provision is always past the loaded
/// one and at least 1, so `firewall_rule_ver` strictly increases even when
/// a higher-versioned rule was loaded before (or none could be read).
pub proof fn lemma_target_ver_increases(before: i64)
    ensures
        target_ver_of(before) > before,
        target_ver_of(before) >= 1,
{
}

} // verus!
