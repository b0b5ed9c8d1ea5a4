//! Preflight: the checks that the topology, the worker, idps-fw and the
//! rule delivery path are usable, and how they are reported.

use vstd::prelude::*;

use crate::config::Mode;
use crate::text::{contains, push_str, str_contains};

verus! {

/// One preflight check: what was checked, whether it passed, and what was
/// seen.
#[derive(Debug)]
pub struct Check {
    pub label: String,
    pub pass: bool,
    pub info: String,
}

/// The check that the worker answers on side `role`: it passes when the
/// worker replied, the error is shown when it did not.
pub fn agent_check(role: &str, reply: &Result<(), String>) -> (c: Check)
    ensures
        c.label@ == role@ + " fw-agent"@,
        c.pass == reply is Ok,
        c.info@ == match reply {
            Ok(_) => "responds"@,
            Err(m) => m@,
        },
{
    let mut label = role.to_string();
    push_str(&mut label, " fw-agent");
    match reply {
        Ok(_) => Check { label, pass: true, info: "responds".to_string() },
        Err(m) => Check { label, pass: false, info: m.clone() },
    }
}

/// The check that idps-fw answers its health query, showing its phase
/// (`?` when it reports none) or the error.
pub fn health_check(health: &Result<Option<String>, String>) -> (c: Check)
    ensures
        c.label@ == "idps-fw health"@,
        c.pass == health is Ok,
        c.info@ == match health {
            Ok(Some(p)) => "phase="@ + p@,
            Ok(None) => "phase=?"@,
            Err(m) => m@,
        },
{
    let info = match health {
        Ok(Some(p)) => {
            let mut s = "phase=".to_string();
            push_str(&mut s, p.as_str());
            s
        },
        Ok(None) => "phase=?".to_string(),
        Err(m) => m.clone(),
    };
    Check { label: "idps-fw health".to_string(), pass: health.is_ok(), info }
}

/// A check that passes when the answer of a shell probe mentions `token`.
pub fn answer_check(label: &str, answer: &str, token: &str) -> (c: Check)
    ensures
        c.label@ == label@,
        c.pass == contains(answer@, token@),
        c.info@ == answer@,
{
    Check { label: label.to_string(), pass: str_contains(answer, token), info: answer.to_string() }
}

/// The check that the VSOC API is reachable.
pub fn vsoc_check(reachable: bool) -> (c: Check)
    ensures
        c.label@ == "vsoc api"@,
        c.pass == reachable,
        c.info@ == if reachable { "reachable"@ } else { "unreachable"@ },
{
    Check {
        label: "vsoc api".to_string(),
        pass: reachable,
        info: if reachable { "reachable".to_string() } else { "unreachable".to_string() },
    }
}

/// The report line of a check: `[ok]` or `[FAIL]`, the label and the info.
pub fn check_line(c: &Check) -> (s: String)
    ensures
        s@ == (if c.pass { "[ok] "@ } else { "[FAIL] "@ }) + c.label@ + ": "@ + c.info@,
{
    let mut s = if c.pass { "[ok] ".to_string() } else { "[FAIL] ".to_string() };
    push_str(&mut s, c.label.as_str());
    push_str(&mut s, ": ");
    push_str(&mut s, c.info.as_str());
    s
}

/// Whether every check passed.
pub fn all_passed(checks: &Vec<Check>) -> (b: bool)
    ensures
        b == forall|i: int| 0 <= i < checks@.len() ==> #[trigger] checks@[i].pass,
{
    let mut i: usize = 0;
    while i < checks.len()
        invariant
            i <= checks.len(),
            forall|k: int| 0 <= k < i ==> #[trigger] checks@[k].pass,
        decreases checks.len() - i,
    {
        if !checks[i].pass {
            return false;
        }
        i = i + 1;
    }
    true
}

/// The advisory keystore line: `[ok]` when the probe found it, else
/// `[warn]`.
pub fn keystore_line(answer: &str) -> (s: String)
    ensures
        s@ == (if contains(answer@, "yes"@) { "[ok]"@ } else { "[warn]"@ }) + " target keystore: "@
            + answer@,
{
    let mut s = if str_contains(answer, "yes") { "[ok]".to_string() } else { "[warn]".to_string() };
    push_str(&mut s, " target keystore: ");
    push_str(&mut s, answer);
    s
}

/// One preflight probe.
#[derive(Debug, Clone, Copy, PartialEq, Eq, Structural)]
pub enum Probe {
    /// The worker answers on the TARGET.
    TargetAgent,
    /// The worker answers on the PEER.
    PeerAgent,
    /// idps-fw answers its health query.
    Health,
    /// The rule depot directory exists on the TARGET.
    DepotDir,
    /// The PEER reaches the TARGET.
    PeerLink,
    /// The VSOC API is reachable.
    VsocApi,
}

/// The probes a preflight runs, in order: the worker on both sides, idps-fw
/// health and the depot directory always; the PEER-to-TARGET link and the
/// VSOC API only in host mode, where rules go through the dashboard.
pub open spec fn probes_of(mode: Mode) -> Seq<Probe> {
    seq![Probe::TargetAgent, Probe::PeerAgent, Probe::Health, Probe::DepotDir] + if mode
        == Mode::Host {
        seq![Probe::PeerLink, Probe::VsocApi]
    } else {
        Seq::empty()
    }
}

/// The probes a preflight runs in `mode`.
pub fn preflight_probes(mode: Mode) -> (v: Vec<Probe>)
    ensures
        v@ == probes_of(mode),
{
    let mut v = vec![Probe::TargetAgent, Probe::PeerAgent, Probe::Health, Probe::DepotDir];
    if mode == Mode::Host {
        v.push(Probe::PeerLink);
        v.push(Probe::VsocApi);
    }
    assert(v@ =~= probes_of(mode));
    v
}

} // verus!
