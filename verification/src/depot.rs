//! `provision-rule`: the metadata and path of a rule written into the
//! idps-server depot. The encryption and the write itself are idps-server's
//! `RuleDepot`, reached by the caller.

use vstd::prelude::*;

use crate::text::{int_dec, push_int, push_str};
use crate::vsoc::{trim_slashes, trimmed_base};

verus! {

/// The metadata of the rule a depot holds (all zero when it holds none).
#[derive(Debug, Clone, Copy, PartialEq, Eq, Structural)]
pub struct RuleMeta {
    pub ver: i32,
    pub major_ver: i32,
    pub minor_ver: i32,
}

/// The metadata a new rule is written with.
#[derive(Debug, Clone, Copy, PartialEq, Eq, Structural)]
pub struct RulePlan {
    pub prot_ver: i32,
    pub ver: i32,
    pub major_ver: i32,
    pub minor_ver: i32,
}

/// The metadata of a new rule: protocol version at least 1; the given
/// version, else one past the previous (saturating); major version at least
/// 1; the previous minor version.
pub open spec fn plan_of(prot_ver: i32, ver: Option<i32>, previous: RuleMeta) -> RulePlan {
    RulePlan {
        prot_ver: if prot_ver >= 1 { prot_ver } else { 1 },
        ver: match ver {
            Some(v) => v,
            None => if previous.ver == i32::MAX { i32::MAX } else { (previous.ver + 1) as i32 },
        },
        major_ver: if previous.major_ver >= 1 { previous.major_ver } else { 1 },
        minor_ver: previous.minor_ver,
    }
}

/// The metadata of a new rule.
pub fn rule_plan(prot_ver: i32, ver: Option<i32>, previous: &RuleMeta) -> (p: RulePlan)
    ensures
        p == plan_of(prot_ver, ver, *previous),
{
    RulePlan {
        prot_ver: if prot_ver >= 1 { prot_ver } else { 1 },
        ver: match ver {
            Some(v) => v,
            None => if previous.ver == i32::MAX { i32::MAX } else { previous.ver + 1 },
        },
        major_ver: if previous.major_ver >= 1 { previous.major_ver } else { 1 },
        minor_ver: previous.minor_ver,
    }
}

/// Where the depot keeps rule `fun` of domain `acd` for protocol `prot_ver`.
pub open spec fn rule_path_of(depot: Seq<char>, acd: i32, fun: i32, prot_ver: i32) -> Seq<char> {
    trim_slashes(depot) + "/"@ + int_dec(acd as int) + "-"@ + int_dec(fun as int) + "-"@ + int_dec(
        prot_ver as int,
    ) + ".rule"@
}

/// Where the depot keeps rule `fun` of domain `acd` for protocol `prot_ver`.
pub fn depot_rule_path(depot: &str, acd: i32, fun: i32, prot_ver: i32) -> (s: String)
    ensures
        s@ == rule_path_of(depot@, acd, fun, prot_ver),
{
    let mut s = trimmed_base(depot);
    push_str(&mut s, "/");
    push_int(&mut s, acd as i64);
    push_str(&mut s, "-");
    push_int(&mut s, fun as i64);
    push_str(&mut s, "-");
    push_int(&mut s, prot_ver as i64);
    push_str(&mut s, ".rule");
    s
}

} // verus!
