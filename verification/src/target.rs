//! TARGET-side observation: what idps-fw's health and statistics snapshots,
//! its `firewall_event` rows and its side-channel reports hold, as far as
//! the judgement reads them.

use vstd::prelude::*;

use crate::text::push_str;

verus! {

/// A `firewall_event` row as produced by the event query. Not every column
/// participates in matching.
#[derive(Debug, Clone)]
pub struct FwEvent {
    pub event_id: String,
    pub event_time_ms: i64,
    pub event_type: String,
    pub action: String,
    pub src_ip: String,
    pub src_port: i64,
    pub dst_ip: String,
    pub dst_port: i64,
    pub proto: String,
    pub rule_id: Option<i64>,
    pub detail: String,
    pub report_state: String,
}

/// One `{ "ip": .., "count": .. }` entry of a per-destination-IP report:
/// the `ip` when it is a string, the `count` when it is an unsigned number.
#[derive(Debug, Clone)]
pub struct IpCount {
    pub ip: Option<String>,
    pub count: Option<u64>,
}

/// What the judgement reads of a report payload: `ips` when it is an array,
/// `total` when it is an unsigned number, `sip` when it is a string.
#[derive(Debug, Clone)]
pub struct ReportPayload {
    pub ips: Option<Vec<IpCount>>,
    pub total: Option<u64>,
    pub sip: Option<String>,
}

/// One side-channel monitor report as produced by the report query.
#[derive(Debug, Clone)]
pub struct FwReport {
    pub report_type: String,
    pub payload: ReportPayload,
    pub created_at_ms: i64,
}

/// What is read of the idps-fw health snapshot: each field when present
/// with the expected JSON type.
#[derive(Debug, Clone)]
pub struct HealthSnapshot {
    pub firewall_rule_ver: Option<i64>,
    pub traffic_rule_ver: Option<i64>,
    pub traffic_cycle_secs: Option<u64>,
    pub connected: Option<bool>,
    pub phase: Option<String>,
}

/// What is read of the idps-fw statistics snapshot: each counter when it
/// is present as a signed number.
#[derive(Debug, Clone)]
pub struct StatsSnapshot {
    pub ingress_bytes: Option<i64>,
    pub egress_bytes: Option<i64>,
    pub global_traffic_windows: Option<i64>,
    pub app_traffic_windows: Option<i64>,
}

/// The shell command that prints the idps-fw health snapshot.
pub fn health_cmd(idps_fw: &str) -> (cmd: String)
    ensures
        cmd@ == idps_fw@ + " health"@,
{
    let mut cmd = idps_fw.to_string();
    push_str(&mut cmd, " health");
    cmd
}

/// The shell command that prints the idps-fw statistics snapshot.
pub fn statistics_cmd(idps_fw: &str) -> (cmd: String)
    ensures
        cmd@ == idps_fw@ + " statistics"@,
{
    let mut cmd = idps_fw.to_string();
    push_str(&mut cmd, " statistics");
    cmd
}

/// The firewall rule version in a health snapshot, `-1` if unknown.
pub fn firewall_rule_ver(health: &HealthSnapshot) -> (v: i64)
    ensures
        v == match health.firewall_rule_ver {
            Some(x) => x,
            None => -1i64,
        },
{
    match health.firewall_rule_ver {
        Some(x) => x,
        None => -1,
    }
}

} // verus!
