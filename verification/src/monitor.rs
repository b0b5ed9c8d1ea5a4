//! Side-channel monitor cases: feature points idps-fw reports out-of-band of
//! the per-packet `firewall_event` path.
//!
//! * ICMP timestamp probe   -> firewall_event `IcmpTimestampProbe` (vendor 232)
//! * per-destination-IP TCP -> outbox `tcp_conn_per_ip`            (vendor 231)
//! * total TCP connections  -> outbox `tcp_conn_total`             (vendor 102)
//! * ARP spoofing           -> outbox `arp_spoof`                  (vendor 303)
//!
//! These run under a permissive (allow-all) firewall rule so the connection
//! flood can establish; ICMP-timestamp and ARP detection are independent of
//! the tuple filter. Each case runs as a state machine: the caller performs
//! the actions and hands back what came of them.

use vstd::prelude::*;

use crate::catalog::{case_by_id, catalog, FwCase, Side};
use crate::config::RunConfig;
use crate::exec::strs;
use crate::net::{ip_text, IpAddr};
use crate::peer::TrafficCmd;
use crate::target::{FwEvent, FwReport};
use crate::text::{dec, dec16, dec32, dec64, push_dec, push_str, str_eq, u16_to_string, u32_to_string, u64_to_string};
use crate::verify::{unknown_case, unknown_case_view, CaseResult, CaseResultView};

verus! {

/// idps-fw's connection-monitor cadence is 10 s; sampling waits a little
/// past it (milliseconds).
pub const MONITOR_SETTLE_MS: u64 = 13000;

/// How long the flood holds its connections, in seconds.
pub const HOLD_SECS: u64 = 22;

/// How many connections the flood opens.
pub const CONN_FLOOD_COUNT: u32 = 60;

/// The port the held listener serves and the flood connects to.
pub const FLOOD_PORT: u16 = 7400;

/// How long the held listener stays up, in seconds: past the flood's hold.
pub const FLOOD_LISTEN_SECS: u64 = 28;

/// How long the listener gets to bind before the flood starts (ms).
pub const FLOOD_READY_MS: u64 = 500;

/// The per-IP connection count a breach must reach.
pub const PER_IP_THRESHOLD: u64 = 50;

/// What a monitor case drives and asserts.
#[derive(Debug, Clone, Copy, PartialEq, Eq, Structural)]
pub enum MonitorKind {
    /// Peer sends an ICMP timestamp request (type 13).
    IcmpTimestamp,
    /// Peer holds many TCP connections so one destination IP crosses threshold.
    ConnPerIp,
    /// The always-on total-connection monitor samples at least once.
    ConnTotal,
    /// Peer floods gratuitous ARP replies for a spoofed IP.
    ArpSpoof,
}

/// One side-channel monitor case.
#[derive(Debug, Clone, Copy)]
pub struct MonitorCase {
    pub id: &'static str,
    pub kind: MonitorKind,
    pub notes: &'static str,
}

/// The mathematical value of a monitor case.
pub struct MonitorCaseView {
    pub id: Seq<char>,
    pub kind: MonitorKind,
    pub notes: Seq<char>,
}

impl View for MonitorCase {
    type V = MonitorCaseView;

    open spec fn view(&self) -> MonitorCaseView {
        MonitorCaseView { id: self.id@, kind: self.kind, notes: self.notes@ }
    }
}

/// The spoofed IP claimed by the ARP case (outside the live host addresses).
pub open spec fn arp_claim_ip() -> Seq<char> {
    "10.123.0.250"@
}

/// The monitor-case catalog.
pub open spec fn monitor_catalog() -> Seq<MonitorCaseView> {
    seq![
        MonitorCaseView {
            id: "monitor-icmp-timestamp"@,
            kind: MonitorKind::IcmpTimestamp,
            notes: "ICMP timestamp request (type 13) -> IcmpTimestampProbe event (232)"@,
        },
        MonitorCaseView {
            id: "monitor-conn-total"@,
            kind: MonitorKind::ConnTotal,
            notes: "always-on total established-TCP monitor emits a sample (102)"@,
        },
        MonitorCaseView {
            id: "monitor-conn-perip"@,
            kind: MonitorKind::ConnPerIp,
            notes: "many held connections push one dst IP past the threshold (231)"@,
        },
        MonitorCaseView {
            id: "monitor-arp-spoof"@,
            kind: MonitorKind::ArpSpoof,
            notes: "gratuitous ARP replies for a spoofed IP -> ArpSpoof event (303)"@,
        },
    ]
}

/// The full monitor-case catalog.
pub fn monitor_cases() -> (v: Vec<MonitorCase>)
    ensures
        v@.map_values(|c: MonitorCase| c@) == monitor_catalog(),
{
    let v = vec![
        MonitorCase {
            id: "monitor-icmp-timestamp",
            kind: MonitorKind::IcmpTimestamp,
            notes: "ICMP timestamp request (type 13) -> IcmpTimestampProbe event (232)",
        },
        MonitorCase {
            id: "monitor-conn-total",
            kind: MonitorKind::ConnTotal,
            notes: "always-on total established-TCP monitor emits a sample (102)",
        },
        MonitorCase {
            id: "monitor-conn-perip",
            kind: MonitorKind::ConnPerIp,
            notes: "many held connections push one dst IP past the threshold (231)",
        },
        MonitorCase {
            id: "monitor-arp-spoof",
            kind: MonitorKind::ArpSpoof,
            notes: "gratuitous ARP replies for a spoofed IP -> ArpSpoof event (303)",
        },
    ];
    assert(v@.map_values(|c: MonitorCase| c@) =~= monitor_catalog());
    v
}

/// Look up a monitor case by id: the first with that id.
pub fn monitor_case_by_id(id: &str) -> (r: Option<MonitorCase>)
    ensures
        match r {
            Some(c) => exists|i: int| 0 <= i < monitor_catalog().len() && monitor_catalog()[i]
                == c@ && c@.id == id@ && forall|k: int| 0 <= k < i ==> monitor_catalog()[k].id
                != id@,
            None => forall|i: int| 0 <= i < monitor_catalog().len() ==> monitor_catalog()[i].id
                != id@,
        },
{
    let cases = monitor_cases();
    let mut i: usize = 0;
    while i < cases.len()
        invariant
            i <= cases.len(),
            cases@.map_values(|c: MonitorCase| c@) == monitor_catalog(),
            forall|k: int| 0 <= k < i ==> monitor_catalog()[k].id != id@,
        decreases cases.len() - i,
    {
        if str_eq(cases[i].id, id) {
            assert(monitor_catalog()[i as int] == cases@[i as int]@);
            return Some(cases[i]);
        }
        assert(monitor_catalog()[i as int] == cases@[i as int]@);
        i = i + 1;
    }
    None
}

/// The report (or event) name a monitor case expects.
pub open spec fn expect_label(kind: MonitorKind) -> Seq<char> {
    match kind {
        MonitorKind::IcmpTimestamp => "IcmpTimestampProbe"@,
        MonitorKind::ConnPerIp => "tcp_conn_per_ip"@,
        MonitorKind::ConnTotal => "tcp_conn_total"@,
        MonitorKind::ArpSpoof => "arp_spoof"@,
    }
}

/// The report (or event) name a monitor case expects.
pub fn monitor_expect_label(kind: MonitorKind) -> (s: &'static str)
    ensures
        s@ == expect_label(kind),
{
    match kind {
        MonitorKind::IcmpTimestamp => "IcmpTimestampProbe",
        MonitorKind::ConnPerIp => "tcp_conn_per_ip",
        MonitorKind::ConnTotal => "tcp_conn_total",
        MonitorKind::ArpSpoof => "arp_spoof",
    }
}

/// The result of a monitor case: group and bundle `monitor`, a report
/// expected, `observed` as both the enforcement and the event observed.
pub open spec fn monitor_result_of(case: MonitorCaseView, status: Seq<char>, observed: Seq<char>, detail: Seq<char>) -> CaseResultView {
    CaseResultView {
        id: case.id,
        group: "monitor"@,
        bundle: "monitor"@,
        result: status,
        enforce_expected: "report"@,
        enforce_observed: observed,
        event_expected: expect_label(case.kind),
        event_observed: observed,
        report_confirmed: None,
        rule_id: None,
        detail,
    }
}

/// The result of a monitor case.
pub fn monitor_result(case: &MonitorCase, status: &str, observed: &str, detail: String) -> (r: CaseResult)
    ensures
        r@ == monitor_result_of(case@, status@, observed@, detail@),
{
    CaseResult {
        id: case.id.to_string(),
        group: "monitor".to_string(),
        bundle: "monitor".to_string(),
        result: status.to_string(),
        enforce_expected: "report".to_string(),
        enforce_observed: observed.to_string(),
        event_expected: monitor_expect_label(case.kind).to_string(),
        event_observed: observed.to_string(),
        report_confirmed: None,
        rule_id: None,
        detail,
    }
}

/// Whether an `IcmpTimestampProbe` event from `src` was recorded.
pub open spec fn probe_seen(events: Seq<FwEvent>, src: Seq<char>) -> bool {
    exists|i: int| 0 <= i < events.len() && #[trigger] events[i].event_type@
        == "IcmpTimestampProbe"@ && events[i].src_ip@ == src
}

/// Whether an `IcmpTimestampProbe` event from `src` was recorded.
pub fn icmp_probe_seen(events: &Vec<FwEvent>, src: &str) -> (r: bool)
    ensures
        r == probe_seen(events@, src@),
{
    let mut i: usize = 0;
    while i < events.len()
        invariant
            i <= events.len(),
            forall|k: int| 0 <= k < i ==> !(#[trigger] events@[k].event_type@
                == "IcmpTimestampProbe"@ && events@[k].src_ip@ == src@),
        decreases events.len() - i,
    {
        if str_eq(events[i].event_type.as_str(), "IcmpTimestampProbe") && str_eq(events[i].src_ip.as_str(), src) {
            return true;
        }
        i = i + 1;
    }
    false
}

/// A count, `0` when missing.
pub open spec fn count_of(c: Option<u64>) -> u64 {
    match c {
        Some(n) => n,
        None => 0,
    }
}

/// Whether a per-IP entry shows `peer` at or past the threshold.
pub open spec fn entry_breaches(e: crate::target::IpCount, peer: Seq<char>) -> bool {
    (e.ip matches Some(ip) && ip@ == peer) && count_of(e.count) >= PER_IP_THRESHOLD
}

/// Whether a report is a per-IP connection report whose entries show `peer`
/// at or past the threshold.
pub open spec fn report_breaches(r: FwReport, peer: Seq<char>) -> bool {
    r.report_type@ == "tcp_conn_per_ip"@ && (r.payload.ips matches Some(ips) && exists|j: int|
        0 <= j < ips@.len() && #[trigger] entry_breaches(ips@[j], peer))
}

/// Whether some report shows the per-IP threshold breached for `peer`.
pub open spec fn breach_seen(reports: Seq<FwReport>, peer: Seq<char>) -> bool {
    exists|i: int| 0 <= i < reports.len() && #[trigger] report_breaches(reports[i], peer)
}

fn entries_breach(ips: &Vec<crate::target::IpCount>, peer: &str) -> (b: bool)
    ensures
        b == exists|j: int| 0 <= j < ips@.len() && #[trigger] entry_breaches(ips@[j], peer@),
{
    let mut j: usize = 0;
    while j < ips.len()
        invariant
            j <= ips.len(),
            forall|k: int| 0 <= k < j ==> !#[trigger] entry_breaches(ips@[k], peer@),
        decreases ips.len() - j,
    {
        let e = &ips[j];
        let ip_ok = match &e.ip {
            Some(ip) => str_eq(ip.as_str(), peer),
            None => false,
        };
        let count = match e.count {
            Some(n) => n,
            None => 0,
        };
        if ip_ok && count >= PER_IP_THRESHOLD {
            assert(entry_breaches(ips@[j as int], peer@));
            return true;
        }
        j = j + 1;
    }
    false
}

/// Whether some report shows the per-IP threshold breached for `peer`.
pub fn per_ip_breach(reports: &Vec<FwReport>, peer: &str) -> (b: bool)
    ensures
        b == breach_seen(reports@, peer@),
{
    let mut i: usize = 0;
    while i < reports.len()
        invariant
            i <= reports.len(),
            forall|k: int| 0 <= k < i ==> !#[trigger] report_breaches(reports@[k], peer@),
        decreases reports.len() - i,
    {
        let r = &reports[i];
        if str_eq(r.report_type.as_str(), "tcp_conn_per_ip") {
            if let Some(ips) = &r.payload.ips {
                if entries_breach(ips, peer) {
                    assert(report_breaches(reports@[i as int], peer@));
                    return true;
                }
            }
        }
        i = i + 1;
    }
    false
}

/// The total of the first `tcp_conn_total` sample (`0` when it has none),
/// if any sample was emitted.
pub open spec fn first_total(reports: Seq<FwReport>) -> Option<u64>
    decreases reports.len(),
{
    if reports.len() == 0 {
        None
    } else if reports[0].report_type@ == "tcp_conn_total"@ {
        Some(count_of(reports[0].payload.total))
    } else {
        first_total(reports.drop_first())
    }
}

/// The total of the first `tcp_conn_total` sample, if any was emitted.
pub fn conn_total_sample(reports: &Vec<FwReport>) -> (r: Option<u64>)
    ensures
        r == first_total(reports@),
{
    let mut i: usize = 0;
    assert(reports@.skip(0) =~= reports@);
    while i < reports.len()
        invariant
            i <= reports.len(),
            first_total(reports@) == first_total(reports@.skip(i as int)),
        decreases reports.len() - i,
    {
        assert(reports@.skip(i as int).drop_first() =~= reports@.skip(i + 1));
        assert(reports@.skip(i as int)[0] == reports@[i as int]);
        if str_eq(reports[i].report_type.as_str(), "tcp_conn_total") {
            return Some(
                match reports[i].payload.total {
                    Some(n) => n,
                    None => 0,
                },
            );
        }
        i = i + 1;
    }
    None
}

/// Whether an `arp_spoof` report names the claimed IP as sender.
pub open spec fn spoof_seen(reports: Seq<FwReport>) -> bool {
    exists|i: int| 0 <= i < reports.len() && #[trigger] reports[i].report_type@ == "arp_spoof"@
        && (reports[i].payload.sip matches Some(s) && s@ == arp_claim_ip())
}

/// Whether an `arp_spoof` report names the claimed IP as sender.
pub fn arp_spoof_seen(reports: &Vec<FwReport>) -> (b: bool)
    ensures
        b == spoof_seen(reports@),
{
    let mut i: usize = 0;
    while i < reports.len()
        invariant
            i <= reports.len(),
            forall|k: int| 0 <= k < i ==> !(#[trigger] reports@[k].report_type@ == "arp_spoof"@
                && (reports@[k].payload.sip matches Some(s) && s@ == arp_claim_ip())),
        decreases reports.len() - i,
    {
        let r = &reports[i];
        let sip_ok = match &r.payload.sip {
            Some(s) => str_eq(s.as_str(), "10.123.0.250"),
            None => false,
        };
        if str_eq(r.report_type.as_str(), "arp_spoof") && sip_ok {
            return true;
        }
        i = i + 1;
    }
    false
}

/// The probe the ICMP timestamp case sends to the TARGET: one timestamp
/// request, 500 ms timeout.
pub open spec fn probe_cmd(cmd: TrafficCmd, to: IpAddr) -> bool {
    &&& cmd.proto@ == "icmp"@
    &&& cmd.to == to
    &&& cmd.dport is None
    &&& cmd.dports is None
    &&& cmd.sport is None
    &&& cmd.count == 1
    &&& cmd.timeout_ms == 500
    &&& cmd.interval_ms == 0
    &&& !cmd.await_reply
    &&& !cmd.fin_only
    &&& cmd.icmp_timestamp
}

/// The worker arguments of the held listener the flood connects to.
pub open spec fn held_listener_args() -> Seq<Seq<char>> {
    seq![
        "listen"@,
        "tcp"@,
        "--port"@,
        dec16(FLOOD_PORT),
        "--duration-secs"@,
        dec64(FLOOD_LISTEN_SECS),
        "--hold"@,
    ]
}

/// The worker arguments of the connection flood towards `target`.
pub open spec fn flood_args(target: Seq<char>) -> Seq<Seq<char>> {
    seq![
        "conn-flood"@,
        "--to"@,
        target,
        "--dport"@,
        dec16(FLOOD_PORT),
        "--count"@,
        dec32(CONN_FLOOD_COUNT),
        "--hold-secs"@,
        dec64(HOLD_SECS),
    ]
}

/// The worker arguments of the ARP spoof on the PEER interface `iface`.
pub open spec fn spoof_args(iface: Seq<char>) -> Seq<Seq<char>> {
    seq!["arp-spoof"@, "--iface"@, iface, "--claim-ip"@, arp_claim_ip(), "--count"@, "6"@]
}


/// Where a monitor case's run stands: what it waits for.
#[derive(Debug, Clone, Copy, PartialEq, Eq, Structural)]
pub enum MonitorStage {
    /// Not started.
    Start,
    /// The clock watermark is being read.
    Clocking,
    /// The ICMP timestamp probe is being sent.
    Probing,
    /// Firewall events are being read.
    Collecting,
    /// The held listener is being started.
    Listening,
    /// The held listener is given time to bind.
    Settling,
    /// The connection flood is being started.
    Flooding,
    /// The ARP spoof is being sent.
    Spoofing,
    /// A monitor cycle is given time to pass.
    Sampling,
    /// The side-channel reports are being read.
    Reading,
    /// The result has been given.
    Done,
}

/// What the caller does next for a monitor case.
#[derive(Debug)]
pub enum MonitorAction {
    /// Read the clock watermark (epoch ms); answer `Clock`, or `Failed`.
    ReadClock,
    /// Run the traffic worker on `side` with `cmd`; answer `Verdict`, or
    /// `Failed`.
    SendTraffic { side: Side, cmd: TrafficCmd, uid: Option<u32> },
    /// Wait `wait_ms` milliseconds, then read the firewall events newer than
    /// `since`; answer `Events` (none when they cannot be read).
    CollectEvents { wait_ms: u64, since: i64 },
    /// Start the worker with `args` in the background on `side`; answer
    /// `Done`, or `Failed`.
    SpawnWorker { side: Side, args: Vec<String> },
    /// Run the worker with `args` on `side` and read its JSON line; answer
    /// `Done`, or `Failed`.
    RunWorker { side: Side, args: Vec<String> },
    /// Wait `ms` milliseconds; answer `Done`.
    Pause { ms: u64 },
    /// Read the side-channel reports newer than `since`; answer `Reports`
    /// (none when they cannot be read).
    ReadReports { since: i64 },
    /// The case is over with `result`; with `stop_workers`, stop the
    /// background workers started for it.
    Finish { result: CaseResult, stop_workers: bool },
}

/// What came of a monitor action.
#[derive(Debug)]
pub enum MonitorEvent {
    /// The run is to start.
    Begin,
    /// The action is done.
    Done,
    /// The action failed with this error.
    Failed(String),
    /// The clock watermark.
    Clock(i64),
    /// The traffic worker's verdict.
    Verdict(String),
    /// The firewall events read.
    Events(Vec<FwEvent>),
    /// The side-channel reports read.
    Reports(Vec<FwReport>),
}

/// The run of one monitor case.
#[derive(Debug)]
pub struct MonitorRun {
    pub case: MonitorCase,
    pub stage: MonitorStage,
    /// The clock watermark.
    pub since: i64,
}

/// Whether the run, at `stage`, takes `ev` next.
pub open spec fn monitor_accepts(stage: MonitorStage, ev: MonitorEvent) -> bool {
    match stage {
        MonitorStage::Start => ev is Begin,
        MonitorStage::Clocking => ev is Clock || ev is Failed,
        MonitorStage::Probing => ev is Verdict || ev is Failed,
        MonitorStage::Collecting => ev is Events,
        MonitorStage::Listening => ev is Done || ev is Failed,
        MonitorStage::Settling => ev is Done,
        MonitorStage::Flooding => ev is Done || ev is Failed,
        MonitorStage::Spoofing => ev is Done || ev is Failed,
        MonitorStage::Sampling => ev is Done,
        MonitorStage::Reading => ev is Reports,
        MonitorStage::Done => false,
    }
}

/// An ICMP probe run never reaches the report-reading stages.
pub open spec fn monitor_well_formed(r: MonitorRun) -> bool {
    r.case.kind == MonitorKind::IcmpTimestamp ==> (r.stage == MonitorStage::Start || r.stage
        == MonitorStage::Clocking || r.stage == MonitorStage::Probing || r.stage
        == MonitorStage::Collecting || r.stage == MonitorStage::Done)
}

/// `act` ends the case with `result` and the given stop.
pub open spec fn monitor_finishes(act: MonitorAction, result: CaseResultView, stop: bool) -> bool {
    act matches MonitorAction::Finish { result: r, stop_workers: s } && r@ == result && s == stop
}

/// A failed monitor case: nothing observed, `what failed: m` as detail.
pub open spec fn monitor_failed(case: MonitorCaseView, what: Seq<char>, m: Seq<char>) -> CaseResultView {
    monitor_result_of(case, "FAIL"@, "none"@, what + " failed: "@ + m)
}

/// The verdict of a report-reading monitor case from the reports read.
pub open spec fn reports_verdict(cfg: RunConfig, case: MonitorCaseView, reports: Seq<FwReport>) -> CaseResultView {
    match case.kind {
        MonitorKind::ConnPerIp => if breach_seen(reports, ip_text(cfg.peer_ip)) {
            monitor_result_of(case, "PASS"@, "tcp_conn_per_ip"@, ip_text(cfg.peer_ip) + " >= 50 conns"@)
        } else {
            monitor_result_of(case, "FAIL"@, "none"@, "no tcp_conn_per_ip breach for the peer IP"@)
        },
        MonitorKind::ConnTotal => match first_total(reports) {
            Some(t) => monitor_result_of(case, "PASS"@, "tcp_conn_total"@, "total="@ + dec(t as nat)),
            None => monitor_result_of(case, "FAIL"@, "none"@, "no tcp_conn_total sample emitted"@),
        },
        _ => if spoof_seen(reports) {
            monitor_result_of(case, "PASS"@, "arp_spoof"@, "sip="@ + arp_claim_ip())
        } else {
            monitor_result_of(case, "FAIL"@, "none"@, "no arp_spoof event for the claimed IP"@)
        },
    }
}

/// The step a monitor run takes: from `old` on `ev` to `new`, asking for
/// `act`.
pub open spec fn monitor_stepped(cfg: RunConfig, old: MonitorRun, ev: MonitorEvent, new: MonitorRun, act: MonitorAction) -> bool {
    let case = old.case;
    &&& new.case == case
    &&& match (old.stage, ev) {
        (MonitorStage::Start, MonitorEvent::Begin) => new.stage == MonitorStage::Clocking
            && new.since == old.since && act is ReadClock,
        (MonitorStage::Clocking, MonitorEvent::Clock(t)) => new.since == t && match case.kind {
            MonitorKind::IcmpTimestamp => new.stage == MonitorStage::Probing && (
            act matches MonitorAction::SendTraffic { side, cmd, uid } && side == Side::Peer
                && probe_cmd(cmd, cfg.target_ip) && uid is None),
            MonitorKind::ConnPerIp => new.stage == MonitorStage::Listening && (
            act matches MonitorAction::SpawnWorker { side, args } && side == Side::Target && strs(
                args@,
            ) == held_listener_args()),
            MonitorKind::ConnTotal => new.stage == MonitorStage::Sampling && act == (
            MonitorAction::Pause { ms: MONITOR_SETTLE_MS }),
            MonitorKind::ArpSpoof => new.stage == MonitorStage::Spoofing && (
            act matches MonitorAction::RunWorker { side, args } && side == Side::Peer && strs(
                args@,
            ) == spoof_args(cfg.peer_iface@)),
        },
        (MonitorStage::Clocking, MonitorEvent::Failed(m)) => new.stage == MonitorStage::Done
            && monitor_finishes(act, monitor_failed(case@, "watermark"@, m@), false),
        (MonitorStage::Probing, MonitorEvent::Verdict(_)) => new.stage == MonitorStage::Collecting
            && new.since == old.since && act == (MonitorAction::CollectEvents {
            wait_ms: cfg.event_settle_ms,
            since: old.since,
        }),
        (MonitorStage::Probing, MonitorEvent::Failed(m)) => new.stage == MonitorStage::Done
            && monitor_finishes(act, monitor_failed(case@, "probe"@, m@), false),
        (MonitorStage::Collecting, MonitorEvent::Events(events)) => new.stage == MonitorStage::Done
            && monitor_finishes(
            act,
            if probe_seen(events@, ip_text(cfg.peer_ip)) {
                monitor_result_of(case@, "PASS"@, "IcmpTimestampProbe"@, Seq::empty())
            } else {
                monitor_result_of(case@, "FAIL"@, "none"@, "no IcmpTimestampProbe event recorded"@)
            },
            false,
        ),
        (MonitorStage::Listening, MonitorEvent::Done) => new.stage == MonitorStage::Settling
            && new.since == old.since && act == (MonitorAction::Pause { ms: FLOOD_READY_MS }),
        (MonitorStage::Listening, MonitorEvent::Failed(m)) => new.stage == MonitorStage::Done
            && monitor_finishes(act, monitor_failed(case@, "listener"@, m@), false),
        (MonitorStage::Settling, MonitorEvent::Done) => new.stage == MonitorStage::Flooding
            && new.since == old.since && (act matches MonitorAction::SpawnWorker { side, args }
            && side == Side::Peer && strs(args@) == flood_args(ip_text(cfg.target_ip))),
        (MonitorStage::Flooding, MonitorEvent::Done) => new.stage == MonitorStage::Sampling
            && new.since == old.since && act == (MonitorAction::Pause { ms: MONITOR_SETTLE_MS }),
        (MonitorStage::Flooding, MonitorEvent::Failed(m)) => new.stage == MonitorStage::Done
            && monitor_finishes(act, monitor_failed(case@, "conn-flood"@, m@), true),
        (MonitorStage::Spoofing, MonitorEvent::Done) => new.stage == MonitorStage::Sampling
            && new.since == old.since && act == (MonitorAction::Pause { ms: MONITOR_SETTLE_MS }),
        (MonitorStage::Spoofing, MonitorEvent::Failed(m)) => new.stage == MonitorStage::Done
            && monitor_finishes(act, monitor_failed(case@, "arp-spoof"@, m@), false),
        (MonitorStage::Sampling, MonitorEvent::Done) => new.stage == MonitorStage::Reading
            && new.since == old.since && act == (MonitorAction::ReadReports { since: old.since }),
        (MonitorStage::Reading, MonitorEvent::Reports(reports)) => new.stage == MonitorStage::Done
            && monitor_finishes(
            act,
            reports_verdict(cfg, case@, reports@),
            case.kind == MonitorKind::ConnPerIp,
        ),
        _ => false,
    }
}

fn failed_result(case: &MonitorCase, what: &str, m: &str) -> (r: CaseResult)
    ensures
        r@ == monitor_failed(case@, what@, m@),
{
    let mut d = what.to_string();
    push_str(&mut d, " failed: ");
    push_str(&mut d, m);
    monitor_result(case, "FAIL", "none", d)
}

fn probe(to: &IpAddr) -> (cmd: TrafficCmd)
    ensures
        probe_cmd(cmd, *to),
{
    let to = match to {
        IpAddr::V4(o) => IpAddr::V4(*o),
        IpAddr::V6(t) => IpAddr::V6(t.clone()),
    };
    TrafficCmd {
        proto: "icmp",
        to,
        dport: None,
        dports: None,
        sport: None,
        count: 1,
        timeout_ms: 500,
        interval_ms: 0,
        await_reply: false,
        fin_only: false,
        icmp_timestamp: true,
    }
}

/// The worker arguments of the held listener the flood connects to.
pub fn held_listener_argv() -> (v: Vec<String>)
    ensures
        strs(v@) == held_listener_args(),
{
    let v = vec![
        "listen".to_string(),
        "tcp".to_string(),
        "--port".to_string(),
        u16_to_string(FLOOD_PORT),
        "--duration-secs".to_string(),
        u64_to_string(FLOOD_LISTEN_SECS),
        "--hold".to_string(),
    ];
    assert(strs(v@) =~= held_listener_args());
    v
}

/// The worker arguments of the connection flood towards `target`.
pub fn flood_argv(target: &IpAddr) -> (v: Vec<String>)
    ensures
        strs(v@) == flood_args(ip_text(*target)),
{
    let v = vec![
        "conn-flood".to_string(),
        "--to".to_string(),
        target.to_text(),
        "--dport".to_string(),
        u16_to_string(FLOOD_PORT),
        "--count".to_string(),
        u32_to_string(CONN_FLOOD_COUNT),
        "--hold-secs".to_string(),
        u64_to_string(HOLD_SECS),
    ];
    assert(strs(v@) =~= flood_args(ip_text(*target)));
    v
}

/// The worker arguments of the ARP spoof on the PEER interface `iface`.
pub fn spoof_argv(iface: &str) -> (v: Vec<String>)
    ensures
        strs(v@) == spoof_args(iface@),
{
    let v = vec![
        "arp-spoof".to_string(),
        "--iface".to_string(),
        iface.to_string(),
        "--claim-ip".to_string(),
        "10.123.0.250".to_string(),
        "--count".to_string(),
        "6".to_string(),
    ];
    assert(strs(v@) =~= spoof_args(iface@));
    v
}

/// The verdict of a report-reading monitor case from the reports read.
fn judge_reports(cfg: &RunConfig, case: &MonitorCase, reports: &Vec<FwReport>) -> (r: CaseResult)
    ensures
        r@ == reports_verdict(*cfg, case@, reports@),
{
    match case.kind {
        MonitorKind::ConnPerIp => {
            let peer = cfg.peer_ip.to_text();
            if per_ip_breach(reports, peer.as_str()) {
                let mut d = peer.clone();
                push_str(&mut d, " >= 50 conns");
                monitor_result(case, "PASS", "tcp_conn_per_ip", d)
            } else {
                monitor_result(case, "FAIL", "none", "no tcp_conn_per_ip breach for the peer IP".to_string())
            }
        },
        MonitorKind::ConnTotal => match conn_total_sample(reports) {
            Some(t) => {
                let mut d = "total=".to_string();
                push_dec(&mut d, t);
                monitor_result(case, "PASS", "tcp_conn_total", d)
            },
            None => monitor_result(case, "FAIL", "none", "no tcp_conn_total sample emitted".to_string()),
        },
        _ => if arp_spoof_seen(reports) {
            let mut d = "sip=".to_string();
            push_str(&mut d, "10.123.0.250");
            monitor_result(case, "PASS", "arp_spoof", d)
        } else {
            monitor_result(case, "FAIL", "none", "no arp_spoof event for the claimed IP".to_string())
        },
    }
}

impl MonitorRun {
    /// A run of `case` that has not started.
    pub fn new(case: MonitorCase) -> (r: MonitorRun)
        ensures
            r.case == case,
            r.stage == MonitorStage::Start,
            r.since == 0,
            monitor_well_formed(r),
    {
        MonitorRun { case, stage: MonitorStage::Start, since: 0 }
    }

    /// Whether the run takes `ev` next.
    pub fn takes(&self, ev: &MonitorEvent) -> (b: bool)
        ensures
            b == monitor_accepts(self.stage, *ev),
    {
        match self.stage {
            MonitorStage::Start => matches!(ev, MonitorEvent::Begin),
            MonitorStage::Clocking => matches!(ev, MonitorEvent::Clock(_)) || matches!(ev, MonitorEvent::Failed(_)),
            MonitorStage::Probing => matches!(ev, MonitorEvent::Verdict(_)) || matches!(ev, MonitorEvent::Failed(_)),
            MonitorStage::Collecting => matches!(ev, MonitorEvent::Events(_)),
            MonitorStage::Listening => matches!(ev, MonitorEvent::Done) || matches!(ev, MonitorEvent::Failed(_)),
            MonitorStage::Settling => matches!(ev, MonitorEvent::Done),
            MonitorStage::Flooding => matches!(ev, MonitorEvent::Done) || matches!(ev, MonitorEvent::Failed(_)),
            MonitorStage::Spoofing => matches!(ev, MonitorEvent::Done) || matches!(ev, MonitorEvent::Failed(_)),
            MonitorStage::Sampling => matches!(ev, MonitorEvent::Done),
            MonitorStage::Reading => matches!(ev, MonitorEvent::Reports(_)),
            MonitorStage::Done => false,
        }
    }

    /// Take the outcome of the last action and decide the next one.
    pub fn step(&mut self, cfg: &RunConfig, ev: MonitorEvent) -> (act: MonitorAction)
        requires
            monitor_well_formed(*old(self)),
            monitor_accepts(old(self).stage, ev),
        ensures
            monitor_well_formed(*final(self)),
            monitor_stepped(*cfg, *old(self), ev, *final(self), act),
    {
        match (self.stage, ev) {
            (MonitorStage::Start, MonitorEvent::Begin) => {
                self.stage = MonitorStage::Clocking;
                MonitorAction::ReadClock
            },
            (MonitorStage::Clocking, MonitorEvent::Clock(t)) => {
                self.since = t;
                match self.case.kind {
                    MonitorKind::IcmpTimestamp => {
                        self.stage = MonitorStage::Probing;
                        MonitorAction::SendTraffic { side: Side::Peer, cmd: probe(&cfg.target_ip), uid: None }
                    },
                    MonitorKind::ConnPerIp => {
                        self.stage = MonitorStage::Listening;
                        MonitorAction::SpawnWorker { side: Side::Target, args: held_listener_argv() }
                    },
                    MonitorKind::ConnTotal => {
                        self.stage = MonitorStage::Sampling;
                        MonitorAction::Pause { ms: MONITOR_SETTLE_MS }
                    },
                    MonitorKind::ArpSpoof => {
                        self.stage = MonitorStage::Spoofing;
                        MonitorAction::RunWorker { side: Side::Peer, args: spoof_argv(cfg.peer_iface.as_str()) }
                    },
                }
            },
            (MonitorStage::Clocking, MonitorEvent::Failed(m)) => {
                self.stage = MonitorStage::Done;
                MonitorAction::Finish { result: failed_result(&self.case, "watermark", m.as_str()), stop_workers: false }
            },
            (MonitorStage::Probing, MonitorEvent::Verdict(_)) => {
                self.stage = MonitorStage::Collecting;
                MonitorAction::CollectEvents { wait_ms: cfg.event_settle_ms, since: self.since }
            },
            (MonitorStage::Probing, MonitorEvent::Failed(m)) => {
                self.stage = MonitorStage::Done;
                MonitorAction::Finish { result: failed_result(&self.case, "probe", m.as_str()), stop_workers: false }
            },
            (MonitorStage::Collecting, MonitorEvent::Events(events)) => {
                self.stage = MonitorStage::Done;
                let peer = cfg.peer_ip.to_text();
                let r = if icmp_probe_seen(&events, peer.as_str()) {
                    monitor_result(&self.case, "PASS", "IcmpTimestampProbe", String::new())
                } else {
                    monitor_result(&self.case, "FAIL", "none", "no IcmpTimestampProbe event recorded".to_string())
                };
                MonitorAction::Finish { result: r, stop_workers: false }
            },
            (MonitorStage::Listening, MonitorEvent::Done) => {
                self.stage = MonitorStage::Settling;
                MonitorAction::Pause { ms: FLOOD_READY_MS }
            },
            (MonitorStage::Listening, MonitorEvent::Failed(m)) => {
                self.stage = MonitorStage::Done;
                MonitorAction::Finish { result: failed_result(&self.case, "listener", m.as_str()), stop_workers: false }
            },
            (MonitorStage::Settling, MonitorEvent::Done) => {
                self.stage = MonitorStage::Flooding;
                MonitorAction::SpawnWorker { side: Side::Peer, args: flood_argv(&cfg.target_ip) }
            },
            (MonitorStage::Flooding, MonitorEvent::Done) => {
                self.stage = MonitorStage::Sampling;
                MonitorAction::Pause { ms: MONITOR_SETTLE_MS }
            },
            (MonitorStage::Flooding, MonitorEvent::Failed(m)) => {
                self.stage = MonitorStage::Done;
                MonitorAction::Finish { result: failed_result(&self.case, "conn-flood", m.as_str()), stop_workers: true }
            },
            (MonitorStage::Spoofing, MonitorEvent::Done) => {
                self.stage = MonitorStage::Sampling;
                MonitorAction::Pause { ms: MONITOR_SETTLE_MS }
            },
            (MonitorStage::Spoofing, MonitorEvent::Failed(m)) => {
                self.stage = MonitorStage::Done;
                MonitorAction::Finish { result: failed_result(&self.case, "arp-spoof", m.as_str()), stop_workers: false }
            },
            (MonitorStage::Sampling, MonitorEvent::Done) => {
                self.stage = MonitorStage::Reading;
                MonitorAction::ReadReports { since: self.since }
            },
            (MonitorStage::Reading, MonitorEvent::Reports(reports)) => {
                self.stage = MonitorStage::Done;
                let r = judge_reports(cfg, &self.case, &reports);
                MonitorAction::Finish { result: r, stop_workers: self.case.kind == MonitorKind::ConnPerIp }
            },
            _ => MonitorAction::ReadClock,
        }
    }
}

/// The result of every selected monitor case when the allow-all baseline
/// could not be provisioned.
pub fn provision_failed(case: &MonitorCase, error: &str) -> (r: CaseResult)
    ensures
        r@ == monitor_failed(case@, "provision"@, error@),
{
    failed_result(case, "provision", error)
}

/// The allow-all firewall rule the monitor cases run under.
pub fn baseline_rule() -> (s: &'static str)
    ensures
        s@ == "chain=localin,action=P\n"@,
{
    "chain=localin,action=P\n"
}


/// A monitor case id never names a catalog case, so looking an id up among
/// the monitor cases first hides no catalog case; and no two monitor cases
/// share an id.
pub proof fn lemma_monitor_ids_distinct(i: int, j: int)
    requires
        0 <= i < monitor_catalog().len(),
        0 <= j < crate::catalog::catalog().len(),
    ensures
        monitor_catalog()[i].id != crate::catalog::catalog()[j].id,
        forall|k: int| 0 <= k < monitor_catalog().len() && k != i ==> monitor_catalog()[k].id
            != monitor_catalog()[i].id,
{
    reveal_strlit("ingress-tuple-pass");
    reveal_strlit("ingress-tuple-alert");
    reveal_strlit("ingress-tuple-block");
    reveal_strlit("ingress-tuple-blocksilent");
    reveal_strlit("default-deny-blocks");
    reveal_strlit("default-deny-carveout");
    reveal_strlit("default-allow");
    reveal_strlit("egress-tcp-block");
    reveal_strlit("egress-tcp-alert");
    reveal_strlit("egress-udp-block");
    reveal_strlit("app-policy-deny");
    reveal_strlit("app-policy-allow");
    reveal_strlit("match-sip-host");
    reveal_strlit("match-sip-cidr");
    reveal_strlit("match-dport-range-lo");
    reveal_strlit("match-dport-range-hi");
    reveal_strlit("match-dport-range-out");
    reveal_strlit("match-sport-range");
    reveal_strlit("match-proto-icmp");
    reveal_strlit("match-proto-any-tcp");
    reveal_strlit("match-proto-any-udp");
    reveal_strlit("detect-portscan-tcp");
    reveal_strlit("detect-portscan-udp");
    reveal_strlit("detect-portscan-tcp-fin");
    reveal_strlit("detect-conn-abnormal");
    reveal_strlit("detect-below-threshold");
    reveal_strlit("traffic-global");
    reveal_strlit("traffic-per-app");
    reveal_strlit("priority-later-wins");
    reveal_strlit("priority-control-pass");
    reveal_strlit("monitor-icmp-timestamp");
    reveal_strlit("monitor-conn-total");
    reveal_strlit("monitor-conn-perip");
    reveal_strlit("monitor-arp-spoof");
    assert("ingress-tuple-pass"@.len() > 1 && "ingress-tuple-pass"@[0] == 'i' && "ingress-tuple-pass"@[1] == 'n');
    assert("ingress-tuple-alert"@.len() > 1 && "ingress-tuple-alert"@[0] == 'i' && "ingress-tuple-alert"@[1] == 'n');
    assert("ingress-tuple-block"@.len() > 1 && "ingress-tuple-block"@[0] == 'i' && "ingress-tuple-block"@[1] == 'n');
    assert("ingress-tuple-blocksilent"@.len() > 1 && "ingress-tuple-blocksilent"@[0] == 'i' && "ingress-tuple-blocksilent"@[1] == 'n');
    assert("default-deny-blocks"@.len() > 1 && "default-deny-blocks"@[0] == 'd' && "default-deny-blocks"@[1] == 'e');
    assert("default-deny-carveout"@.len() > 1 && "default-deny-carveout"@[0] == 'd' && "default-deny-carveout"@[1] == 'e');
    assert("default-allow"@.len() > 1 && "default-allow"@[0] == 'd' && "default-allow"@[1] == 'e');
    assert("egress-tcp-block"@.len() > 1 && "egress-tcp-block"@[0] == 'e' && "egress-tcp-block"@[1] == 'g');
    assert("egress-tcp-alert"@.len() > 1 && "egress-tcp-alert"@[0] == 'e' && "egress-tcp-alert"@[1] == 'g');
    assert("egress-udp-block"@.len() > 1 && "egress-udp-block"@[0] == 'e' && "egress-udp-block"@[1] == 'g');
    assert("app-policy-deny"@.len() > 1 && "app-policy-deny"@[0] == 'a' && "app-policy-deny"@[1] == 'p');
    assert("app-policy-allow"@.len() > 1 && "app-policy-allow"@[0] == 'a' && "app-policy-allow"@[1] == 'p');
    assert("match-sip-host"@.len() > 1 && "match-sip-host"@[0] == 'm' && "match-sip-host"@[1] == 'a');
    assert("match-sip-cidr"@.len() > 1 && "match-sip-cidr"@[0] == 'm' && "match-sip-cidr"@[1] == 'a');
    assert("match-dport-range-lo"@.len() > 1 && "match-dport-range-lo"@[0] == 'm' && "match-dport-range-lo"@[1] == 'a');
    assert("match-dport-range-hi"@.len() > 1 && "match-dport-range-hi"@[0] == 'm' && "match-dport-range-hi"@[1] == 'a');
    assert("match-dport-range-out"@.len() > 1 && "match-dport-range-out"@[0] == 'm' && "match-dport-range-out"@[1] == 'a');
    assert("match-sport-range"@.len() > 1 && "match-sport-range"@[0] == 'm' && "match-sport-range"@[1] == 'a');
    assert("match-proto-icmp"@.len() > 1 && "match-proto-icmp"@[0] == 'm' && "match-proto-icmp"@[1] == 'a');
    assert("match-proto-any-tcp"@.len() > 1 && "match-proto-any-tcp"@[0] == 'm' && "match-proto-any-tcp"@[1] == 'a');
    assert("match-proto-any-udp"@.len() > 1 && "match-proto-any-udp"@[0] == 'm' && "match-proto-any-udp"@[1] == 'a');
    assert("detect-portscan-tcp"@.len() > 1 && "detect-portscan-tcp"@[0] == 'd' && "detect-portscan-tcp"@[1] == 'e');
    assert("detect-portscan-udp"@.len() > 1 && "detect-portscan-udp"@[0] == 'd' && "detect-portscan-udp"@[1] == 'e');
    assert("detect-portscan-tcp-fin"@.len() > 1 && "detect-portscan-tcp-fin"@[0] == 'd' && "detect-portscan-tcp-fin"@[1] == 'e');
    assert("detect-conn-abnormal"@.len() > 1 && "detect-conn-abnormal"@[0] == 'd' && "detect-conn-abnormal"@[1] == 'e');
    assert("detect-below-threshold"@.len() > 1 && "detect-below-threshold"@[0] == 'd' && "detect-below-threshold"@[1] == 'e');
    assert("traffic-global"@.len() > 1 && "traffic-global"@[0] == 't' && "traffic-global"@[1] == 'r');
    assert("traffic-per-app"@.len() > 1 && "traffic-per-app"@[0] == 't' && "traffic-per-app"@[1] == 'r');
    assert("priority-later-wins"@.len() > 1 && "priority-later-wins"@[0] == 'p' && "priority-later-wins"@[1] == 'r');
    assert("priority-control-pass"@.len() > 1 && "priority-control-pass"@[0] == 'p' && "priority-control-pass"@[1] == 'r');
    assert("monitor-icmp-timestamp"@.len() == 22 && "monitor-icmp-timestamp"@[0] == 'm' && "monitor-icmp-timestamp"@[1] == 'o' && "monitor-icmp-timestamp"@[8] == 'i' && "monitor-icmp-timestamp"@[13] == 't');
    assert("monitor-conn-total"@.len() == 18 && "monitor-conn-total"@[0] == 'm' && "monitor-conn-total"@[1] == 'o' && "monitor-conn-total"@[8] == 'c' && "monitor-conn-total"@[13] == 't');
    assert("monitor-conn-perip"@.len() == 18 && "monitor-conn-perip"@[0] == 'm' && "monitor-conn-perip"@[1] == 'o' && "monitor-conn-perip"@[8] == 'c' && "monitor-conn-perip"@[13] == 'p');
    assert("monitor-arp-spoof"@.len() == 17 && "monitor-arp-spoof"@[0] == 'm' && "monitor-arp-spoof"@[1] == 'o' && "monitor-arp-spoof"@[8] == 'a' && "monitor-arp-spoof"@[13] == 'p');
    assert(monitor_catalog()[i].id[1] == 'o');
}

/// Whether a monitor case is taken by a run asked for `id` (every one when
/// no id is given).
pub open spec fn monitor_picked(id: Option<Seq<char>>) -> spec_fn(MonitorCaseView) -> bool {
    |c: MonitorCaseView|
        match id {
            Some(x) => c.id == x,
            None => true,
        }
}

/// The view of an optional id.
pub open spec fn id_view(id: Option<&str>) -> Option<Seq<char>> {
    match id {
        Some(s) => Some(s@),
        None => None,
    }
}

/// The views of a list of monitor cases.
pub open spec fn monitor_views(v: Seq<MonitorCase>) -> Seq<MonitorCaseView> {
    v.map_values(|c: MonitorCase| c@)
}

/// The monitor cases a run takes, in catalog order: the one named `id`, or
/// all of them when no id is given.
pub fn select_monitors(id: Option<&str>) -> (v: Vec<MonitorCase>)
    ensures
        monitor_views(v@) == monitor_catalog().filter(monitor_picked(id_view(id))),
{
    let all = monitor_cases();
    let ghost p = monitor_picked(id_view(id));
    let ghost whole = monitor_views(all@);
    assert(whole == monitor_catalog());
    let mut v: Vec<MonitorCase> = Vec::new();
    let mut i: usize = 0;
    proof {
        reveal_with_fuel(Seq::filter, 1);
        assert(whole.take(0) =~= Seq::<MonitorCaseView>::empty());
        assert(monitor_views(v@) =~= Seq::<MonitorCaseView>::empty());
    }
    while i < all.len()
        invariant
            i <= all.len(),
            p == monitor_picked(id_view(id)),
            whole == monitor_views(all@),
            monitor_views(v@) == whole.take(i as int).filter(p),
        decreases all.len() - i,
    {
        let c = all[i];
        proof {
            reveal_with_fuel(Seq::filter, 1);
            assert(whole.take(i + 1).drop_last() =~= whole.take(i as int));
            assert(whole.take(i + 1).last() == c@);
        }
        let take = match id {
            Some(x) => str_eq(c.id, x),
            None => true,
        };
        assert(take == p(c@));
        if take {
            let ghost before = v@;
            v.push(c);
            assert(monitor_views(v@) =~= monitor_views(before).push(c@));
        }
        i = i + 1;
    }
    assert(whole.take(all.len() as int) =~= whole);
    v
}

/// The results of monitor cases whose baseline rule could not be
/// provisioned: each FAILs in the provision stage with the error.
pub fn monitors_provision_failed(cases: &Vec<MonitorCase>, error: &str) -> (r: Vec<CaseResult>)
    ensures
        r@.len() == cases@.len(),
        forall|i: int| 0 <= i < cases@.len() ==> (#[trigger] r@[i])@ == monitor_failed(cases@[i]@, "provision"@, error@),
{
    let mut r: Vec<CaseResult> = Vec::new();
    let mut i: usize = 0;
    while i < cases.len()
        invariant
            i <= cases.len(),
            r@.len() == i,
            forall|k: int| 0 <= k < i ==> (#[trigger] r@[k])@ == monitor_failed(cases@[k]@, "provision"@, error@),
        decreases cases.len() - i,
    {
        r.push(provision_failed(&cases[i], error));
        i = i + 1;
    }
    r
}

/// Whether `id` names a monitor case.
pub open spec fn monitor_named(id: Seq<char>) -> bool {
    exists|i: int| 0 <= i < monitor_catalog().len() && #[trigger] monitor_catalog()[i].id == id
}

/// Whether `id` names a catalog case.
pub open spec fn flow_named(id: Seq<char>) -> bool {
    exists|i: int| 0 <= i < catalog().len() && #[trigger] catalog()[i].id == id
}

/// What a case id given to `run` names.
pub enum IdTarget {
    /// The monitor case of that id.
    Monitors,
    /// The catalog case of that id.
    Flow(FwCase),
    /// No case: the result to report.
    Unknown(CaseResult),
}

/// Resolve a case id given to `run`: a monitor case first, else a catalog
/// case, else the FAIL result of an unknown id.
pub fn target_of_id(id: &str) -> (r: IdTarget)
    ensures
        r is Monitors <==> monitor_named(id@),
        r is Unknown <==> !monitor_named(id@) && !flow_named(id@),
        r matches IdTarget::Flow(c) ==> exists|i: int|
            0 <= i < catalog().len() && #[trigger] catalog()[i] == c@ && c@.id == id@,
        r matches IdTarget::Unknown(u) ==> u@ == unknown_case_view(id@),
{
    match monitor_case_by_id(id) {
        Some(_) => IdTarget::Monitors,
        None => {
            proof {
                if monitor_named(id@) {
                    let i = choose|i: int| 0 <= i < monitor_catalog().len() && #[trigger] monitor_catalog()[i].id == id@;
                    assert(monitor_catalog()[i].id != id@);
                }
            }
            match case_by_id(id) {
                Some(c) => IdTarget::Flow(c),
                None => {
                    proof {
                        if flow_named(id@) {
                            let i = choose|i: int| 0 <= i < catalog().len() && #[trigger] catalog()[i].id == id@;
                            assert(catalog()[i].id != id@);
                        }
                    }
                    IdTarget::Unknown(unknown_case(id))
                },
            }
        },
    }
}

/// The per-IP connection monitor sees a breach for `peer` exactly when
/// some `tcp_conn_per_ip` report has an entry naming `peer` itself with a
/// count of at least 50; entries for other hosts, entries without an
/// address, and other report types never count.
pub proof fn lemma_breach_names_the_peer(reports: Seq<FwReport>, peer: Seq<char>)
    ensures
        breach_seen(reports, peer) <==> exists|i: int, j: int|
            0 <= i < reports.len() && #[trigger] reports[i].report_type@ == "tcp_conn_per_ip"@
                && reports[i].payload.ips is Some && 0 <= j < reports[i].payload.ips.unwrap()@.len()
                && #[trigger] reports[i].payload.ips.unwrap()@[j].ip is Some
                && reports[i].payload.ips.unwrap()@[j].ip.unwrap()@ == peer
                && reports[i].payload.ips.unwrap()@[j].count is Some
                && reports[i].payload.ips.unwrap()@[j].count.unwrap() >= 50,
{
    if breach_seen(reports, peer) {
        let i = choose|i: int| 0 <= i < reports.len() && #[trigger] report_breaches(reports[i], peer);
        let ips = reports[i].payload.ips.unwrap();
        let j = choose|j: int| 0 <= j < ips@.len() && #[trigger] entry_breaches(ips@[j], peer);
        assert(reports[i].payload.ips.unwrap()@[j].ip is Some);
    }
    if exists|i: int, j: int|
        0 <= i < reports.len() && #[trigger] reports[i].report_type@ == "tcp_conn_per_ip"@
            && reports[i].payload.ips is Some && 0 <= j < reports[i].payload.ips.unwrap()@.len()
            && #[trigger] reports[i].payload.ips.unwrap()@[j].ip is Some
            && reports[i].payload.ips.unwrap()@[j].ip.unwrap()@ == peer
            && reports[i].payload.ips.unwrap()@[j].count is Some
            && reports[i].payload.ips.unwrap()@[j].count.unwrap() >= 50 {
        let (i, j) = choose|i: int, j: int|
            0 <= i < reports.len() && #[trigger] reports[i].report_type@ == "tcp_conn_per_ip"@
                && reports[i].payload.ips is Some && 0 <= j < reports[i].payload.ips.unwrap()@.len()
                && #[trigger] reports[i].payload.ips.unwrap()@[j].ip is Some
                && reports[i].payload.ips.unwrap()@[j].ip.unwrap()@ == peer
                && reports[i].payload.ips.unwrap()@[j].count is Some
                && reports[i].payload.ips.unwrap()@[j].count.unwrap() >= 50;
        let ips = reports[i].payload.ips.unwrap();
        assert(entry_breaches(ips@[j], peer));
        assert(report_breaches(reports[i], peer));
    }
}

} // verus!
