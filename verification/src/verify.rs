//! Per-case judgement: the traffic each case sends, which firewall event
//! counts as the expected one, and the verdict a case gets from what was
//! observed; and the order in which a case's steps run.

use vstd::prelude::*;

use crate::catalog::{
    group_name, Bundle, Enforce, ExpectEvent, ExpectEventView, FwCase, FwCaseView, Group,
    Side, TrafficKind, TrafficKindView,
};
use crate::config::RunConfig;
use crate::net::{ip_text, IpAddr};
use crate::peer::TrafficCmd;
use crate::target::{FwEvent, StatsSnapshot};
use crate::text::{int_dec, push_diff, push_int, push_str, str_eq};

verus! {

/// Outcome of a single case.
#[derive(Debug, Clone)]
pub struct CaseResult {
    pub id: String,
    pub group: String,
    pub bundle: String,
    pub result: String,
    pub enforce_expected: String,
    pub enforce_observed: String,
    pub event_expected: String,
    pub event_observed: String,
    pub report_confirmed: Option<bool>,
    pub rule_id: Option<i64>,
    pub detail: String,
}

/// The mathematical value of a `CaseResult`.
pub struct CaseResultView {
    pub id: Seq<char>,
    pub group: Seq<char>,
    pub bundle: Seq<char>,
    pub result: Seq<char>,
    pub enforce_expected: Seq<char>,
    pub enforce_observed: Seq<char>,
    pub event_expected: Seq<char>,
    pub event_observed: Seq<char>,
    pub report_confirmed: Option<bool>,
    pub rule_id: Option<i64>,
    pub detail: Seq<char>,
}

impl View for CaseResult {
    type V = CaseResultView;

    open spec fn view(&self) -> CaseResultView {
        CaseResultView {
            id: self.id@,
            group: self.group@,
            bundle: self.bundle@,
            result: self.result@,
            enforce_expected: self.enforce_expected@,
            enforce_observed: self.enforce_observed@,
            event_expected: self.event_expected@,
            event_observed: self.event_observed@,
            report_confirmed: self.report_confirmed,
            rule_id: self.rule_id,
            detail: self.detail@,
        }
    }
}

/// The name of a bundle in reports.
pub open spec fn bundle_text(b: Bundle) -> Seq<char> {
    match b {
        Bundle::IngressTuple => "ingress_tuple"@,
        Bundle::DefaultDeny => "default_deny"@,
        Bundle::DefaultAllow => "default_allow"@,
        Bundle::EgressTuple => "egress_tuple"@,
        Bundle::AppDeny => "app_deny"@,
        Bundle::AppAllow => "app_allow"@,
        Bundle::MatchFields => "match_fields"@,
        Bundle::Detection => "detection"@,
        Bundle::Traffic => "traffic"@,
        Bundle::Priority => "priority"@,
    }
}

/// The name of a bundle in reports.
pub fn bundle_name(bundle: Bundle) -> (s: &'static str)
    ensures
        s@ == bundle_text(bundle),
{
    match bundle {
        Bundle::IngressTuple => "ingress_tuple",
        Bundle::DefaultDeny => "default_deny",
        Bundle::DefaultAllow => "default_allow",
        Bundle::EgressTuple => "egress_tuple",
        Bundle::AppDeny => "app_deny",
        Bundle::AppAllow => "app_allow",
        Bundle::MatchFields => "match_fields",
        Bundle::Detection => "detection",
        Bundle::Traffic => "traffic",
        Bundle::Priority => "priority",
    }
}

/// The name of an enforcement outcome; also the traffic verdict that meets it.
pub open spec fn enforce_text(e: Enforce) -> Seq<char> {
    match e {
        Enforce::Blocked => "blocked"@,
        Enforce::Allowed => "allowed"@,
        Enforce::Sent => "sent"@,
        Enforce::Refused => "refused"@,
    }
}

/// The name of an enforcement outcome.
pub fn enforce_str(enforce: Enforce) -> (s: &'static str)
    ensures
        s@ == enforce_text(enforce),
{
    match enforce {
        Enforce::Blocked => "blocked",
        Enforce::Allowed => "allowed",
        Enforce::Sent => "sent",
        Enforce::Refused => "refused",
    }
}

/// `kind/action/proto` of an expected event.
pub open spec fn expect_text(e: ExpectEventView) -> Seq<char> {
    e.kind + "/"@ + e.action + "/"@ + e.proto
}

/// `kind/action/proto` of an expected event.
pub fn describe_expect(expect: &ExpectEvent) -> (s: String)
    ensures
        s@ == expect_text(expect@),
{
    let mut s = expect.kind.to_string();
    push_str(&mut s, "/");
    push_str(&mut s, expect.action);
    push_str(&mut s, "/");
    push_str(&mut s, expect.proto);
    s
}

/// The result a case starts from: its identity and expectations, the given
/// status and detail, nothing observed yet.
pub open spec fn base_result(case: FwCaseView, status: Seq<char>, detail: Seq<char>) -> CaseResultView {
    CaseResultView {
        id: case.id,
        group: group_name(case.group),
        bundle: bundle_text(case.bundle),
        result: status,
        enforce_expected: enforce_text(case.expect_enforce),
        enforce_observed: Seq::empty(),
        event_expected: match case.expect_event {
            Some(e) => expect_text(e),
            None => "none"@,
        },
        event_observed: Seq::empty(),
        report_confirmed: None,
        rule_id: match case.expect_event {
            Some(e) => e.rule_id,
            None => None,
        },
        detail,
    }
}

/// The result of `case` with `status` and `detail` and nothing observed.
pub fn result(case: &FwCase, status: &str, detail: String) -> (r: CaseResult)
    ensures
        r@ == base_result(case@, status@, detail@),
{
    let event_expected = match &case.expect_event {
        Some(e) => describe_expect(e),
        None => "none".to_string(),
    };
    let rule_id = match &case.expect_event {
        Some(e) => e.rule_id,
        None => None,
    };
    CaseResult {
        id: case.id.to_string(),
        group: case.group.as_str().to_string(),
        bundle: bundle_name(case.bundle).to_string(),
        result: status.to_string(),
        enforce_expected: enforce_str(case.expect_enforce).to_string(),
        enforce_observed: String::new(),
        event_expected,
        event_observed: String::new(),
        report_confirmed: None,
        rule_id,
        detail,
    }
}

/// `text` followed by `more`.
fn concat(text: &str, more: &str) -> (s: String)
    ensures
        s@ == text@ + more@,
{
    let mut s = text.to_string();
    push_str(&mut s, more);
    s
}

/// The source address, destination address and target of traffic from
/// `origin`.
pub open spec fn flow_of(cfg: RunConfig, origin: Side) -> (Seq<char>, Seq<char>, IpAddr) {
    match origin {
        Side::Peer => (ip_text(cfg.peer_ip), ip_text(cfg.target_ip), cfg.target_ip),
        Side::Target => (ip_text(cfg.target_ip), ip_text(cfg.peer_ip), cfg.peer_ip),
    }
}

fn copy_ip(ip: &IpAddr) -> (r: IpAddr)
    ensures
        r == *ip,
{
    match ip {
        IpAddr::V4(o) => IpAddr::V4(*o),
        IpAddr::V6(t) => IpAddr::V6(t.clone()),
    }
}

/// (`src_ip`, `dst_ip`, `to`) for traffic originating from `origin`.
pub fn flow(cfg: &RunConfig, origin: Side) -> (r: (String, String, IpAddr))
    ensures
        r.0@ == flow_of(*cfg, origin).0,
        r.1@ == flow_of(*cfg, origin).1,
        r.2 == flow_of(*cfg, origin).2,
{
    match origin {
        Side::Peer => (cfg.peer_ip.to_text(), cfg.target_ip.to_text(), copy_ip(&cfg.target_ip)),
        Side::Target => (cfg.target_ip.to_text(), cfg.peer_ip.to_text(), copy_ip(&cfg.peer_ip)),
    }
}

/// The worker request of a case: TCP to `to`, one attempt, 1500 ms timeout,
/// no spacing, no reply awaited, from the case's source port; the kind of
/// traffic adjusts protocol, ports, count and timeout.
pub open spec fn cmd_for(cmd: TrafficCmd, traffic: TrafficKindView, sport: Option<u16>, to: IpAddr) -> bool {
    &&& cmd.to == to
    &&& cmd.sport == sport
    &&& cmd.interval_ms == 0
    &&& !cmd.icmp_timestamp
    &&& match traffic {
        TrafficKindView::Tcp { dport } => cmd.proto@ == "tcp"@ && cmd.dport == Some(dport)
            && cmd.dports is None && cmd.count == 1 && cmd.timeout_ms == 1500 && !cmd.await_reply
            && !cmd.fin_only,
        TrafficKindView::Icmp => cmd.proto@ == "icmp"@ && cmd.dport is None && cmd.dports is None
            && cmd.count == 1 && cmd.timeout_ms == 1500 && !cmd.await_reply && !cmd.fin_only,
        TrafficKindView::Udp { dport, await_reply } => cmd.proto@ == "udp"@ && cmd.dport == Some(
            dport,
        ) && cmd.dports is None && cmd.count == 1 && cmd.timeout_ms == 1500 && cmd.await_reply
            == await_reply && !cmd.fin_only,
        TrafficKindView::TcpScan { dports } => cmd.proto@ == "tcp"@ && cmd.dport is None && (
        cmd.dports matches Some(v) && v@ == dports) && cmd.count == 1 && cmd.timeout_ms == 250
            && !cmd.await_reply && !cmd.fin_only,
        TrafficKindView::UdpScan { dports } => cmd.proto@ == "udp"@ && cmd.dport is None && (
        cmd.dports matches Some(v) && v@ == dports) && cmd.count == 1 && cmd.timeout_ms == 250
            && !cmd.await_reply && !cmd.fin_only,
        TrafficKindView::TcpFinScan { dports } => cmd.proto@ == "tcp"@ && cmd.dport is None && (
        cmd.dports matches Some(v) && v@ == dports) && cmd.count == 1 && cmd.timeout_ms == 250
            && !cmd.await_reply && cmd.fin_only,
        TrafficKindView::TcpBurst { dport, count } => cmd.proto@ == "tcp"@ && cmd.dport == Some(
            dport,
        ) && cmd.dports is None && cmd.count == count && cmd.timeout_ms == 200 && !cmd.await_reply
            && !cmd.fin_only,
        TrafficKindView::UdpVolume { dport, count } => cmd.proto@ == "udp"@ && cmd.dport == Some(
            dport,
        ) && cmd.dports is None && cmd.count == count && cmd.timeout_ms == 200 && !cmd.await_reply
            && !cmd.fin_only,
    }
}

fn copy_ports(v: &Vec<u16>) -> (r: Vec<u16>)
    ensures
        r@ == v@,
{
    let mut r: Vec<u16> = Vec::new();
    let mut i: usize = 0;
    while i < v.len()
        invariant
            i <= v.len(),
            r@ == v@.take(i as int),
        decreases v.len() - i,
    {
        r.push(v[i]);
        assert(r@ =~= v@.take(i + 1));
        i = i + 1;
    }
    assert(v@.take(v.len() as int) =~= v@);
    r
}

/// The worker request that drives `case` towards `to`.
pub fn build_cmd(case: &FwCase, to: IpAddr) -> (cmd: TrafficCmd)
    ensures
        cmd_for(cmd, case.traffic@, case.sport, to),
{
    let sport = case.sport;
    match &case.traffic {
        TrafficKind::Tcp { dport } => TrafficCmd {
            proto: "tcp",
            to,
            dport: Some(*dport),
            dports: None,
            sport,
            count: 1,
            timeout_ms: 1500,
            interval_ms: 0,
            await_reply: false,
            fin_only: false,
            icmp_timestamp: false,
        },
        TrafficKind::Icmp => TrafficCmd {
            proto: "icmp",
            to,
            dport: None,
            dports: None,
            sport,
            count: 1,
            timeout_ms: 1500,
            interval_ms: 0,
            await_reply: false,
            fin_only: false,
            icmp_timestamp: false,
        },
        TrafficKind::Udp { dport, await_reply } => TrafficCmd {
            proto: "udp",
            to,
            dport: Some(*dport),
            dports: None,
            sport,
            count: 1,
            timeout_ms: 1500,
            interval_ms: 0,
            await_reply: *await_reply,
            fin_only: false,
            icmp_timestamp: false,
        },
        TrafficKind::TcpScan { dports } => TrafficCmd {
            proto: "tcp",
            to,
            dport: None,
            dports: Some(copy_ports(dports)),
            sport,
            count: 1,
            timeout_ms: 250,
            interval_ms: 0,
            await_reply: false,
            fin_only: false,
            icmp_timestamp: false,
        },
        TrafficKind::UdpScan { dports } => TrafficCmd {
            proto: "udp",
            to,
            dport: None,
            dports: Some(copy_ports(dports)),
            sport,
            count: 1,
            timeout_ms: 250,
            interval_ms: 0,
            await_reply: false,
            fin_only: false,
            icmp_timestamp: false,
        },
        TrafficKind::TcpFinScan { dports } => TrafficCmd {
            proto: "tcp",
            to,
            dport: None,
            dports: Some(copy_ports(dports)),
            sport,
            count: 1,
            timeout_ms: 250,
            interval_ms: 0,
            await_reply: false,
            fin_only: true,
            icmp_timestamp: false,
        },
        TrafficKind::TcpBurst { dport, count } => TrafficCmd {
            proto: "tcp",
            to,
            dport: Some(*dport),
            dports: None,
            sport,
            count: *count,
            timeout_ms: 200,
            interval_ms: 0,
            await_reply: false,
            fin_only: false,
            icmp_timestamp: false,
        },
        TrafficKind::UdpVolume { dport, count } => TrafficCmd {
            proto: "udp",
            to,
            dport: Some(*dport),
            dports: None,
            sport,
            count: *count,
            timeout_ms: 200,
            interval_ms: 0,
            await_reply: false,
            fin_only: false,
            icmp_timestamp: false,
        },
    }
}

/// The single destination port a case's traffic goes to, if it has one.
pub open spec fn dport_of(traffic: TrafficKindView) -> Option<i64> {
    match traffic {
        TrafficKindView::Tcp { dport } => Some(dport as i64),
        TrafficKindView::Udp { dport, .. } => Some(dport as i64),
        TrafficKindView::TcpBurst { dport, .. } => Some(dport as i64),
        TrafficKindView::UdpVolume { dport, .. } => Some(dport as i64),
        _ => None,
    }
}

/// The single destination port a case's traffic goes to, if it has one.
pub fn case_dport(case: &FwCase) -> (r: Option<i64>)
    ensures
        r == dport_of(case.traffic@),
{
    match &case.traffic {
        TrafficKind::Tcp { dport } => Some(*dport as i64),
        TrafficKind::Udp { dport, .. } => Some(*dport as i64),
        TrafficKind::TcpBurst { dport, .. } => Some(*dport as i64),
        TrafficKind::UdpVolume { dport, .. } => Some(*dport as i64),
        _ => None,
    }
}

/// Whether `ev` is the event `expect` describes for a flow from `src` to
/// `dst`: same kind, action and protocol; from `src` unless the kind is
/// `PolicyDeny` (whose tuple may be incomplete); to `dst` on the expected
/// port when one is given; with the expected detail when one is given.
pub open spec fn event_fits(ev: FwEvent, expect: ExpectEventView, src: Seq<char>, dst: Seq<char>) -> bool {
    &&& ev.event_type@ == expect.kind
    &&& ev.action@ == expect.action
    &&& ev.proto@ == expect.proto
    &&& (expect.kind != "PolicyDeny"@ ==> ev.src_ip@ == src)
    &&& match expect.match_dport {
        Some(p) => ev.dst_port == p as i64 && ev.dst_ip@ == dst,
        None => true,
    }
    &&& match expect.detail {
        Some(d) => ev.detail@ == d,
        None => true,
    }
}

/// Whether `ev` is the event `expect` describes for `case`'s flow.
pub fn event_matches(cfg: &RunConfig, case: &FwCase, ev: &FwEvent, expect: &ExpectEvent) -> (r: bool)
    ensures
        r == event_fits(*ev, expect@, flow_of(*cfg, case.origin).0, flow_of(*cfg, case.origin).1),
{
    if !str_eq(ev.event_type.as_str(), expect.kind) || !str_eq(ev.action.as_str(), expect.action)
        || !str_eq(ev.proto.as_str(), expect.proto) {
        return false;
    }
    let (src, dst, _to) = flow(cfg, case.origin);
    if !str_eq(expect.kind, "PolicyDeny") && !str_eq(ev.src_ip.as_str(), src.as_str()) {
        return false;
    }
    if let Some(dport) = expect.match_dport {
        if ev.dst_port != dport as i64 || !str_eq(ev.dst_ip.as_str(), dst.as_str()) {
            return false;
        }
    }
    if let Some(want) = expect.detail {
        if !str_eq(ev.detail.as_str(), want) {
            return false;
        }
    }
    true
}

/// Whether an event breaks a no-event expectation: it comes from `src` and
/// goes to the case's port (a case with no single port has none that can).
pub open spec fn event_violates(ev: FwEvent, src: Seq<char>, dport: Option<i64>) -> bool {
    ev.src_ip@ == src && match dport {
        Some(d) => ev.dst_port == d,
        None => false,
    }
}

/// Whether the worker's verdict meets the expected enforcement.
pub fn enforce_met(expect: Enforce, verdict: &str) -> (r: bool)
    ensures
        r == (verdict@ == enforce_text(expect)),
{
    str_eq(verdict, enforce_str(expect))
}


/// The index of the first event that `p` holds of.
pub open spec fn first_where(s: Seq<FwEvent>, p: spec_fn(FwEvent) -> bool) -> Option<int>
    decreases s.len(),
{
    if s.len() == 0 {
        None
    } else if p(s[0]) {
        Some(0)
    } else {
        match first_where(s.drop_first(), p) {
            Some(i) => Some(i + 1),
            None => None,
        }
    }
}

proof fn lemma_first_where(s: Seq<FwEvent>, p: spec_fn(FwEvent) -> bool, i: int)
    requires
        0 <= i <= s.len(),
        forall|k: int| 0 <= k < i ==> !p(#[trigger] s[k]),
    ensures
        i < s.len() && p(s[i]) ==> first_where(s, p) == Some(i),
        i == s.len() ==> first_where(s, p) is None,
    decreases s.len(),
{
    if s.len() > 0 {
        if i > 0 {
            assert forall|k: int| 0 <= k < i - 1 implies !p(#[trigger] s.drop_first()[k]) by {
                assert(s.drop_first()[k] == s[k + 1]);
            }
            lemma_first_where(s.drop_first(), p, i - 1);
        }
    }
}

/// The expected event's fit for `case`'s flow.
pub open spec fn fits_case(cfg: RunConfig, case: FwCase, expect: ExpectEventView) -> spec_fn(FwEvent) -> bool {
    |ev: FwEvent| event_fits(ev, expect, flow_of(cfg, case.origin).0, flow_of(cfg, case.origin).1)
}

/// The violation test of a no-event expectation for `case`'s flow.
pub open spec fn violates_case(cfg: RunConfig, case: FwCase) -> spec_fn(FwEvent) -> bool {
    |ev: FwEvent| event_violates(ev, flow_of(cfg, case.origin).0, dport_of(case.traffic@))
}

/// The note a rule id mismatch between the expected and the matched event
/// leaves, if both are known and differ.
pub open spec fn rule_note(want: Option<i64>, got: Option<i64>) -> Seq<Seq<char>> {
    match (want, got) {
        (Some(w), Some(g)) => if w != g {
            seq!["rule_id expected "@ + int_dec(w as int) + " got "@ + int_dec(g as int)]
        } else {
            Seq::empty()
        },
        _ => Seq::empty(),
    }
}

/// Whether an event's rule id agrees with the expected one: they are equal
/// wherever both are known.
pub open spec fn rule_ids_agree(want: Option<i64>, got: Option<i64>) -> bool {
    match (want, got) {
        (Some(w), Some(g)) => w == g,
        _ => true,
    }
}

/// What the events after a case's traffic say of its detection expectation.
pub struct Detection {
    /// Whether the expectation is met.
    pub event_ok: bool,
    /// The index of the expected event, when one was expected and found.
    pub matched: Option<usize>,
    /// What was observed, for the report.
    pub observed: String,
    /// Notes for the report's detail.
    pub notes: Vec<String>,
}

/// The views of a vector of strings.
pub open spec fn texts(v: Seq<String>) -> Seq<Seq<char>> {
    v.map_values(|s: String| s@)
}

/// The detection judgement: whether the expectation is met, the index of
/// the expected event found, what was observed and the notes. With an
/// expected event, the first event that fits it meets the expectation when
/// its rule id agrees with the expected one (a differing rule id is noted
/// and fails it); with none expected, the first event from the case's
/// source to its port breaks it.
pub open spec fn detection_of(cfg: RunConfig, case: FwCase, events: Seq<FwEvent>) -> (bool, Option<int>, Seq<char>, Seq<Seq<char>>) {
    match case.expect_event {
        Some(e) => match first_where(events, fits_case(cfg, case, e@)) {
            Some(i) => (
                rule_ids_agree(e.rule_id, events[i].rule_id),
                Some(i),
                events[i].event_type@ + "/"@ + events[i].action@ + "/"@ + events[i].proto@,
                rule_note(e.rule_id, events[i].rule_id),
            ),
            None => (false, None, "none"@, Seq::empty()),
        },
        None => match first_where(events, violates_case(cfg, case)) {
            Some(i) => (
                false,
                None,
                "unexpected "@ + events[i].event_type@ + "/"@ + events[i].action@,
                Seq::empty(),
            ),
            None => (true, None, "none"@, Seq::empty()),
        },
    }
}

/// Whether `d` is the detection judgement of `events` for `case`.
pub open spec fn detected(cfg: RunConfig, case: FwCase, events: Seq<FwEvent>, d: Detection) -> bool {
    detection_of(cfg, case, events) == (
        d.event_ok,
        match d.matched {
            Some(u) => Some(u as int),
            None => None,
        },
        d.observed@,
        texts(d.notes@),
    )
}

fn rule_notes(want: Option<i64>, got: Option<i64>) -> (v: Vec<String>)
    ensures
        texts(v@) == rule_note(want, got),
{
    let mut v: Vec<String> = Vec::new();
    if let (Some(w), Some(g)) = (want, got) {
        if w != g {
            let mut s = "rule_id expected ".to_string();
            push_int(&mut s, w);
            push_str(&mut s, " got ");
            push_int(&mut s, g);
            v.push(s);
            assert(texts(v@) =~= rule_note(want, got));
        }
    }
    assert(texts(v@) =~= rule_note(want, got));
    v
}

/// Judge a case's detection expectation against the events read after its
/// traffic.
pub fn detect(cfg: &RunConfig, case: &FwCase, events: &Vec<FwEvent>) -> (d: Detection)
    ensures
        detected(*cfg, *case, events@, d),
        d.matched matches Some(i) ==> i < events@.len(),
{
    match &case.expect_event {
        Some(expect) => {
            let ghost p = fits_case(*cfg, *case, expect@);
            let mut i: usize = 0;
            while i < events.len()
                invariant
                    i <= events.len(),
                    p == fits_case(*cfg, *case, expect@),
                    case.expect_event == Some(*expect),
                    forall|k: int| 0 <= k < i ==> !p(#[trigger] events@[k]),
                decreases events.len() - i,
            {
                if event_matches(cfg, case, &events[i], expect) {
                    proof {
                        lemma_first_where(events@, p, i as int);
                    }
                    let ev = &events[i];
                    let mut observed = ev.event_type.clone();
                    push_str(&mut observed, "/");
                    push_str(&mut observed, ev.action.as_str());
                    push_str(&mut observed, "/");
                    push_str(&mut observed, ev.proto.as_str());
                    let notes = rule_notes(expect.rule_id, ev.rule_id);
                    let agree = match (expect.rule_id, ev.rule_id) {
                        (Some(w), Some(g)) => w == g,
                        _ => true,
                    };
                    return Detection { event_ok: agree, matched: Some(i), observed, notes };
                }
                i = i + 1;
            }
            proof {
                lemma_first_where(events@, p, i as int);
            }
            let notes: Vec<String> = Vec::new();
            assert(texts(notes@) =~= Seq::<Seq<char>>::empty());
            Detection { event_ok: false, matched: None, observed: "none".to_string(), notes }
        },
        None => {
            let (src, _dst, _to) = flow(cfg, case.origin);
            let dport = case_dport(case);
            let ghost p = violates_case(*cfg, *case);
            let mut i: usize = 0;
            while i < events.len()
                invariant
                    i <= events.len(),
                    p == violates_case(*cfg, *case),
                    case.expect_event is None,
                    src@ == flow_of(*cfg, case.origin).0,
                    dport == dport_of(case.traffic@),
                    forall|k: int| 0 <= k < i ==> !p(#[trigger] events@[k]),
                decreases events.len() - i,
            {
                let ev = &events[i];
                let hit = match dport {
                    Some(d) => str_eq(ev.src_ip.as_str(), src.as_str()) && ev.dst_port == d,
                    None => false,
                };
                assert(hit == p(events@[i as int]));
                if hit {
                    proof {
                        lemma_first_where(events@, p, i as int);
                    }
                    let mut observed = "unexpected ".to_string();
                    push_str(&mut observed, ev.event_type.as_str());
                    push_str(&mut observed, "/");
                    push_str(&mut observed, ev.action.as_str());
                    let notes: Vec<String> = Vec::new();
                    assert(texts(notes@) =~= Seq::<Seq<char>>::empty());
                    return Detection { event_ok: false, matched: None, observed, notes };
                }
                i = i + 1;
            }
            proof {
                lemma_first_where(events@, p, i as int);
            }
            let notes: Vec<String> = Vec::new();
            assert(texts(notes@) =~= Seq::<Seq<char>>::empty());
            Detection { event_ok: true, matched: None, observed: "none".to_string(), notes }
        },
    }
}

/// The notes a failed case adds after all others: the enforcement and the
/// detection it missed.
pub open spec fn failure_notes(enforce_ok: bool, event_ok: bool, expect: Enforce, verdict: Seq<char>) -> Seq<Seq<char>> {
    (if !enforce_ok {
        seq!["enforce expected "@ + enforce_text(expect) + " got "@ + verdict]
    } else {
        Seq::empty()
    }) + (if !event_ok {
        seq!["event expectation not met"@]
    } else {
        Seq::empty()
    })
}

/// Whether a case passes: enforcement and detection met, and the report
/// not found unconfirmed.
pub open spec fn passes(enforce_ok: bool, event_ok: bool, confirmed: Option<bool>) -> bool {
    enforce_ok && event_ok && confirmed != Some(false)
}

/// The final result of a flow case: PASS or FAIL by `passes`, the worker's
/// verdict and the observed event, and the notes joined by `; `.
pub open spec fn concluded(
    case: FwCaseView,
    verdict: Seq<char>,
    event_ok: bool,
    observed: Seq<char>,
    confirmed: Option<bool>,
    notes: Seq<Seq<char>>,
) -> CaseResultView {
    let enforce_ok = verdict == enforce_text(case.expect_enforce);
    let pass = passes(enforce_ok, event_ok, confirmed);
    let all = if pass {
        notes
    } else {
        notes + failure_notes(enforce_ok, event_ok, case.expect_enforce, verdict)
    };
    let b = base_result(case, if pass { "PASS"@ } else { "FAIL"@ }, crate::text::join(all, "; "@));
    CaseResultView {
        id: b.id,
        group: b.group,
        bundle: b.bundle,
        result: b.result,
        enforce_expected: b.enforce_expected,
        enforce_observed: verdict,
        event_expected: b.event_expected,
        event_observed: observed,
        report_confirmed: confirmed,
        rule_id: b.rule_id,
        detail: b.detail,
    }
}

/// The final result of a flow case from the worker's verdict, the detection
/// judgement, the report confirmation and the notes gathered on the way.
pub fn conclude(
    case: &FwCase,
    verdict: &str,
    event_ok: bool,
    observed: &str,
    confirmed: Option<bool>,
    notes: Vec<String>,
) -> (r: CaseResult)
    ensures
        r@ == concluded(case@, verdict@, event_ok, observed@, confirmed, texts(notes@)),
{
    let enforce_ok = enforce_met(case.expect_enforce, verdict);
    let pass = enforce_ok && event_ok && confirmed != Some(false);
    let mut all = notes;
    let ghost start = texts(all@);
    if !pass {
        if !enforce_ok {
            let mut s = "enforce expected ".to_string();
            push_str(&mut s, enforce_str(case.expect_enforce));
            push_str(&mut s, " got ");
            push_str(&mut s, verdict);
            all.push(s);
        }
        if !event_ok {
            all.push("event expectation not met".to_string());
        }
        assert(texts(all@) =~= start + failure_notes(
            enforce_ok,
            event_ok,
            case.expect_enforce,
            verdict@,
        ));
    }
    let detail = crate::text::join_strings(&all, "; ");
    assert(all@.map_values(|p: String| p@) == texts(all@));
    let mut r = result(case, if pass { "PASS" } else { "FAIL" }, detail);
    r.enforce_observed = verdict.to_string();
    r.event_observed = observed.to_string();
    r.report_confirmed = confirmed;
    r
}

/// The note the server log leaves: `found` when it mentions a received
/// report, `absent` when not, `unavailable` when it could not be read.
pub open spec fn server_log_text(log: Option<Seq<char>>) -> Seq<char> {
    match log {
        Some(l) => if crate::text::contains(l, "received report"@) {
            "server-log:found"@
        } else {
            "server-log:absent"@
        },
        None => "server-log:unavailable"@,
    }
}

/// The note the server log leaves.
pub fn server_log_note(log: &Option<String>) -> (s: String)
    ensures
        s@ == server_log_text(match log {
            Some(l) => Some(l@),
            None => None,
        }),
{
    match log {
        Some(l) => if crate::text::str_contains(l.as_str(), "received report") {
            "server-log:found".to_string()
        } else {
            "server-log:absent".to_string()
        },
        None => "server-log:unavailable".to_string(),
    }
}

/// The note the VSOC query leaves: whether the dashboard's events mention
/// the device, or the error met.
pub open spec fn vsoc_text(reply: Result<bool, Seq<char>>) -> Seq<char> {
    match reply {
        Ok(true) => "vsoc:found"@,
        Ok(false) => "vsoc:absent"@,
        Err(m) => "vsoc:error("@ + m + ")"@,
    }
}

/// The note the VSOC query leaves.
pub fn vsoc_note(reply: &Result<bool, String>) -> (s: String)
    ensures
        s@ == vsoc_text(match reply {
            Ok(b) => Ok(*b),
            Err(m) => Err(m@),
        }),
{
    match reply {
        Ok(true) => "vsoc:found".to_string(),
        Ok(false) => "vsoc:absent".to_string(),
        Err(m) => {
            let mut s = "vsoc:error(".to_string();
            push_str(&mut s, m.as_str());
            push_str(&mut s, ")");
            s
        },
    }
}

/// Whether the event `event_id` is among `events` with report state `sent`:
/// idps-fw delivered it to idps-server.
pub open spec fn reported_sent(events: Seq<FwEvent>, event_id: Seq<char>) -> bool {
    exists|i: int| 0 <= i < events.len() && #[trigger] events[i].event_id@ == event_id
        && events[i].report_state@ == "sent"@
}

/// Whether the event `event_id` is among `events` with report state `sent`.
pub fn event_sent(events: &Vec<FwEvent>, event_id: &str) -> (r: bool)
    ensures
        r == reported_sent(events@, event_id@),
{
    let mut i: usize = 0;
    while i < events.len()
        invariant
            i <= events.len(),
            forall|k: int| 0 <= k < i ==> !(#[trigger] events@[k].event_id@ == event_id@
                && events@[k].report_state@ == "sent"@),
        decreases events.len() - i,
    {
        if str_eq(events[i].event_id.as_str(), event_id) && str_eq(events[i].report_state.as_str(), "sent") {
            return true;
        }
        i = i + 1;
    }
    false
}


/// A statistics counter, `0` when the snapshot lacks it.
pub open spec fn stat(o: Option<i64>) -> i64 {
    match o {
        Some(x) => x,
        None => 0,
    }
}

fn stat_of(o: Option<i64>) -> (x: i64)
    ensures
        x == stat(o),
{
    match o {
        Some(x) => x,
        None => 0,
    }
}

/// The result of a traffic-statistics case: the per-app case wants the
/// egress bytes and the app traffic windows to grow between the snapshots,
/// the others the ingress bytes and the global windows; the detail gives
/// both growths.
pub open spec fn traffic_judged(case: FwCaseView, before: StatsSnapshot, after: StatsSnapshot) -> CaseResultView {
    let per_app = case.id == "traffic-per-app"@;
    let (b1, a1, b2, a2) = if per_app {
        (
            stat(before.egress_bytes),
            stat(after.egress_bytes),
            stat(before.app_traffic_windows),
            stat(after.app_traffic_windows),
        )
    } else {
        (
            stat(before.ingress_bytes),
            stat(after.ingress_bytes),
            stat(before.global_traffic_windows),
            stat(after.global_traffic_windows),
        )
    };
    let ok = a1 > b1 && a2 > b2;
    let detail = if per_app {
        "egress_bytes +"@ + int_dec(a1 - b1) + ", app_windows +"@ + int_dec(a2 - b2)
    } else {
        "ingress_bytes +"@ + int_dec(a1 - b1) + ", global_windows +"@ + int_dec(a2 - b2)
    };
    let b = base_result(case, if ok { "PASS"@ } else { "FAIL"@ }, detail);
    CaseResultView {
        id: b.id,
        group: b.group,
        bundle: b.bundle,
        result: b.result,
        enforce_expected: b.enforce_expected,
        enforce_observed: "allowed"@,
        event_expected: b.event_expected,
        event_observed: detail,
        report_confirmed: None,
        rule_id: b.rule_id,
        detail,
    }
}

/// Judge a traffic-statistics case from the snapshots taken before its
/// traffic and after a traffic window closed.
pub fn judge_traffic(case: &FwCase, before: &StatsSnapshot, after: &StatsSnapshot) -> (r: CaseResult)
    ensures
        r@ == traffic_judged(case@, *before, *after),
{
    let per_app = str_eq(case.id, "traffic-per-app");
    let (b1, a1, b2, a2) = if per_app {
        (
            stat_of(before.egress_bytes),
            stat_of(after.egress_bytes),
            stat_of(before.app_traffic_windows),
            stat_of(after.app_traffic_windows),
        )
    } else {
        (
            stat_of(before.ingress_bytes),
            stat_of(after.ingress_bytes),
            stat_of(before.global_traffic_windows),
            stat_of(after.global_traffic_windows),
        )
    };
    let ok = a1 > b1 && a2 > b2;
    let mut detail = if per_app {
        "egress_bytes +".to_string()
    } else {
        "ingress_bytes +".to_string()
    };
    push_diff(&mut detail, a1, b1);
    push_str(&mut detail, if per_app { ", app_windows +" } else { ", global_windows +" });
    push_diff(&mut detail, a2, b2);
    let mut r = result(case, if ok { "PASS" } else { "FAIL" }, detail.clone());
    r.enforce_observed = "allowed".to_string();
    r.event_observed = detail;
    r
}


/// Whether a case is run when running `group` (every case when `None`).
pub open spec fn kept(c: FwCaseView, group: Option<Group>) -> bool {
    match group {
        Some(g) => c.group == g,
        None => true,
    }
}

/// Membership of a case in the batch of bundle `b` when running `group`.
pub open spec fn in_batch(b: Bundle, group: Option<Group>) -> spec_fn(FwCaseView) -> bool {
    |c: FwCaseView| c.bundle == b && kept(c, group)
}

/// The batches of a run over `bundles`, in order: each bundle with the
/// catalog's cases (in catalog order) that belong to it and are run;
/// bundles with no such case are left out.
pub open spec fn batch_plan_of(bundles: Seq<Bundle>, group: Option<Group>) -> Seq<(Bundle, Seq<FwCaseView>)>
    decreases bundles.len(),
{
    if bundles.len() == 0 {
        Seq::empty()
    } else {
        let prev = batch_plan_of(bundles.drop_last(), group);
        let members = crate::catalog::catalog().filter(in_batch(bundles.last(), group));
        if members.len() > 0 {
            prev.push((bundles.last(), members))
        } else {
            prev
        }
    }
}

/// The batches of a run of `group` (of everything when `None`), in the
/// bundle provisioning order.
pub open spec fn batch_plan(group: Option<Group>) -> Seq<(Bundle, Seq<FwCaseView>)> {
    batch_plan_of(crate::catalog::bundle_sequence(), group)
}

/// A bundle to provision and the cases to run under it.
pub struct Batch {
    pub bundle: Bundle,
    pub cases: Vec<FwCase>,
}

/// The mathematical value of a list of batches.
pub open spec fn batches_view(v: Seq<Batch>) -> Seq<(Bundle, Seq<FwCaseView>)> {
    v.map_values(|b: Batch| (b.bundle, crate::catalog::cases_view(b.cases@)))
}

fn keeps(g: Group, group: Option<Group>) -> (r: bool)
    ensures
        r == match group {
            Some(x) => g == x,
            None => true,
        },
{
    match group {
        Some(x) => g == x,
        None => true,
    }
}

/// The batches of a run of `group` (of the whole catalog when `None`):
/// bundles in provisioning order, each with its cases that are run, empty
/// bundles left out.
pub fn batches(group: Option<Group>) -> (r: Vec<Batch>)
    ensures
        batches_view(r@) == batch_plan(group),
{
    let cases = crate::catalog::all_cases();
    let order = crate::catalog::bundle_order();
    let mut out: Vec<Batch> = Vec::new();
    let mut j: usize = 0;
    assert(order@.take(0) =~= Seq::<Bundle>::empty());
    while j < order.len()
        invariant
            j <= order.len(),
            order@ == crate::catalog::bundle_sequence(),
            crate::catalog::cases_view(cases@) == crate::catalog::catalog(),
            batches_view(out@) == batch_plan_of(order@.take(j as int), group),
        decreases order.len() - j,
    {
        let b = order[j];
        let ghost p = in_batch(b, group);
        let ghost all = crate::catalog::cases_view(cases@);
        let mut members: Vec<FwCase> = Vec::new();
        let mut i: usize = 0;
        proof {
            reveal_with_fuel(Seq::filter, 1);
            assert(all.take(0) =~= Seq::<FwCaseView>::empty());
            assert(crate::catalog::cases_view(members@) =~= Seq::<FwCaseView>::empty());
        }
        while i < cases.len()
            invariant
                i <= cases.len(),
                p == in_batch(b, group),
                all == crate::catalog::cases_view(cases@),
                crate::catalog::cases_view(members@) == all.take(i as int).filter(p),
            decreases cases.len() - i,
        {
            let c = &cases[i];
            proof {
                reveal_with_fuel(Seq::filter, 1);
                assert(all.take(i + 1).drop_last() =~= all.take(i as int));
                assert(all.take(i + 1).last() == c@);
            }
            if c.bundle == b && keeps(c.group, group) {
                let ghost before = members@;
                members.push(c.copy());
                assert(crate::catalog::cases_view(members@) =~= crate::catalog::cases_view(before).push(c@));
            }
            i = i + 1;
        }
        assert(all.take(cases.len() as int) =~= all);
        proof {
            assert(order@.take(j + 1).drop_last() =~= order@.take(j as int));
            assert(order@.take(j + 1).last() == b);
        }
        if members.len() > 0 {
            let ghost before = out@;
            out.push(Batch { bundle: b, cases: members });
            assert(batches_view(out@) =~= batches_view(before).push(
                (b, crate::catalog::catalog().filter(p)),
            ));
        }
        j = j + 1;
    }
    assert(order@.take(order.len() as int) =~= order@);
    out
}

/// The result of a case whose bundle could not be provisioned.
pub fn provision_failed(case: &FwCase, error: &str) -> (r: CaseResult)
    ensures
        r@ == base_result(case@, "FAIL"@, "provision failed: "@ + error@),
{
    result(case, "FAIL", concat("provision failed: ", error))
}

/// The result of running a case id that names no case: FAIL, with only
/// the id and the detail `unknown case id`.
pub open spec fn unknown_case_view(id: Seq<char>) -> CaseResultView {
    CaseResultView {
        id: id,
        group: Seq::empty(),
        bundle: Seq::empty(),
        result: "FAIL"@,
        enforce_expected: Seq::empty(),
        enforce_observed: Seq::empty(),
        event_expected: Seq::empty(),
        event_observed: Seq::empty(),
        report_confirmed: None,
        rule_id: None,
        detail: "unknown case id"@,
    }
}

/// The result of running a case id that names no case.
pub fn unknown_case(id: &str) -> (r: CaseResult)
    ensures
        r@ == unknown_case_view(id@),
{
    CaseResult {
        id: id.to_string(),
        group: String::new(),
        bundle: String::new(),
        result: "FAIL".to_string(),
        enforce_expected: String::new(),
        enforce_observed: String::new(),
        event_expected: String::new(),
        event_observed: String::new(),
        report_confirmed: None,
        rule_id: None,
        detail: "unknown case id".to_string(),
    }
}


/// A bundle's variant name in lowercase, as the catalog listing shows it.
pub open spec fn bundle_listing(b: Bundle) -> Seq<char> {
    match b {
        Bundle::IngressTuple => "ingresstuple"@,
        Bundle::DefaultDeny => "defaultdeny"@,
        Bundle::DefaultAllow => "defaultallow"@,
        Bundle::EgressTuple => "egresstuple"@,
        Bundle::AppDeny => "appdeny"@,
        Bundle::AppAllow => "appallow"@,
        Bundle::MatchFields => "matchfields"@,
        Bundle::Detection => "detection"@,
        Bundle::Traffic => "traffic"@,
        Bundle::Priority => "priority"@,
    }
}

/// One row of the catalog listing.
pub struct ListRow {
    pub id: String,
    pub group: String,
    pub bundle: String,
    pub enforce: String,
    pub event: String,
}

/// The catalog listing row of a case: its id, group, bundle, expected
/// enforcement, and expected event as `kind/action` (`none` when it expects
/// none).
pub fn list_row(case: &FwCase) -> (r: ListRow)
    ensures
        r.id@ == case.id@,
        r.group@ == group_name(case.group),
        r.bundle@ == bundle_listing(case.bundle),
        r.enforce@ == enforce_text(case.expect_enforce),
        r.event@ == match case.expect_event {
            Some(e) => e.kind@ + "/"@ + e.action@,
            None => "none"@,
        },
{
    let bundle = match case.bundle {
        Bundle::IngressTuple => "ingresstuple",
        Bundle::DefaultDeny => "defaultdeny",
        Bundle::DefaultAllow => "defaultallow",
        Bundle::EgressTuple => "egresstuple",
        Bundle::AppDeny => "appdeny",
        Bundle::AppAllow => "appallow",
        Bundle::MatchFields => "matchfields",
        Bundle::Detection => "detection",
        Bundle::Traffic => "traffic",
        Bundle::Priority => "priority",
    };
    let event = match &case.expect_event {
        Some(e) => {
            let mut s = e.kind.to_string();
            push_str(&mut s, "/");
            push_str(&mut s, e.action);
            s
        },
        None => "none".to_string(),
    };
    ListRow {
        id: case.id.to_string(),
        group: case.group.as_str().to_string(),
        bundle: bundle.to_string(),
        enforce: enforce_str(case.expect_enforce).to_string(),
        event,
    }
}


proof fn lemma_plan_entries(bundles: Seq<Bundle>, group: Option<Group>, j: int)
    requires
        0 <= j < batch_plan_of(bundles, group).len(),
    ensures
        batch_plan_of(bundles, group)[j].1 == crate::catalog::catalog().filter(
            in_batch(batch_plan_of(bundles, group)[j].0, group),
        ),
        batch_plan_of(bundles, group)[j].1.len() > 0,
    decreases bundles.len(),
{
    let prev = batch_plan_of(bundles.drop_last(), group);
    if j < prev.len() {
        lemma_plan_entries(bundles.drop_last(), group, j);
    }
}

proof fn lemma_plan_has(bundles: Seq<Bundle>, group: Option<Group>, b: Bundle)
    requires
        bundles.contains(b),
        crate::catalog::catalog().filter(in_batch(b, group)).len() > 0,
    ensures
        exists|j: int|
            0 <= j < batch_plan_of(bundles, group).len() && #[trigger] batch_plan_of(
                bundles,
                group,
            )[j] == (b, crate::catalog::catalog().filter(in_batch(b, group))),
    decreases bundles.len(),
{
    let prev = batch_plan_of(bundles.drop_last(), group);
    let members = crate::catalog::catalog().filter(in_batch(b, group));
    if bundles.last() == b {
        assert(batch_plan_of(bundles, group)[prev.len() as int] == (b, members));
    } else {
        let k = choose|k: int| 0 <= k < bundles.len() && bundles[k] == b;
        assert(k < bundles.len() - 1);
        assert(bundles.drop_last()[k] == b);
        lemma_plan_has(bundles.drop_last(), group, b);
        let j = choose|j: int|
            0 <= j < prev.len() && #[trigger] batch_plan_of(bundles.drop_last(), group)[j] == (
                b,
                members,
            );
        assert(batch_plan_of(bundles, group)[j] == (b, members));
    }
}

/// Running a group (or, with `None`, everything) runs every catalog case of
/// that group exactly where it belongs: some batch of the plan is for the
/// case's bundle and holds the case.
pub proof fn lemma_batches_cover(group: Option<Group>, i: int)
    requires
        0 <= i < crate::catalog::catalog().len(),
        kept(crate::catalog::catalog()[i], group),
    ensures
        exists|j: int|
            0 <= j < batch_plan(group).len() && (#[trigger] batch_plan(group)[j]).0
                == crate::catalog::catalog()[i].bundle && batch_plan(group)[j].1.contains(
                crate::catalog::catalog()[i],
            ),
{
    let all = crate::catalog::catalog();
    let c = all[i];
    let p = in_batch(c.bundle, group);
    all.filter_lemma(p);
    assert(p(all[i]));
    assert(all.filter(p).contains(c));
    crate::catalog::lemma_bundle_order_complete(c.bundle);
    lemma_plan_has(crate::catalog::bundle_sequence(), group, c.bundle);
    let j = choose|j: int|
        0 <= j < batch_plan(group).len() && #[trigger] batch_plan_of(
            crate::catalog::bundle_sequence(),
            group,
        )[j] == (c.bundle, all.filter(p));
    assert(batch_plan(group)[j].0 == c.bundle);
}

/// A batch holds only cases of its own bundle that the run keeps, and no
/// batch is empty.
pub proof fn lemma_batches_sound(group: Option<Group>, j: int, k: int)
    requires
        0 <= j < batch_plan(group).len(),
        0 <= k < batch_plan(group)[j].1.len(),
    ensures
        batch_plan(group)[j].1[k].bundle == batch_plan(group)[j].0,
        kept(batch_plan(group)[j].1[k], group),
        batch_plan(group)[j].1.len() > 0,
{
    lemma_plan_entries(crate::catalog::bundle_sequence(), group, j);
    let b = batch_plan(group)[j].0;
    crate::catalog::catalog().filter_lemma(in_batch(b, group));
    assert(in_batch(b, group)(batch_plan(group)[j].1[k]));
}


/// The position of a bundle in the provisioning order.
pub open spec fn bundle_rank(b: Bundle) -> int {
    match b {
        Bundle::IngressTuple => 0,
        Bundle::DefaultDeny => 1,
        Bundle::DefaultAllow => 2,
        Bundle::EgressTuple => 3,
        Bundle::AppDeny => 4,
        Bundle::AppAllow => 5,
        Bundle::MatchFields => 6,
        Bundle::Detection => 7,
        Bundle::Traffic => 8,
        Bundle::Priority => 9,
    }
}

proof fn lemma_plan_ranks(group: Option<Group>, m: int)
    requires
        0 <= m <= crate::catalog::bundle_sequence().len(),
    ensures
        ({
            let plan = batch_plan_of(crate::catalog::bundle_sequence().take(m), group);
            &&& forall|j: int| 0 <= j < plan.len() ==> bundle_rank(#[trigger] plan[j].0) < m
            &&& forall|j1: int, j2: int|
                0 <= j1 < j2 < plan.len() ==> bundle_rank(#[trigger] plan[j1].0) < bundle_rank(
                    #[trigger] plan[j2].0,
                )
        }),
    decreases m,
{
    let s = crate::catalog::bundle_sequence();
    if m > 0 {
        lemma_plan_ranks(group, m - 1);
        assert(s.take(m).drop_last() =~= s.take(m - 1));
        assert(s.take(m).last() == s[m - 1]);
        assert(bundle_rank(s[m - 1]) == m - 1) by {
            assert(bundle_rank(s[0]) == 0);
            assert(bundle_rank(s[1]) == 1);
            assert(bundle_rank(s[2]) == 2);
            assert(bundle_rank(s[3]) == 3);
            assert(bundle_rank(s[4]) == 4);
            assert(bundle_rank(s[5]) == 5);
            assert(bundle_rank(s[6]) == 6);
            assert(bundle_rank(s[7]) == 7);
            assert(bundle_rank(s[8]) == 8);
            assert(bundle_rank(s[9]) == 9);
        }
        let prev = batch_plan_of(s.take(m - 1), group);
        let plan = batch_plan_of(s.take(m), group);
        let members = crate::catalog::catalog().filter(in_batch(s[m - 1], group));
        if members.len() > 0 {
            assert(plan == prev.push((s[m - 1], members)));
            assert forall|j: int| 0 <= j < plan.len() implies bundle_rank(#[trigger] plan[j].0) < m by {
                if j < prev.len() {
                    assert(plan[j] == prev[j]);
                }
            }
            assert forall|j1: int, j2: int|
                0 <= j1 < j2 < plan.len() implies bundle_rank(#[trigger] plan[j1].0) < bundle_rank(
                #[trigger] plan[j2].0,
            ) by {
                assert(plan[j1] == prev[j1]);
                if j2 < prev.len() {
                    assert(plan[j2] == prev[j2]);
                } else {
                    assert(bundle_rank(prev[j1].0) < m - 1);
                }
            }
        } else {
            assert(plan == prev);
        }
    } else {
        assert(s.take(0) =~= Seq::<Bundle>::empty());
    }
}

/// The batches of a run come in the provisioning order of their bundles,
/// so no bundle is provisioned twice.
pub proof fn lemma_batches_ordered(group: Option<Group>, j1: int, j2: int)
    requires
        0 <= j1 < j2 < batch_plan(group).len(),
    ensures
        bundle_rank(batch_plan(group)[j1].0) < bundle_rank(batch_plan(group)[j2].0),
        batch_plan(group)[j1].0 != batch_plan(group)[j2].0,
{
    let s = crate::catalog::bundle_sequence();
    lemma_plan_ranks(group, s.len() as int);
    assert(s.take(s.len() as int) =~= s);
    let plan = batch_plan(group);
    assert(bundle_rank(plan[j1].0) < bundle_rank(plan[j2].0));
}

/// A case the run keeps sits in a batch exactly when the batch is for the
/// case's bundle; as no two batches share a bundle, every kept case is run
/// in exactly one batch, and a case the run does not keep in none.
pub proof fn lemma_batches_place(group: Option<Group>, i: int, j: int)
    requires
        0 <= i < crate::catalog::catalog().len(),
        0 <= j < batch_plan(group).len(),
    ensures
        batch_plan(group)[j].1.contains(crate::catalog::catalog()[i]) <==> (kept(
            crate::catalog::catalog()[i],
            group,
        ) && batch_plan(group)[j].0 == crate::catalog::catalog()[i].bundle),
{
    let all = crate::catalog::catalog();
    let c = all[i];
    lemma_plan_entries(crate::catalog::bundle_sequence(), group, j);
    let b = batch_plan(group)[j].0;
    let p = in_batch(b, group);
    all.filter_lemma(p);
    if batch_plan(group)[j].1.contains(c) {
        let k = choose|k: int| 0 <= k < batch_plan(group)[j].1.len() && batch_plan(group)[j].1[k] == c;
        assert(p(batch_plan(group)[j].1[k]));
    }
    if kept(c, group) && b == c.bundle {
        assert(p(all[i]));
        assert(all.filter(p).contains(c));
    }
}

/// A flow case passes exactly when all three hold: the worker's verdict is
/// the expected enforcement, the detection expectation is met, and the
/// expected event was not found undelivered to idps-server. Otherwise it
/// fails, and its detail names what was missed.
pub proof fn lemma_pass_iff_all_met(
    case: FwCaseView,
    verdict: Seq<char>,
    event_ok: bool,
    observed: Seq<char>,
    confirmed: Option<bool>,
    notes: Seq<Seq<char>>,
)
    ensures
        ({
            let r = concluded(case, verdict, event_ok, observed, confirmed, notes);
            let all_met = verdict == enforce_text(case.expect_enforce) && event_ok && confirmed
                != Some(false);
            &&& (r.result == "PASS"@ <==> all_met)
            &&& (!all_met ==> r.result == "FAIL"@)
            &&& r.enforce_observed == verdict
            &&& r.report_confirmed == confirmed
        }),
{
    reveal_strlit("PASS");
    reveal_strlit("FAIL");
    assert("PASS"@[0] != "FAIL"@[0]);
}

/// An event counts as the expected one only when it agrees with the
/// expectation field by field: the same kind, action and protocol; from the
/// flow's source (but for a policy deny, which carries no address); to the
/// expected port and the flow's destination when a port is expected; with
/// the expected detail when one is expected. And any such event counts.
pub proof fn lemma_expected_event_fields(ev: FwEvent, expect: ExpectEventView, src: Seq<char>, dst: Seq<char>)
    ensures
        event_fits(ev, expect, src, dst) <==> {
            &&& ev.event_type@ == expect.kind
            &&& ev.action@ == expect.action
            &&& ev.proto@ == expect.proto
            &&& (expect.kind != "PolicyDeny"@ ==> ev.src_ip@ == src)
            &&& (expect.match_dport is Some ==> ev.dst_port == expect.match_dport.unwrap() as i64
                && ev.dst_ip@ == dst)
            &&& (expect.detail is Some ==> ev.detail@ == expect.detail.unwrap())
        },
{
}

/// A case expecting an event meets its detection expectation only through
/// an event of the read ones that has the expected kind, action and
/// protocol, comes from the flow's source (a policy deny aside), and whose
/// rule id does not contradict the expected one.
pub proof fn lemma_detection_needs_expected_event(cfg: RunConfig, case: FwCase, events: Seq<FwEvent>)
    requires
        case.expect_event is Some,
        detection_of(cfg, case, events).0,
    ensures
        ({
            let e = case.expect_event.unwrap()@;
            exists|i: int|
                0 <= i < events.len() && detection_of(cfg, case, events).1 == Some(i) && #[trigger] events[i].action@
                    == e.action && events[i].event_type@ == e.kind && events[i].proto@ == e.proto
                    && (e.kind != "PolicyDeny"@ ==> events[i].src_ip@ == flow_of(cfg, case.origin).0)
                    && !(e.rule_id is Some && events[i].rule_id is Some && events[i].rule_id
                    != e.rule_id)
        }),
{
    let e = case.expect_event.unwrap()@;
    let p = fits_case(cfg, case, e);
    lemma_first_where_found(events, p);
    let i = first_where(events, p).unwrap();
    assert(p(events[i]));
    assert(events[i].action@ == e.action);
}

proof fn lemma_first_where_found(s: Seq<FwEvent>, p: spec_fn(FwEvent) -> bool)
    ensures
        first_where(s, p) matches Some(i) ==> 0 <= i < s.len() && p(s[i]),
    decreases s.len(),
{
    if s.len() > 0 && !p(s[0]) {
        lemma_first_where_found(s.drop_first(), p);
        if let Some(i) = first_where(s.drop_first(), p) {
            assert(s.drop_first()[i] == s[i + 1]);
        }
    }
}

/// A traffic-statistics case passes exactly when both of its counters grew
/// strictly between the snapshots (a missing counter reads as 0): the
/// egress bytes and the app traffic windows for `traffic-per-app`, the
/// ingress bytes and the global traffic windows for the others. Otherwise
/// it fails.
pub proof fn lemma_traffic_pass_iff_both_grew(case: FwCaseView, before: StatsSnapshot, after: StatsSnapshot)
    ensures
        ({
            let grew = if case.id == "traffic-per-app"@ {
                stat(after.egress_bytes) > stat(before.egress_bytes) && stat(after.app_traffic_windows)
                    > stat(before.app_traffic_windows)
            } else {
                stat(after.ingress_bytes) > stat(before.ingress_bytes) && stat(
                    after.global_traffic_windows,
                ) > stat(before.global_traffic_windows)
            };
            &&& traffic_judged(case, before, after).result == "PASS"@ <==> grew
            &&& traffic_judged(case, before, after).result == "FAIL"@ <==> !grew
        }),
{
    reveal_strlit("PASS");
    reveal_strlit("FAIL");
    assert("PASS"@ != "FAIL"@) by {
        assert("PASS"@[0] != "FAIL"@[0]);
    }
}

} // verus!
