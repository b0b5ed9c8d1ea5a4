//! Test-case catalog: data-driven cases grouped into provisioning bundles.

use vstd::prelude::*;

use crate::config::{slash24_of, RunConfig};
use crate::net::ip_text;
use crate::text::str_eq;

verus! {

/// Logical case group (also the `run-group` argument).
#[derive(Debug, Clone, Copy, PartialEq, Eq, Structural)]
pub enum Group {
    Ingress,
    Default,
    Egress,
    App,
    Match,
    Detection,
    Traffic,
    Monitor,
}

/// The name of a group.
pub open spec fn group_name(g: Group) -> Seq<char> {
    match g {
        Group::Ingress => "ingress"@,
        Group::Default => "default"@,
        Group::Egress => "egress"@,
        Group::App => "app"@,
        Group::Match => "match"@,
        Group::Detection => "detection"@,
        Group::Traffic => "traffic"@,
        Group::Monitor => "monitor"@,
    }
}

/// The group a name denotes, if any.
pub open spec fn group_of_name(s: Seq<char>) -> Option<Group> {
    if s == "ingress"@ {
        Some(Group::Ingress)
    } else if s == "default"@ {
        Some(Group::Default)
    } else if s == "egress"@ {
        Some(Group::Egress)
    } else if s == "app"@ {
        Some(Group::App)
    } else if s == "match"@ {
        Some(Group::Match)
    } else if s == "detection"@ {
        Some(Group::Detection)
    } else if s == "traffic"@ {
        Some(Group::Traffic)
    } else if s == "monitor"@ {
        Some(Group::Monitor)
    } else {
        None
    }
}

/// A group name that is not one of the eight groups.
#[derive(Debug)]
pub struct UnknownGroup {
    pub value: String,
}

impl Group {
    pub fn as_str(self) -> (s: &'static str)
        ensures
            s@ == group_name(self),
    {
        match self {
            Group::Ingress => "ingress",
            Group::Default => "default",
            Group::Egress => "egress",
            Group::App => "app",
            Group::Match => "match",
            Group::Detection => "detection",
            Group::Traffic => "traffic",
            Group::Monitor => "monitor",
        }
    }

    pub fn parse(value: &str) -> (r: Result<Group, UnknownGroup>)
        ensures
            match group_of_name(value@) {
                Some(g) => r == Ok::<Group, UnknownGroup>(g),
                None => r matches Err(e) && e.value@ == value@,
            },
    {
        if str_eq(value, "ingress") {
            Ok(Group::Ingress)
        } else if str_eq(value, "default") {
            Ok(Group::Default)
        } else if str_eq(value, "egress") {
            Ok(Group::Egress)
        } else if str_eq(value, "app") {
            Ok(Group::App)
        } else if str_eq(value, "match") {
            Ok(Group::Match)
        } else if str_eq(value, "detection") {
            Ok(Group::Detection)
        } else if str_eq(value, "traffic") {
            Ok(Group::Traffic)
        } else if str_eq(value, "monitor") {
            Ok(Group::Monitor)
        } else {
            Err(UnknownGroup { value: value.to_string() })
        }
    }
}

/// Every group's name parses back to that group.
pub proof fn lemma_group_round_trip(g: Group)
    ensures
        group_of_name(group_name(g)) == Some(g),
{
    reveal_strlit("ingress");
    reveal_strlit("default");
    reveal_strlit("egress");
    reveal_strlit("app");
    reveal_strlit("match");
    reveal_strlit("detection");
    reveal_strlit("traffic");
    reveal_strlit("monitor");
    assert("ingress"@.len() == 7 && "ingress"@[0] == 'i');
    assert("default"@.len() == 7 && "default"@[0] == 'd');
    assert("egress"@.len() == 6 && "egress"@[0] == 'e');
    assert("app"@.len() == 3 && "app"@[0] == 'a');
    assert("match"@.len() == 5 && "match"@[0] == 'm');
    assert("detection"@.len() == 9 && "detection"@[0] == 'd');
    assert("traffic"@.len() == 7 && "traffic"@[0] == 't');
    assert("monitor"@.len() == 7 && "monitor"@[0] == 'm');
}

/// A provisioning bundle: one firewall rule set shared by several cases.
#[derive(Debug, Clone, Copy, PartialEq, Eq, Structural)]
pub enum Bundle {
    IngressTuple,
    DefaultDeny,
    DefaultAllow,
    EgressTuple,
    AppDeny,
    AppAllow,
    MatchFields,
    Detection,
    Traffic,
    Priority,
}

/// Which device performs an action.
#[derive(Debug, Clone, Copy, PartialEq, Eq, Structural)]
pub enum Side {
    Peer,
    Target,
}

/// How traffic is generated for a case.
#[derive(Debug, Clone)]
pub enum TrafficKind {
    Tcp { dport: u16 },
    Icmp,
    Udp { dport: u16, await_reply: bool },
    TcpScan { dports: Vec<u16> },
    UdpScan { dports: Vec<u16> },
    TcpBurst { dport: u16, count: u32 },
    UdpVolume { dport: u16, count: u32 },
    /// Bare-FIN TCP packets to several ports (raw socket, needs root).
    TcpFinScan { dports: Vec<u16> },
}

/// The mathematical value of a `TrafficKind`.
#[verifier::ext_equal]
pub enum TrafficKindView {
    Tcp { dport: u16 },
    Icmp,
    Udp { dport: u16, await_reply: bool },
    TcpScan { dports: Seq<u16> },
    UdpScan { dports: Seq<u16> },
    TcpBurst { dport: u16, count: u32 },
    UdpVolume { dport: u16, count: u32 },
    TcpFinScan { dports: Seq<u16> },
}

impl View for TrafficKind {
    type V = TrafficKindView;

    open spec fn view(&self) -> TrafficKindView {
        match self {
            TrafficKind::Tcp { dport } => TrafficKindView::Tcp { dport: *dport },
            TrafficKind::Icmp => TrafficKindView::Icmp,
            TrafficKind::Udp { dport, await_reply } => TrafficKindView::Udp {
                dport: *dport,
                await_reply: *await_reply,
            },
            TrafficKind::TcpScan { dports } => TrafficKindView::TcpScan { dports: dports@ },
            TrafficKind::UdpScan { dports } => TrafficKindView::UdpScan { dports: dports@ },
            TrafficKind::TcpBurst { dport, count } => TrafficKindView::TcpBurst {
                dport: *dport,
                count: *count,
            },
            TrafficKind::UdpVolume { dport, count } => TrafficKindView::UdpVolume {
                dport: *dport,
                count: *count,
            },
            TrafficKind::TcpFinScan { dports } => TrafficKindView::TcpFinScan { dports: dports@ },
        }
    }
}

/// Expected enforcement outcome.
#[derive(Debug, Clone, Copy, PartialEq, Eq, Structural)]
pub enum Enforce {
    Blocked,
    Allowed,
    /// Raw packet sent with no handshake/reply to judge (e.g. FIN scan).
    Sent,
    /// Connection actively refused (RST). For NLD the first new-flow packet is
    /// permitted, so a probe to a closed port is refused rather than dropped.
    Refused,
}

/// Expected firewall_event for a case (`None` asserts no event).
#[derive(Debug, Clone)]
pub struct ExpectEvent {
    pub kind: &'static str,
    pub action: &'static str,
    pub proto: &'static str,
    pub rule_id: Option<i64>,
    pub match_dport: Option<u16>,
    /// Exact vendor `detail` string to assert, or `None` to skip.
    pub detail: Option<&'static str>,
}

/// The mathematical value of an `ExpectEvent`.
pub struct ExpectEventView {
    pub kind: Seq<char>,
    pub action: Seq<char>,
    pub proto: Seq<char>,
    pub rule_id: Option<i64>,
    pub match_dport: Option<u16>,
    pub detail: Option<Seq<char>>,
}

/// The view of an optional string.
pub open spec fn opt_str_view(o: Option<&'static str>) -> Option<Seq<char>> {
    match o {
        Some(s) => Some(s@),
        None => None,
    }
}

impl View for ExpectEvent {
    type V = ExpectEventView;

    open spec fn view(&self) -> ExpectEventView {
        ExpectEventView {
            kind: self.kind@,
            action: self.action@,
            proto: self.proto@,
            rule_id: self.rule_id,
            match_dport: self.match_dport,
            detail: opt_str_view(self.detail),
        }
    }
}

/// The view of an optional expected event.
pub open spec fn opt_event_view(o: Option<ExpectEvent>) -> Option<ExpectEventView> {
    match o {
        Some(e) => Some(e@),
        None => None,
    }
}

/// A listener to start before generating traffic.
#[derive(Debug, Clone)]
pub struct Listen {
    pub side: Side,
    pub proto: &'static str,
    pub port: u16,
}

/// The mathematical value of a `Listen`.
pub struct ListenView {
    pub side: Side,
    pub proto: Seq<char>,
    pub port: u16,
}

impl View for Listen {
    type V = ListenView;

    open spec fn view(&self) -> ListenView {
        ListenView { side: self.side, proto: self.proto@, port: self.port }
    }
}

/// A single test case.
#[derive(Debug, Clone)]
pub struct FwCase {
    pub id: &'static str,
    pub group: Group,
    pub bundle: Bundle,
    pub origin: Side,
    pub uid: bool,
    pub sport: Option<u16>,
    pub listen: Vec<Listen>,
    pub traffic: TrafficKind,
    pub expect_enforce: Enforce,
    pub expect_event: Option<ExpectEvent>,
    pub skip: Option<&'static str>,
    pub notes: &'static str,
}

/// The mathematical value of a `FwCase`.
#[verifier::ext_equal]
pub struct FwCaseView {
    pub id: Seq<char>,
    pub group: Group,
    pub bundle: Bundle,
    pub origin: Side,
    pub uid: bool,
    pub sport: Option<u16>,
    pub listen: Seq<ListenView>,
    pub traffic: TrafficKindView,
    pub expect_enforce: Enforce,
    pub expect_event: Option<ExpectEventView>,
    pub skip: Option<Seq<char>>,
    pub notes: Seq<char>,
}

impl View for FwCase {
    type V = FwCaseView;

    open spec fn view(&self) -> FwCaseView {
        FwCaseView {
            id: self.id@,
            group: self.group,
            bundle: self.bundle,
            origin: self.origin,
            uid: self.uid,
            sport: self.sport,
            listen: self.listen@.map_values(|l: Listen| l@),
            traffic: self.traffic@,
            expect_enforce: self.expect_enforce,
            expect_event: opt_event_view(self.expect_event),
            skip: opt_str_view(self.skip),
            notes: self.notes@,
        }
    }
}

/// The views of a sequence of cases.
pub open spec fn cases_view(cases: Seq<FwCase>) -> Seq<FwCaseView> {
    cases.map_values(|c: FwCase| c@)
}

/// Traffic-policy cycle (fun=4) in seconds for a bundle, if any.
pub open spec fn bundle_cycle(bundle: Bundle) -> Option<u64> {
    if bundle == Bundle::Traffic {
        Some(5)
    } else {
        None
    }
}

/// Traffic-policy cycle (fun=4) in seconds for a bundle, if any.
pub fn traffic_cycle(bundle: Bundle) -> (r: Option<u64>)
    ensures
        r == bundle_cycle(bundle),
{
    if bundle == Bundle::Traffic {
        Some(5)
    } else {
        None
    }
}

fn event(
    kind: &'static str,
    action: &'static str,
    proto: &'static str,
    rule_id: Option<i64>,
    match_dport: Option<u16>,
) -> (r: Option<ExpectEvent>)
    ensures
        opt_event_view(r) == Some(
            ExpectEventView {
                kind: kind@,
                action: action@,
                proto: proto@,
                rule_id,
                match_dport,
                detail: None,
            },
        ),
{
    Some(ExpectEvent { kind, action, proto, rule_id, match_dport, detail: None })
}

/// Like `event`, but also asserts the exact vendor `detail` string.
fn event_d(
    kind: &'static str,
    action: &'static str,
    proto: &'static str,
    rule_id: Option<i64>,
    match_dport: Option<u16>,
    detail: &'static str,
) -> (r: Option<ExpectEvent>)
    ensures
        opt_event_view(r) == Some(
            ExpectEventView {
                kind: kind@,
                action: action@,
                proto: proto@,
                rule_id,
                match_dport,
                detail: Some(detail@),
            },
        ),
{
    Some(ExpectEvent { kind, action, proto, rule_id, match_dport, detail: Some(detail) })
}

fn listen(side: Side, proto: &'static str, port: u16) -> (r: Vec<Listen>)
    ensures
        r@.map_values(|l: Listen| l@) == seq![ListenView { side, proto: proto@, port }],
{
    let r = vec![Listen { side, proto, port }];
    assert(r@.map_values(|l: Listen| l@) =~= seq![ListenView { side, proto: proto@, port }]);
    r
}

/// The case catalog.
pub open spec fn catalog() -> Seq<FwCaseView> {
    seq![
        FwCaseView {
            id: "ingress-tuple-pass"@,
            group: Group::Ingress,
            bundle: Bundle::IngressTuple,
            origin: Side::Peer,
            uid: false,
            sport: None,
            listen: seq![ListenView { side: Side::Target, proto: "tcp"@, port: 5001 }],
            traffic: TrafficKindView::Tcp { dport: 5001 },
            expect_enforce: Enforce::Allowed,
            expect_event: None,
            skip: None,
            notes: "Pass action allows the SYN and emits no event"@,
        },
        FwCaseView {
            id: "ingress-tuple-alert"@,
            group: Group::Ingress,
            bundle: Bundle::IngressTuple,
            origin: Side::Peer,
            uid: false,
            sport: None,
            listen: seq![ListenView { side: Side::Target, proto: "tcp"@, port: 5002 }],
            traffic: TrafficKindView::Tcp { dport: 5002 },
            expect_enforce: Enforce::Allowed,
            expect_event: None,
            skip: None,
            notes: "Ingress LP allows the SYN; single connections emit no event (vendor-aligned)"@,
        },
        FwCaseView {
            id: "ingress-tuple-block"@,
            group: Group::Ingress,
            bundle: Bundle::IngressTuple,
            origin: Side::Peer,
            uid: false,
            sport: None,
            listen: seq![],
            traffic: TrafficKindView::Tcp { dport: 5003 },
            expect_enforce: Enforce::Blocked,
            expect_event: None,
            skip: None,
            notes: "Ingress LD drops the SYN; single connections emit no event (only scans do)"@,
        },
        FwCaseView {
            id: "ingress-tuple-blocksilent"@,
            group: Group::Ingress,
            bundle: Bundle::IngressTuple,
            origin: Side::Peer,
            uid: false,
            sport: None,
            listen: seq![],
            traffic: TrafficKindView::Tcp { dport: 5004 },
            expect_enforce: Enforce::Blocked,
            expect_event: None,
            skip: None,
            notes: "NLD drops the probe silently: blocked (timeout), with no event"@,
        },
        FwCaseView {
            id: "default-deny-blocks"@,
            group: Group::Default,
            bundle: Bundle::DefaultDeny,
            origin: Side::Peer,
            uid: false,
            sport: None,
            listen: seq![],
            traffic: TrafficKindView::Tcp { dport: 5102 },
            expect_enforce: Enforce::Blocked,
            expect_event: None,
            skip: None,
            notes: "Default ingress deny drops unlisted traffic; emits no per-connection event"@,
        },
        FwCaseView {
            id: "default-deny-carveout"@,
            group: Group::Default,
            bundle: Bundle::DefaultDeny,
            origin: Side::Peer,
            uid: false,
            sport: None,
            listen: seq![ListenView { side: Side::Target, proto: "tcp"@, port: 5101 }],
            traffic: TrafficKindView::Tcp { dport: 5101 },
            expect_enforce: Enforce::Allowed,
            expect_event: None,
            skip: None,
            notes: "Explicit Pass rule overrides the default deny"@,
        },
        FwCaseView {
            id: "default-allow"@,
            group: Group::Default,
            bundle: Bundle::DefaultAllow,
            origin: Side::Peer,
            uid: false,
            sport: None,
            listen: seq![ListenView { side: Side::Target, proto: "tcp"@, port: 5201 }],
            traffic: TrafficKindView::Tcp { dport: 5201 },
            expect_enforce: Enforce::Allowed,
            expect_event: None,
            skip: None,
            notes: "Default ingress allow passes unlisted traffic"@,
        },
        FwCaseView {
            id: "egress-tcp-block"@,
            group: Group::Egress,
            bundle: Bundle::EgressTuple,
            origin: Side::Target,
            uid: false,
            sport: None,
            listen: seq![ListenView { side: Side::Peer, proto: "tcp"@, port: 6001 }],
            traffic: TrafficKindView::Tcp { dport: 6001 },
            expect_enforce: Enforce::Blocked,
            expect_event: Some(ExpectEventView { kind: "NetworkBlock"@, action: "Block"@, proto: "tcp"@, rule_id: Some(2), match_dport: Some(6001), detail: Some("connection state invalid attack"@) }),
            skip: None,
            notes: "Egress Block drops the target's outbound SYN and records a NetworkBlock"@,
        },
        FwCaseView {
            id: "egress-tcp-alert"@,
            group: Group::Egress,
            bundle: Bundle::EgressTuple,
            origin: Side::Target,
            uid: false,
            sport: None,
            listen: seq![ListenView { side: Side::Peer, proto: "tcp"@, port: 6002 }],
            traffic: TrafficKindView::Tcp { dport: 6002 },
            expect_enforce: Enforce::Allowed,
            expect_event: None,
            skip: None,
            notes: "Egress LP allows outbound and emits no event (vendor egress has no LPASS log)"@,
        },
        FwCaseView {
            id: "egress-udp-block"@,
            group: Group::Egress,
            bundle: Bundle::EgressTuple,
            origin: Side::Target,
            uid: false,
            sport: None,
            listen: seq![ListenView { side: Side::Peer, proto: "udp"@, port: 6003 }],
            traffic: TrafficKindView::Udp { dport: 6003, await_reply: true },
            expect_enforce: Enforce::Blocked,
            expect_event: Some(ExpectEventView { kind: "NetworkBlock"@, action: "Block"@, proto: "udp"@, rule_id: Some(4), match_dport: Some(6003), detail: Some("connection state invalid attack"@) }),
            skip: None,
            notes: "Egress UDP Block drops the outbound datagram (no echo) and records a NetworkBlock"@,
        },
        FwCaseView {
            id: "app-policy-deny"@,
            group: Group::App,
            bundle: Bundle::AppDeny,
            origin: Side::Target,
            uid: true,
            sport: None,
            listen: seq![ListenView { side: Side::Peer, proto: "tcp"@, port: 6101 }],
            traffic: TrafficKindView::Tcp { dport: 6101 },
            expect_enforce: Enforce::Blocked,
            expect_event: Some(ExpectEventView { kind: "PolicyDeny"@, action: "Block"@, proto: "tcp"@, rule_id: None, match_dport: None, detail: None }),
            skip: None,
            notes: "App policy LD denies the mapped UID's connect (cgroup connect4)"@,
        },
        FwCaseView {
            id: "app-policy-allow"@,
            group: Group::App,
            bundle: Bundle::AppAllow,
            origin: Side::Target,
            uid: true,
            sport: None,
            listen: seq![ListenView { side: Side::Peer, proto: "tcp"@, port: 6101 }],
            traffic: TrafficKindView::Tcp { dport: 6101 },
            expect_enforce: Enforce::Allowed,
            expect_event: None,
            skip: None,
            notes: "App policy LP allows the mapped UID's connect"@,
        },
        FwCaseView {
            id: "match-sip-host"@,
            group: Group::Match,
            bundle: Bundle::MatchFields,
            origin: Side::Peer,
            uid: false,
            sport: None,
            listen: seq![],
            traffic: TrafficKindView::Tcp { dport: 7001 },
            expect_enforce: Enforce::Blocked,
            expect_event: None,
            skip: None,
            notes: "Exact /32 source IP match; blocked proves the rule matched (no ingress event)"@,
        },
        FwCaseView {
            id: "match-sip-cidr"@,
            group: Group::Match,
            bundle: Bundle::MatchFields,
            origin: Side::Peer,
            uid: false,
            sport: None,
            listen: seq![],
            traffic: TrafficKindView::Tcp { dport: 7002 },
            expect_enforce: Enforce::Blocked,
            expect_event: None,
            skip: None,
            notes: "CIDR /24 source match; blocked proves the rule matched (no ingress event)"@,
        },
        FwCaseView {
            id: "match-dport-range-lo"@,
            group: Group::Match,
            bundle: Bundle::MatchFields,
            origin: Side::Peer,
            uid: false,
            sport: None,
            listen: seq![],
            traffic: TrafficKindView::Tcp { dport: 7100 },
            expect_enforce: Enforce::Blocked,
            expect_event: None,
            skip: None,
            notes: "Destination port range low bound; blocked proves the match (no ingress event)"@,
        },
        FwCaseView {
            id: "match-dport-range-hi"@,
            group: Group::Match,
            bundle: Bundle::MatchFields,
            origin: Side::Peer,
            uid: false,
            sport: None,
            listen: seq![],
            traffic: TrafficKindView::Tcp { dport: 7110 },
            expect_enforce: Enforce::Blocked,
            expect_event: None,
            skip: None,
            notes: "Destination port range high bound; blocked proves the match (no ingress event)"@,
        },
        FwCaseView {
            id: "match-dport-range-out"@,
            group: Group::Match,
            bundle: Bundle::MatchFields,
            origin: Side::Peer,
            uid: false,
            sport: None,
            listen: seq![ListenView { side: Side::Target, proto: "tcp"@, port: 7111 }],
            traffic: TrafficKindView::Tcp { dport: 7111 },
            expect_enforce: Enforce::Allowed,
            expect_event: None,
            skip: None,
            notes: "Negative: port just outside the range falls through to default allow"@,
        },
        FwCaseView {
            id: "match-sport-range"@,
            group: Group::Match,
            bundle: Bundle::MatchFields,
            origin: Side::Peer,
            uid: false,
            sport: Some(8000),
            listen: seq![],
            traffic: TrafficKindView::Udp { dport: 7200, await_reply: true },
            expect_enforce: Enforce::Blocked,
            expect_event: None,
            skip: None,
            notes: "Source port range + UDP protocol match; blocked proves the match (no event)"@,
        },
        FwCaseView {
            id: "match-proto-icmp"@,
            group: Group::Match,
            bundle: Bundle::MatchFields,
            origin: Side::Peer,
            uid: false,
            sport: None,
            listen: seq![],
            traffic: TrafficKindView::Icmp,
            expect_enforce: Enforce::Blocked,
            expect_event: None,
            skip: None,
            notes: "ICMP protocol match; blocked (no reply) proves the match (no ingress event)"@,
        },
        FwCaseView {
            id: "match-proto-any-tcp"@,
            group: Group::Match,
            bundle: Bundle::MatchFields,
            origin: Side::Peer,
            uid: false,
            sport: None,
            listen: seq![],
            traffic: TrafficKindView::Tcp { dport: 7300 },
            expect_enforce: Enforce::Blocked,
            expect_event: None,
            skip: None,
            notes: "Wildcard protocol match (tcp); blocked proves the match (no ingress event)"@,
        },
        FwCaseView {
            id: "match-proto-any-udp"@,
            group: Group::Match,
            bundle: Bundle::MatchFields,
            origin: Side::Peer,
            uid: false,
            sport: None,
            listen: seq![],
            traffic: TrafficKindView::Udp { dport: 7300, await_reply: true },
            expect_enforce: Enforce::Blocked,
            expect_event: None,
            skip: None,
            notes: "Wildcard protocol match (udp); drop -> no echo -> timeout=blocked (no event)"@,
        },
        FwCaseView {
            id: "detect-portscan-tcp"@,
            group: Group::Detection,
            bundle: Bundle::Detection,
            origin: Side::Peer,
            uid: false,
            sport: None,
            listen: seq![],
            traffic: TrafficKindView::TcpScan { dports: seq![9001u16, 9002u16, 9003u16, 9004u16, 9005u16] },
            expect_enforce: Enforce::Blocked,
            expect_event: Some(ExpectEventView { kind: "PortScan"@, action: "Block"@, proto: "tcp"@, rule_id: None, match_dport: None, detail: Some("tcp portscan attack"@) }),
            skip: None,
            notes: "≥3 distinct dst ports in a <1s burst -> PortScan; sent as 5 so the global vendor detector fires even if prior cases left slot residue"@,
        },
        FwCaseView {
            id: "detect-portscan-udp"@,
            group: Group::Detection,
            bundle: Bundle::Detection,
            origin: Side::Peer,
            uid: false,
            sport: None,
            listen: seq![],
            traffic: TrafficKindView::UdpScan { dports: seq![9001u16, 9002u16, 9003u16, 9004u16, 9005u16] },
            expect_enforce: Enforce::Sent,
            expect_event: Some(ExpectEventView { kind: "PortScan"@, action: "Block"@, proto: "udp"@, rule_id: None, match_dport: None, detail: Some("udp portscan attack"@) }),
            skip: None,
            notes: "≥3 distinct UDP dst ports in a <1s burst -> PortScan (UDP fire-and-forget => verdict 'sent'); 5 ports for detector robustness"@,
        },
        FwCaseView {
            id: "detect-portscan-tcp-fin"@,
            group: Group::Detection,
            bundle: Bundle::Detection,
            origin: Side::Peer,
            uid: false,
            sport: None,
            listen: seq![],
            traffic: TrafficKindView::TcpFinScan { dports: seq![9011u16, 9012u16, 9013u16, 9014u16, 9015u16] },
            expect_enforce: Enforce::Sent,
            expect_event: Some(ExpectEventView { kind: "PortScan"@, action: "Block"@, proto: "tcp"@, rule_id: None, match_dport: None, detail: Some("tcp fin portscan attack"@) }),
            skip: None,
            notes: "≥3 distinct dst ports hit by bare-FIN packets in a <1s burst -> FIN PortScan (raw socket on PEER, needs root; verdict 'sent'); 5 ports for detector robustness"@,
        },
        FwCaseView {
            id: "detect-conn-abnormal"@,
            group: Group::Detection,
            bundle: Bundle::Detection,
            origin: Side::Peer,
            uid: false,
            sport: None,
            listen: seq![],
            traffic: TrafficKindView::TcpBurst { dport: 9100, count: 5 },
            expect_enforce: Enforce::Blocked,
            expect_event: Some(ExpectEventView { kind: "ConnectionAbnormal"@, action: "Block"@, proto: "tcp"@, rule_id: None, match_dport: Some(9100), detail: Some("translation layer --tcp state unnormal"@) }),
            skip: None,
            notes: "5 distinct flows (fresh source ports) to one dst port -> ConnectionAbnormal (same dst port 4th hit across flows)"@,
        },
        FwCaseView {
            id: "detect-below-threshold"@,
            group: Group::Detection,
            bundle: Bundle::Detection,
            origin: Side::Peer,
            uid: false,
            sport: None,
            listen: seq![],
            traffic: TrafficKindView::TcpScan { dports: seq![9201u16, 9202u16] },
            expect_enforce: Enforce::Blocked,
            expect_event: None,
            skip: None,
            notes: "Negative: only 2 distinct ports -> sub-threshold -> no event (blocked, no escalation)"@,
        },
        FwCaseView {
            id: "traffic-global"@,
            group: Group::Traffic,
            bundle: Bundle::Traffic,
            origin: Side::Peer,
            uid: false,
            sport: None,
            listen: seq![],
            traffic: TrafficKindView::UdpVolume { dport: 5301, count: 200 },
            expect_enforce: Enforce::Allowed,
            expect_event: None,
            skip: None,
            notes: "Allowed volume bumps global ingress counters and a traffic window"@,
        },
        FwCaseView {
            id: "traffic-per-app"@,
            group: Group::Traffic,
            bundle: Bundle::Traffic,
            origin: Side::Target,
            uid: true,
            sport: None,
            listen: seq![],
            traffic: TrafficKindView::UdpVolume { dport: 5301, count: 200 },
            expect_enforce: Enforce::Allowed,
            expect_event: None,
            skip: None,
            notes: "Volume from the mapped UID attributes wifi bytes to an app window"@,
        },
        FwCaseView {
            id: "priority-later-wins"@,
            group: Group::Match,
            bundle: Bundle::Priority,
            origin: Side::Peer,
            uid: false,
            sport: None,
            listen: seq![ListenView { side: Side::Target, proto: "tcp"@, port: 8001 }],
            traffic: TrafficKindView::Tcp { dport: 8001 },
            expect_enforce: Enforce::Blocked,
            expect_event: None,
            skip: None,
            notes: "Two rules on dport 8001 (Pass then Block): the later, higher-priority Block wins -> blocked"@,
        },
        FwCaseView {
            id: "priority-control-pass"@,
            group: Group::Match,
            bundle: Bundle::Priority,
            origin: Side::Peer,
            uid: false,
            sport: None,
            listen: seq![ListenView { side: Side::Target, proto: "tcp"@, port: 8002 }],
            traffic: TrafficKindView::Tcp { dport: 8002 },
            expect_enforce: Enforce::Allowed,
            expect_event: None,
            skip: None,
            notes: "Control: dport 8002 has only a Pass rule -> allowed (proves the block above is rule-specific, not a side effect)"@,
        },
    ]
}

/// The full case catalog.
#[verifier::rlimit(100)]
pub fn all_cases() -> (cases: Vec<FwCase>)
    ensures
        cases_view(cases@) == catalog(),
{
    let cases = vec![
        FwCase {
            id: "ingress-tuple-pass",
            group: Group::Ingress,
            bundle: Bundle::IngressTuple,
            origin: Side::Peer,
            uid: false,
            sport: None,
            listen: listen(Side::Target, "tcp", 5001),
            traffic: TrafficKind::Tcp { dport: 5001 },
            expect_enforce: Enforce::Allowed,
            expect_event: None,
            skip: None,
            notes: "Pass action allows the SYN and emits no event",
        },
        FwCase {
            id: "ingress-tuple-alert",
            group: Group::Ingress,
            bundle: Bundle::IngressTuple,
            origin: Side::Peer,
            uid: false,
            sport: None,
            listen: listen(Side::Target, "tcp", 5002),
            traffic: TrafficKind::Tcp { dport: 5002 },
            expect_enforce: Enforce::Allowed,
            expect_event: None,
            skip: None,
            notes: "Ingress LP allows the SYN; single connections emit no event (vendor-aligned)",
        },
        FwCase {
            id: "ingress-tuple-block",
            group: Group::Ingress,
            bundle: Bundle::IngressTuple,
            origin: Side::Peer,
            uid: false,
            sport: None,
            listen: vec![],
            traffic: TrafficKind::Tcp { dport: 5003 },
            expect_enforce: Enforce::Blocked,
            expect_event: None,
            skip: None,
            notes: "Ingress LD drops the SYN; single connections emit no event (only scans do)",
        },
        FwCase {
            id: "ingress-tuple-blocksilent",
            group: Group::Ingress,
            bundle: Bundle::IngressTuple,
            origin: Side::Peer,
            uid: false,
            sport: None,
            listen: vec![],
            traffic: TrafficKind::Tcp { dport: 5004 },
            expect_enforce: Enforce::Blocked,
            expect_event: None,
            skip: None,
            notes: "NLD drops the probe silently: blocked (timeout), with no event",
        },
        FwCase {
            id: "default-deny-blocks",
            group: Group::Default,
            bundle: Bundle::DefaultDeny,
            origin: Side::Peer,
            uid: false,
            sport: None,
            listen: vec![],
            traffic: TrafficKind::Tcp { dport: 5102 },
            expect_enforce: Enforce::Blocked,
            expect_event: None,
            skip: None,
            notes: "Default ingress deny drops unlisted traffic; emits no per-connection event",
        },
        FwCase {
            id: "default-deny-carveout",
            group: Group::Default,
            bundle: Bundle::DefaultDeny,
            origin: Side::Peer,
            uid: false,
            sport: None,
            listen: listen(Side::Target, "tcp", 5101),
            traffic: TrafficKind::Tcp { dport: 5101 },
            expect_enforce: Enforce::Allowed,
            expect_event: None,
            skip: None,
            notes: "Explicit Pass rule overrides the default deny",
        },
        FwCase {
            id: "default-allow",
            group: Group::Default,
            bundle: Bundle::DefaultAllow,
            origin: Side::Peer,
            uid: false,
            sport: None,
            listen: listen(Side::Target, "tcp", 5201),
            traffic: TrafficKind::Tcp { dport: 5201 },
            expect_enforce: Enforce::Allowed,
            expect_event: None,
            skip: None,
            notes: "Default ingress allow passes unlisted traffic",
        },
        FwCase {
            id: "egress-tcp-block",
            group: Group::Egress,
            bundle: Bundle::EgressTuple,
            origin: Side::Target,
            uid: false,
            sport: None,
            listen: listen(Side::Peer, "tcp", 6001),
            traffic: TrafficKind::Tcp { dport: 6001 },
            expect_enforce: Enforce::Blocked,
            expect_event: event_d("NetworkBlock", "Block", "tcp", Some(2), Some(6001), "connection state invalid attack"),
            skip: None,
            notes: "Egress Block drops the target's outbound SYN and records a NetworkBlock",
        },
        FwCase {
            id: "egress-tcp-alert",
            group: Group::Egress,
            bundle: Bundle::EgressTuple,
            origin: Side::Target,
            uid: false,
            sport: None,
            listen: listen(Side::Peer, "tcp", 6002),
            traffic: TrafficKind::Tcp { dport: 6002 },
            expect_enforce: Enforce::Allowed,
            expect_event: None,
            skip: None,
            notes: "Egress LP allows outbound and emits no event (vendor egress has no LPASS log)",
        },
        FwCase {
            id: "egress-udp-block",
            group: Group::Egress,
            bundle: Bundle::EgressTuple,
            origin: Side::Target,
            uid: false,
            sport: None,
            listen: listen(Side::Peer, "udp", 6003),
            traffic: TrafficKind::Udp { dport: 6003, await_reply: true },
            expect_enforce: Enforce::Blocked,
            expect_event: event_d("NetworkBlock", "Block", "udp", Some(4), Some(6003), "connection state invalid attack"),
            skip: None,
            notes: "Egress UDP Block drops the outbound datagram (no echo) and records a NetworkBlock",
        },
        FwCase {
            id: "app-policy-deny",
            group: Group::App,
            bundle: Bundle::AppDeny,
            origin: Side::Target,
            uid: true,
            sport: None,
            listen: listen(Side::Peer, "tcp", 6101),
            traffic: TrafficKind::Tcp { dport: 6101 },
            expect_enforce: Enforce::Blocked,
            expect_event: event("PolicyDeny", "Block", "tcp", None, None),
            skip: None,
            notes: "App policy LD denies the mapped UID's connect (cgroup connect4)",
        },
        FwCase {
            id: "app-policy-allow",
            group: Group::App,
            bundle: Bundle::AppAllow,
            origin: Side::Target,
            uid: true,
            sport: None,
            listen: listen(Side::Peer, "tcp", 6101),
            traffic: TrafficKind::Tcp { dport: 6101 },
            expect_enforce: Enforce::Allowed,
            expect_event: None,
            skip: None,
            notes: "App policy LP allows the mapped UID's connect",
        },
        FwCase {
            id: "match-sip-host",
            group: Group::Match,
            bundle: Bundle::MatchFields,
            origin: Side::Peer,
            uid: false,
            sport: None,
            listen: vec![],
            traffic: TrafficKind::Tcp { dport: 7001 },
            expect_enforce: Enforce::Blocked,
            expect_event: None,
            skip: None,
            notes: "Exact /32 source IP match; blocked proves the rule matched (no ingress event)",
        },
        FwCase {
            id: "match-sip-cidr",
            group: Group::Match,
            bundle: Bundle::MatchFields,
            origin: Side::Peer,
            uid: false,
            sport: None,
            listen: vec![],
            traffic: TrafficKind::Tcp { dport: 7002 },
            expect_enforce: Enforce::Blocked,
            expect_event: None,
            skip: None,
            notes: "CIDR /24 source match; blocked proves the rule matched (no ingress event)",
        },
        FwCase {
            id: "match-dport-range-lo",
            group: Group::Match,
            bundle: Bundle::MatchFields,
            origin: Side::Peer,
            uid: false,
            sport: None,
            listen: vec![],
            traffic: TrafficKind::Tcp { dport: 7100 },
            expect_enforce: Enforce::Blocked,
            expect_event: None,
            skip: None,
            notes: "Destination port range low bound; blocked proves the match (no ingress event)",
        },
        FwCase {
            id: "match-dport-range-hi",
            group: Group::Match,
            bundle: Bundle::MatchFields,
            origin: Side::Peer,
            uid: false,
            sport: None,
            listen: vec![],
            traffic: TrafficKind::Tcp { dport: 7110 },
            expect_enforce: Enforce::Blocked,
            expect_event: None,
            skip: None,
            notes: "Destination port range high bound; blocked proves the match (no ingress event)",
        },
        FwCase {
            id: "match-dport-range-out",
            group: Group::Match,
            bundle: Bundle::MatchFields,
            origin: Side::Peer,
            uid: false,
            sport: None,
            listen: listen(Side::Target, "tcp", 7111),
            traffic: TrafficKind::Tcp { dport: 7111 },
            expect_enforce: Enforce::Allowed,
            expect_event: None,
            skip: None,
            notes: "Negative: port just outside the range falls through to default allow",
        },
        FwCase {
            id: "match-sport-range",
            group: Group::Match,
            bundle: Bundle::MatchFields,
            origin: Side::Peer,
            uid: false,
            sport: Some(8000),
            listen: vec![],
            traffic: TrafficKind::Udp { dport: 7200, await_reply: true },
            expect_enforce: Enforce::Blocked,
            expect_event: None,
            skip: None,
            notes: "Source port range + UDP protocol match; blocked proves the match (no event)",
        },
        FwCase {
            id: "match-proto-icmp",
            group: Group::Match,
            bundle: Bundle::MatchFields,
            origin: Side::Peer,
            uid: false,
            sport: None,
            listen: vec![],
            traffic: TrafficKind::Icmp,
            expect_enforce: Enforce::Blocked,
            expect_event: None,
            skip: None,
            notes: "ICMP protocol match; blocked (no reply) proves the match (no ingress event)",
        },
        FwCase {
            id: "match-proto-any-tcp",
            group: Group::Match,
            bundle: Bundle::MatchFields,
            origin: Side::Peer,
            uid: false,
            sport: None,
            listen: vec![],
            traffic: TrafficKind::Tcp { dport: 7300 },
            expect_enforce: Enforce::Blocked,
            expect_event: None,
            skip: None,
            notes: "Wildcard protocol match (tcp); blocked proves the match (no ingress event)",
        },
        FwCase {
            id: "match-proto-any-udp",
            group: Group::Match,
            bundle: Bundle::MatchFields,
            origin: Side::Peer,
            uid: false,
            sport: None,
            listen: vec![],
            traffic: TrafficKind::Udp { dport: 7300, await_reply: true },
            expect_enforce: Enforce::Blocked,
            expect_event: None,
            skip: None,
            notes: "Wildcard protocol match (udp); drop -> no echo -> timeout=blocked (no event)",
        },
        FwCase {
            id: "detect-portscan-tcp",
            group: Group::Detection,
            bundle: Bundle::Detection,
            origin: Side::Peer,
            uid: false,
            sport: None,
            listen: vec![],
            traffic: TrafficKind::TcpScan { dports: vec![9001, 9002, 9003, 9004, 9005] },
            expect_enforce: Enforce::Blocked,
            expect_event: event_d("PortScan", "Block", "tcp", None, None, "tcp portscan attack"),
            skip: None,
            notes: "≥3 distinct dst ports in a <1s burst -> PortScan; sent as 5 so the global vendor detector fires even if prior cases left slot residue",
        },
        FwCase {
            id: "detect-portscan-udp",
            group: Group::Detection,
            bundle: Bundle::Detection,
            origin: Side::Peer,
            uid: false,
            sport: None,
            listen: vec![],
            traffic: TrafficKind::UdpScan { dports: vec![9001, 9002, 9003, 9004, 9005] },
            expect_enforce: Enforce::Sent,
            expect_event: event_d("PortScan", "Block", "udp", None, None, "udp portscan attack"),
            skip: None,
            notes: "≥3 distinct UDP dst ports in a <1s burst -> PortScan (UDP fire-and-forget => verdict 'sent'); 5 ports for detector robustness",
        },
        FwCase {
            id: "detect-portscan-tcp-fin",
            group: Group::Detection,
            bundle: Bundle::Detection,
            origin: Side::Peer,
            uid: false,
            sport: None,
            listen: vec![],
            traffic: TrafficKind::TcpFinScan { dports: vec![9011, 9012, 9013, 9014, 9015] },
            expect_enforce: Enforce::Sent,
            expect_event: event_d("PortScan", "Block", "tcp", None, None, "tcp fin portscan attack"),
            skip: None,
            notes: "≥3 distinct dst ports hit by bare-FIN packets in a <1s burst -> FIN PortScan (raw socket on PEER, needs root; verdict 'sent'); 5 ports for detector robustness",
        },
        FwCase {
            id: "detect-conn-abnormal",
            group: Group::Detection,
            bundle: Bundle::Detection,
            origin: Side::Peer,
            uid: false,
            sport: None,
            listen: vec![],
            traffic: TrafficKind::TcpBurst { dport: 9100, count: 5 },
            expect_enforce: Enforce::Blocked,
            expect_event: event_d("ConnectionAbnormal", "Block", "tcp", None, Some(9100), "translation layer --tcp state unnormal"),
            skip: None,
            notes: "5 distinct flows (fresh source ports) to one dst port -> ConnectionAbnormal (same dst port 4th hit across flows)",
        },
        FwCase {
            id: "detect-below-threshold",
            group: Group::Detection,
            bundle: Bundle::Detection,
            origin: Side::Peer,
            uid: false,
            sport: None,
            listen: vec![],
            traffic: TrafficKind::TcpScan { dports: vec![9201, 9202] },
            expect_enforce: Enforce::Blocked,
            expect_event: None,
            skip: None,
            notes: "Negative: only 2 distinct ports -> sub-threshold -> no event (blocked, no escalation)",
        },
        FwCase {
            id: "traffic-global",
            group: Group::Traffic,
            bundle: Bundle::Traffic,
            origin: Side::Peer,
            uid: false,
            sport: None,
            listen: vec![],
            traffic: TrafficKind::UdpVolume { dport: 5301, count: 200 },
            expect_enforce: Enforce::Allowed,
            expect_event: None,
            skip: None,
            notes: "Allowed volume bumps global ingress counters and a traffic window",
        },
        FwCase {
            id: "traffic-per-app",
            group: Group::Traffic,
            bundle: Bundle::Traffic,
            origin: Side::Target,
            uid: true,
            sport: None,
            listen: vec![],
            traffic: TrafficKind::UdpVolume { dport: 5301, count: 200 },
            expect_enforce: Enforce::Allowed,
            expect_event: None,
            skip: None,
            notes: "Volume from the mapped UID attributes wifi bytes to an app window",
        },
        FwCase {
            id: "priority-later-wins",
            group: Group::Match,
            bundle: Bundle::Priority,
            origin: Side::Peer,
            uid: false,
            sport: None,
            listen: listen(Side::Target, "tcp", 8001),
            traffic: TrafficKind::Tcp { dport: 8001 },
            expect_enforce: Enforce::Blocked,
            expect_event: None,
            skip: None,
            notes: "Two rules on dport 8001 (Pass then Block): the later, higher-priority Block wins -> blocked",
        },
        FwCase {
            id: "priority-control-pass",
            group: Group::Match,
            bundle: Bundle::Priority,
            origin: Side::Peer,
            uid: false,
            sport: None,
            listen: listen(Side::Target, "tcp", 8002),
            traffic: TrafficKind::Tcp { dport: 8002 },
            expect_enforce: Enforce::Allowed,
            expect_event: None,
            skip: None,
            notes: "Control: dport 8002 has only a Pass rule -> allowed (proves the block above is rule-specific, not a side effect)",
        },
    ];
    assert(cases@[0]@ =~= catalog()[0]);
    assert(cases@[1]@ =~= catalog()[1]);
    assert(cases@[2]@ =~= catalog()[2]);
    assert(cases@[3]@ =~= catalog()[3]);
    assert(cases@[4]@ =~= catalog()[4]);
    assert(cases@[5]@ =~= catalog()[5]);
    assert(cases@[6]@ =~= catalog()[6]);
    assert(cases@[7]@ =~= catalog()[7]);
    assert(cases@[8]@ =~= catalog()[8]);
    assert(cases@[9]@ =~= catalog()[9]);
    assert(cases@[10]@ =~= catalog()[10]);
    assert(cases@[11]@ =~= catalog()[11]);
    assert(cases@[12]@ =~= catalog()[12]);
    assert(cases@[13]@ =~= catalog()[13]);
    assert(cases@[14]@ =~= catalog()[14]);
    assert(cases@[15]@ =~= catalog()[15]);
    assert(cases@[16]@ =~= catalog()[16]);
    assert(cases@[17]@ =~= catalog()[17]);
    assert(cases@[18]@ =~= catalog()[18]);
    assert(cases@[19]@ =~= catalog()[19]);
    assert(cases@[20]@ =~= catalog()[20]);
    assert(cases@[21]@ =~= catalog()[21]);
    assert(cases@[22]@ =~= catalog()[22]);
    assert(cases@[23]@ =~= catalog()[23]);
    assert(cases@[24]@ =~= catalog()[24]);
    assert(cases@[25]@ =~= catalog()[25]);
    assert(cases@[26]@ =~= catalog()[26]);
    assert(cases@[27]@ =~= catalog()[27]);
    assert(cases@[28]@ =~= catalog()[28]);
    assert(cases@[29]@ =~= catalog()[29]);
    assert(cases_view(cases@) =~= catalog());
    cases
}

/// Bundle provisioning order for `run-all` / `run-group`.
pub open spec fn bundle_sequence() -> Seq<Bundle> {
    seq![
        Bundle::IngressTuple,
        Bundle::DefaultDeny,
        Bundle::DefaultAllow,
        Bundle::EgressTuple,
        Bundle::AppDeny,
        Bundle::AppAllow,
        Bundle::MatchFields,
        Bundle::Detection,
        Bundle::Traffic,
        Bundle::Priority,
    ]
}

/// Bundle provisioning order for `run-all` / `run-group`.
pub fn bundle_order() -> (order: Vec<Bundle>)
    ensures
        order@ == bundle_sequence(),
{
    let order = vec![
        Bundle::IngressTuple,
        Bundle::DefaultDeny,
        Bundle::DefaultAllow,
        Bundle::EgressTuple,
        Bundle::AppDeny,
        Bundle::AppAllow,
        Bundle::MatchFields,
        Bundle::Detection,
        Bundle::Traffic,
        Bundle::Priority,
    ];
    assert(order@ =~= bundle_sequence());
    order
}

/// Every bundle occurs in the provisioning order exactly once, so every
/// case's bundle is provisioned.
pub proof fn lemma_bundle_order_complete(b: Bundle)
    ensures
        bundle_sequence().contains(b),
        bundle_sequence().no_duplicates(),
{
    let s = bundle_sequence();
    match b {
        Bundle::IngressTuple => assert(s[0] == b),
        Bundle::DefaultDeny => assert(s[1] == b),
        Bundle::DefaultAllow => assert(s[2] == b),
        Bundle::EgressTuple => assert(s[3] == b),
        Bundle::AppDeny => assert(s[4] == b),
        Bundle::AppAllow => assert(s[5] == b),
        Bundle::MatchFields => assert(s[6] == b),
        Bundle::Detection => assert(s[7] == b),
        Bundle::Traffic => assert(s[8] == b),
        Bundle::Priority => assert(s[9] == b),
    }
}

/// No two cases of the catalog share an id.
pub proof fn lemma_case_ids_unique(i: int, j: int)
    requires
        0 <= i < catalog().len(),
        0 <= j < catalog().len(),
        i != j,
    ensures
        catalog()[i].id != catalog()[j].id,
{
    reveal_strlit("ingress-tuple-pass");
    reveal_strlit("ingress-tuple-alert");
    reveal_strlit("ingress-tuple-block");
    reveal_strlit("ingress-tuple-blocksilent");
    reveal_strlit("default-deny-blocks");
    reveal_strlit("default-deny-carveout");
    reveal_strlit("default-allow");
    reveal_strlit("egress-tcp-block");
    reveal_strlit("egress-tcp-alert");
    reveal_strlit("egress-udp-block");
    reveal_strlit("app-policy-deny");
    reveal_strlit("app-policy-allow");
    reveal_strlit("match-sip-host");
    reveal_strlit("match-sip-cidr");
    reveal_strlit("match-dport-range-lo");
    reveal_strlit("match-dport-range-hi");
    reveal_strlit("match-dport-range-out");
    reveal_strlit("match-sport-range");
    reveal_strlit("match-proto-icmp");
    reveal_strlit("match-proto-any-tcp");
    reveal_strlit("match-proto-any-udp");
    reveal_strlit("detect-portscan-tcp");
    reveal_strlit("detect-portscan-udp");
    reveal_strlit("detect-portscan-tcp-fin");
    reveal_strlit("detect-conn-abnormal");
    reveal_strlit("detect-below-threshold");
    reveal_strlit("traffic-global");
    reveal_strlit("traffic-per-app");
    reveal_strlit("priority-later-wins");
    reveal_strlit("priority-control-pass");

    assert("ingress-tuple-pass"@.len() == 18);
    assert("ingress-tuple-alert"@.len() == 19 && "ingress-tuple-alert"@[0] == 'i' && "ingress-tuple-alert"@[14] == 'a');
    assert("ingress-tuple-block"@.len() == 19 && "ingress-tuple-block"@[0] == 'i' && "ingress-tuple-block"@[14] == 'b');
    assert("ingress-tuple-blocksilent"@.len() == 25);
    assert("default-deny-blocks"@.len() == 19 && "default-deny-blocks"@[0] == 'd' && "default-deny-blocks"@[2] == 'f');
    assert("default-deny-carveout"@.len() == 21 && "default-deny-carveout"@[0] == 'd');
    assert("default-allow"@.len() == 13);
    assert("egress-tcp-block"@.len() == 16 && "egress-tcp-block"@[0] == 'e' && "egress-tcp-block"@[7] == 't' && "egress-tcp-block"@[11] == 'b');
    assert("egress-tcp-alert"@.len() == 16 && "egress-tcp-alert"@[0] == 'e' && "egress-tcp-alert"@[7] == 't' && "egress-tcp-alert"@[11] == 'a');
    assert("egress-udp-block"@.len() == 16 && "egress-udp-block"@[0] == 'e' && "egress-udp-block"@[7] == 'u');
    assert("app-policy-deny"@.len() == 15 && "app-policy-deny"@[0] == 'a');
    assert("app-policy-allow"@.len() == 16 && "app-policy-allow"@[0] == 'a');
    assert("match-sip-host"@.len() == 14 && "match-sip-host"@[0] == 'm' && "match-sip-host"@[10] == 'h');
    assert("match-sip-cidr"@.len() == 14 && "match-sip-cidr"@[0] == 'm' && "match-sip-cidr"@[10] == 'c');
    assert("match-dport-range-lo"@.len() == 20 && "match-dport-range-lo"@[0] == 'm' && "match-dport-range-lo"@[18] == 'l');
    assert("match-dport-range-hi"@.len() == 20 && "match-dport-range-hi"@[0] == 'm' && "match-dport-range-hi"@[18] == 'h');
    assert("match-dport-range-out"@.len() == 21 && "match-dport-range-out"@[0] == 'm');
    assert("match-sport-range"@.len() == 17);
    assert("match-proto-icmp"@.len() == 16 && "match-proto-icmp"@[0] == 'm');
    assert("match-proto-any-tcp"@.len() == 19 && "match-proto-any-tcp"@[0] == 'm' && "match-proto-any-tcp"@[16] == 't');
    assert("match-proto-any-udp"@.len() == 19 && "match-proto-any-udp"@[0] == 'm' && "match-proto-any-udp"@[16] == 'u');
    assert("detect-portscan-tcp"@.len() == 19 && "detect-portscan-tcp"@[0] == 'd' && "detect-portscan-tcp"@[2] == 't' && "detect-portscan-tcp"@[16] == 't');
    assert("detect-portscan-udp"@.len() == 19 && "detect-portscan-udp"@[0] == 'd' && "detect-portscan-udp"@[2] == 't' && "detect-portscan-udp"@[16] == 'u');
    assert("detect-portscan-tcp-fin"@.len() == 23);
    assert("detect-conn-abnormal"@.len() == 20 && "detect-conn-abnormal"@[0] == 'd');
    assert("detect-below-threshold"@.len() == 22);
    assert("traffic-global"@.len() == 14 && "traffic-global"@[0] == 't');
    assert("traffic-per-app"@.len() == 15 && "traffic-per-app"@[0] == 't');
    assert("priority-later-wins"@.len() == 19 && "priority-later-wins"@[0] == 'p');
    assert("priority-control-pass"@.len() == 21 && "priority-control-pass"@[0] == 'p');

}

/// Look up a case by id.
pub fn case_by_id(id: &str) -> (r: Option<FwCase>)
    ensures
        match r {
            Some(c) => exists|i: int| 0 <= i < catalog().len() && catalog()[i] == c@ && c@.id == id@,
            None => forall|i: int| 0 <= i < catalog().len() ==> catalog()[i].id != id@,
        },
{
    let mut cases = all_cases();
    let mut i: usize = 0;
    while i < cases.len()
        invariant
            i <= cases.len(),
            cases_view(cases@) == catalog(),
            forall|k: int| 0 <= k < i ==> catalog()[k].id != id@,
        decreases cases.len() - i,
    {
        if str_eq(cases[i].id, id) {
            let ghost v = cases[i as int]@;
            assert(catalog()[i as int] == v);
            let c = cases.remove(i);
            return Some(c);
        }
        i = i + 1;
    }
    None
}


fn copy_ports(v: &Vec<u16>) -> (r: Vec<u16>)
    ensures
        r@ == v@,
{
    let mut r: Vec<u16> = Vec::new();
    let mut i: usize = 0;
    while i < v.len()
        invariant
            i <= v.len(),
            r@ == v@.take(i as int),
        decreases v.len() - i,
    {
        r.push(v[i]);
        assert(r@ =~= v@.take(i + 1));
        i = i + 1;
    }
    assert(v@.take(v.len() as int) =~= v@);
    r
}

impl TrafficKind {
    /// A copy of this traffic kind.
    pub fn copy(&self) -> (r: TrafficKind)
        ensures
            r@ == self@,
    {
        match self {
            TrafficKind::Tcp { dport } => TrafficKind::Tcp { dport: *dport },
            TrafficKind::Icmp => TrafficKind::Icmp,
            TrafficKind::Udp { dport, await_reply } => TrafficKind::Udp {
                dport: *dport,
                await_reply: *await_reply,
            },
            TrafficKind::TcpScan { dports } => TrafficKind::TcpScan { dports: copy_ports(dports) },
            TrafficKind::UdpScan { dports } => TrafficKind::UdpScan { dports: copy_ports(dports) },
            TrafficKind::TcpBurst { dport, count } => TrafficKind::TcpBurst {
                dport: *dport,
                count: *count,
            },
            TrafficKind::UdpVolume { dport, count } => TrafficKind::UdpVolume {
                dport: *dport,
                count: *count,
            },
            TrafficKind::TcpFinScan { dports } => TrafficKind::TcpFinScan {
                dports: copy_ports(dports),
            },
        }
    }
}

impl FwCase {
    /// A copy of this case.
    pub fn copy(&self) -> (r: FwCase)
        ensures
            r@ == self@,
    {
        let mut listen: Vec<Listen> = Vec::new();
        let mut i: usize = 0;
        while i < self.listen.len()
            invariant
                i <= self.listen.len(),
                listen@.map_values(|l: Listen| l@) == self.listen@.take(i as int).map_values(
                    |l: Listen| l@,
                ),
            decreases self.listen.len() - i,
        {
            let l = &self.listen[i];
            let copied = Listen { side: l.side, proto: l.proto, port: l.port };
            assert(copied@ == self.listen@[i as int]@);
            let ghost before = listen@;
            listen.push(copied);
            assert(listen@.map_values(|l: Listen| l@) =~= before.map_values(|l: Listen| l@).push(
                copied@,
            ));
            assert(self.listen@.take(i + 1).map_values(|l: Listen| l@) =~= self.listen@.take(
                i as int,
            ).map_values(|l: Listen| l@).push(self.listen@[i as int]@));
            assert(listen@.map_values(|l: Listen| l@) =~= self.listen@.take(i + 1).map_values(
                |l: Listen| l@,
            ));
            i = i + 1;
        }
        assert(self.listen@.take(self.listen.len() as int) =~= self.listen@);
        let expect_event = match &self.expect_event {
            Some(e) => Some(
                ExpectEvent {
                    kind: e.kind,
                    action: e.action,
                    proto: e.proto,
                    rule_id: e.rule_id,
                    match_dport: e.match_dport,
                    detail: e.detail,
                },
            ),
            None => None,
        };
        let r = FwCase {
            id: self.id,
            group: self.group,
            bundle: self.bundle,
            origin: self.origin,
            uid: self.uid,
            sport: self.sport,
            listen,
            traffic: self.traffic.copy(),
            expect_enforce: self.expect_enforce,
            expect_event,
            skip: self.skip,
            notes: self.notes,
        };
        assert(r@ =~= self@);
        r
    }
}


/// A tuple rule line.
pub open spec fn tuple_line(sip: Seq<char>, dip: Seq<char>, dport: Seq<char>, proto: Seq<char>, action: Seq<char>, chain: Seq<char>) -> Seq<char> {
    "sip="@ + sip + ",dip="@ + dip + ",dport="@ + dport + ",proto="@ + proto + ",action="@ + action
        + ",chain="@ + chain
}

/// An app-policy rule line.
pub open spec fn prog_line(key: Seq<char>, action: Seq<char>) -> Seq<char> {
    "prog="@ + key + ",action="@ + action
}

/// The default-policy rule line with `action`.
pub open spec fn default_line(action: Seq<char>) -> Seq<char> {
    "chain=localin,action="@ + action
}

/// The firewall rule lines (fun=1) of a bundle for the live addresses: the
/// PEER `p`, the TARGET `t`, the PEER's network `n` and the app identity
/// key `k`. No blank or comment lines, so a tuple rule's `rule_id` is its
/// 1-based line number; later lines rank higher.
pub open spec fn firewall_lines(bundle: Bundle, p: Seq<char>, t: Seq<char>, n: Seq<char>, k: Seq<char>) -> Seq<Seq<char>> {
    match bundle {
        Bundle::IngressTuple => seq![
            default_line("P"@),
            tuple_line(p, t, "5001"@, "tcp"@, "P"@, "localin"@),
            tuple_line(p, t, "5002"@, "tcp"@, "LP"@, "localin"@),
            tuple_line(p, t, "5003"@, "tcp"@, "LD"@, "localin"@),
            tuple_line(p, t, "5004"@, "tcp"@, "NLD"@, "localin"@),
        ],
        Bundle::DefaultDeny => seq![
            default_line("LD"@),
            tuple_line(p, t, "5101"@, "tcp"@, "P"@, "localin"@),
        ],
        Bundle::DefaultAllow => seq![default_line("P"@)],
        Bundle::EgressTuple => seq![
            default_line("P"@),
            tuple_line(t, p, "6001"@, "tcp"@, "LD"@, "output"@),
            tuple_line(t, p, "6002"@, "tcp"@, "LP"@, "output"@),
            tuple_line(t, p, "6003"@, "udp"@, "LD"@, "output"@),
        ],
        Bundle::AppDeny => seq![default_line("P"@), prog_line(k, "LD"@)],
        Bundle::AppAllow => seq![default_line("P"@), prog_line(k, "LP"@)],
        Bundle::MatchFields => seq![
            default_line("P"@),
            tuple_line(p + "/32"@, t, "7001"@, "tcp"@, "LD"@, "localin"@),
            tuple_line(n, t, "7002"@, "tcp"@, "LD"@, "localin"@),
            tuple_line("*"@, t, "7100-7110"@, "tcp"@, "LD"@, "localin"@),
            "sip=*,sport=8000-8005,dip="@ + t + ",dport=7200,proto=udp,action=LD,chain=localin"@,
            "sip=*,dip="@ + t + ",proto=icmp,action=LD,chain=localin"@,
            tuple_line("*"@, t, "7300"@, "*"@, "LD"@, "localin"@),
        ],
        Bundle::Detection => seq![default_line("LD"@)],
        Bundle::Priority => seq![
            default_line("P"@),
            tuple_line(p, t, "8001"@, "tcp"@, "P"@, "localin"@),
            tuple_line(p, t, "8001"@, "tcp"@, "LD"@, "localin"@),
            tuple_line(p, t, "8002"@, "tcp"@, "P"@, "localin"@),
        ],
        Bundle::Traffic => seq![
            default_line("P"@),
            prog_line(k, "LP"@),
            tuple_line(p, t, "5301"@, "udp"@, "P"@, "localin"@),
        ],
    }
}

/// Lines, each ended by a newline.
pub open spec fn lines_text(lines: Seq<Seq<char>>) -> Seq<char>
    decreases lines.len(),
{
    if lines.len() == 0 {
        Seq::empty()
    } else {
        lines_text(lines.drop_last()) + lines.last() + seq!['\n']
    }
}

/// The views of a vector of strings.
pub open spec fn line_views(v: Seq<String>) -> Seq<Seq<char>> {
    v.map_values(|s: String| s@)
}

fn join_lines(lines: &Vec<String>) -> (s: String)
    ensures
        s@ == lines_text(line_views(lines@)),
{
    let ghost all = line_views(lines@);
    let mut s = String::new();
    let mut i: usize = 0;
    while i < lines.len()
        invariant
            i <= lines.len(),
            all == line_views(lines@),
            s@ == lines_text(all.take(i as int)),
        decreases lines.len() - i,
    {
        assert(all.take(i + 1).drop_last() =~= all.take(i as int));
        crate::text::push_str(&mut s, lines[i].as_str());
        crate::text::push_char(&mut s, '\n');
        assert(s@ =~= lines_text(all.take(i + 1)));
        i = i + 1;
    }
    assert(all.take(lines.len() as int) =~= all);
    s
}

fn tuple(sip: &str, dip: &str, dport: &str, proto: &str, action: &str, chain: &str) -> (s: String)
    ensures
        s@ == tuple_line(sip@, dip@, dport@, proto@, action@, chain@),
{
    let mut s = "sip=".to_string();
    crate::text::push_str(&mut s, sip);
    crate::text::push_str(&mut s, ",dip=");
    crate::text::push_str(&mut s, dip);
    crate::text::push_str(&mut s, ",dport=");
    crate::text::push_str(&mut s, dport);
    crate::text::push_str(&mut s, ",proto=");
    crate::text::push_str(&mut s, proto);
    crate::text::push_str(&mut s, ",action=");
    crate::text::push_str(&mut s, action);
    crate::text::push_str(&mut s, ",chain=");
    crate::text::push_str(&mut s, chain);
    s
}

fn prog(key: &str, action: &str) -> (s: String)
    ensures
        s@ == prog_line(key@, action@),
{
    let mut s = "prog=".to_string();
    crate::text::push_str(&mut s, key);
    crate::text::push_str(&mut s, ",action=");
    crate::text::push_str(&mut s, action);
    s
}

fn default_rule(action: &str) -> (s: String)
    ensures
        s@ == default_line(action@),
{
    let mut s = "chain=localin,action=".to_string();
    crate::text::push_str(&mut s, action);
    s
}

/// The firewall rule lines of a bundle for the given address texts.
fn bundle_lines(bundle: Bundle, p: &str, t: &str, n: &str, k: &str) -> (v: Vec<String>)
    ensures
        line_views(v@) == firewall_lines(bundle, p@, t@, n@, k@),
{
    let v = match bundle {
        Bundle::IngressTuple => vec![
            default_rule("P"),
            tuple(p, t, "5001", "tcp", "P", "localin"),
            tuple(p, t, "5002", "tcp", "LP", "localin"),
            tuple(p, t, "5003", "tcp", "LD", "localin"),
            tuple(p, t, "5004", "tcp", "NLD", "localin"),
        ],
        Bundle::DefaultDeny => vec![default_rule("LD"), tuple(p, t, "5101", "tcp", "P", "localin")],
        Bundle::DefaultAllow => vec![default_rule("P")],
        Bundle::EgressTuple => vec![
            default_rule("P"),
            tuple(t, p, "6001", "tcp", "LD", "output"),
            tuple(t, p, "6002", "tcp", "LP", "output"),
            tuple(t, p, "6003", "udp", "LD", "output"),
        ],
        Bundle::AppDeny => vec![default_rule("P"), prog(k, "LD")],
        Bundle::AppAllow => vec![default_rule("P"), prog(k, "LP")],
        Bundle::MatchFields => {
            let mut host = p.to_string();
            crate::text::push_str(&mut host, "/32");
            let mut sport_rule = "sip=*,sport=8000-8005,dip=".to_string();
            crate::text::push_str(&mut sport_rule, t);
            crate::text::push_str(&mut sport_rule, ",dport=7200,proto=udp,action=LD,chain=localin");
            let mut icmp_rule = "sip=*,dip=".to_string();
            crate::text::push_str(&mut icmp_rule, t);
            crate::text::push_str(&mut icmp_rule, ",proto=icmp,action=LD,chain=localin");
            vec![
                default_rule("P"),
                tuple(host.as_str(), t, "7001", "tcp", "LD", "localin"),
                tuple(n, t, "7002", "tcp", "LD", "localin"),
                tuple("*", t, "7100-7110", "tcp", "LD", "localin"),
                sport_rule,
                icmp_rule,
                tuple("*", t, "7300", "*", "LD", "localin"),
            ]
        },
        Bundle::Detection => vec![default_rule("LD")],
        Bundle::Priority => vec![
            default_rule("P"),
            tuple(p, t, "8001", "tcp", "P", "localin"),
            tuple(p, t, "8001", "tcp", "LD", "localin"),
            tuple(p, t, "8002", "tcp", "P", "localin"),
        ],
        Bundle::Traffic => vec![
            default_rule("P"),
            prog(k, "LP"),
            tuple(p, t, "5301", "udp", "P", "localin"),
        ],
    };
    assert(line_views(v@) =~= firewall_lines(bundle, p@, t@, n@, k@));
    v
}

/// Firewall rule text (fun=1) for a bundle, rendered for the live IPs:
/// each rule line ended by a newline.
pub fn firewall_text(bundle: Bundle, cfg: &RunConfig) -> (s: String)
    ensures
        s@ == lines_text(
            firewall_lines(
                bundle,
                ip_text(cfg.peer_ip),
                ip_text(cfg.target_ip),
                slash24_of(cfg.peer_ip),
                cfg.app_identity_key@,
            ),
        ),
{
    let peer = cfg.peer_ip.to_text();
    let target = cfg.target_ip.to_text();
    let peer24 = cfg.peer_slash24();
    let lines = bundle_lines(bundle, peer.as_str(), target.as_str(), peer24.as_str(), cfg.app_identity_key.as_str());
    join_lines(&lines)
}


/// Whether `line` is the tuple rule for destination port `dport` over
/// `proto`.
pub open spec fn is_port_rule(line: Seq<char>, dport: u16, proto: Seq<char>) -> bool {
    exists|sip: Seq<char>, dip: Seq<char>, action: Seq<char>, chain: Seq<char>|
        line == #[trigger] tuple_line(sip, dip, crate::text::dec16(dport), proto, action, chain)
}

/// A case that expects an event carrying a rule id for a given port names
/// that rule by its line: line `rule_id` (counted from 1) of its bundle's
/// firewall text is the tuple rule for the expected port and protocol,
/// whatever the live addresses and app key are.
pub proof fn lemma_rule_id_is_line_number(i: int, p: Seq<char>, t: Seq<char>, n: Seq<char>, k: Seq<char>)
    requires
        0 <= i < catalog().len(),
        catalog()[i].expect_event is Some,
        catalog()[i].expect_event.unwrap().rule_id is Some,
        catalog()[i].expect_event.unwrap().match_dport is Some,
    ensures
        ({
            let c = catalog()[i];
            let e = c.expect_event.unwrap();
            let r = e.rule_id.unwrap();
            let lines = firewall_lines(c.bundle, p, t, n, k);
            1 <= r <= lines.len() && is_port_rule(lines[r - 1], e.match_dport.unwrap(), e.proto)
        }),
{
    let c = catalog()[i];
    reveal_with_fuel(crate::text::dec, 5);
    reveal_strlit("6001");
    reveal_strlit("6003");
    assert(crate::text::dec16(6001) =~= "6001"@);
    assert(crate::text::dec16(6003) =~= "6003"@);
    if i == 7 {
        let lines = firewall_lines(c.bundle, p, t, n, k);
        assert(lines[1] == tuple_line(t, p, crate::text::dec16(6001), "tcp"@, "LD"@, "output"@));
    } else if i == 9 {
        let lines = firewall_lines(c.bundle, p, t, n, k);
        assert(lines[3] == tuple_line(t, p, crate::text::dec16(6003), "udp"@, "LD"@, "output"@));
    } else {
        assert(c.expect_event is None || c.expect_event.unwrap().rule_id is None);
    }
}


/// Whether `s` holds no newline.
pub open spec fn newline_free(s: Seq<char>) -> bool {
    forall|i: int| 0 <= i < s.len() ==> s[i] != '\n'
}

/// Whether `line` can stand as one line of rule text: not empty, not a
/// `#` comment, and without a newline of its own.
pub open spec fn rule_line_ok(line: Seq<char>) -> bool {
    line.len() > 0 && line[0] != '#' && newline_free(line)
}

proof fn lemma_newline_free_add(a: Seq<char>, b: Seq<char>)
    requires
        newline_free(a),
        newline_free(b),
    ensures
        newline_free(a + b),
{
    assert forall|i: int| 0 <= i < (a + b).len() implies (a + b)[i] != '\n' by {
        if i < a.len() {
            assert((a + b)[i] == a[i]);
        } else {
            assert((a + b)[i] == b[i - a.len()]);
        }
    }
}

proof fn lemma_literal_clean(s: Seq<char>)
    requires
        s == "P"@ || s == "LP"@ || s == "LD"@ || s == "NLD"@ || s == "tcp"@ || s == "udp"@
            || s == "*"@ || s == "localin"@ || s == "output"@ || s == "/32"@ || s == "5001"@
            || s == "5002"@ || s == "5003"@ || s == "5004"@ || s == "5101"@ || s == "6001"@
            || s == "6002"@ || s == "6003"@ || s == "7001"@ || s == "7002"@ || s == "7100-7110"@
            || s == "7300"@ || s == "8001"@ || s == "8002"@ || s == "5301"@,
    ensures
        newline_free(s),
{
    reveal_strlit("P");
    reveal_strlit("LP");
    reveal_strlit("LD");
    reveal_strlit("NLD");
    reveal_strlit("tcp");
    reveal_strlit("udp");
    reveal_strlit("*");
    reveal_strlit("localin");
    reveal_strlit("output");
    reveal_strlit("/32");
    reveal_strlit("5001");
    reveal_strlit("5002");
    reveal_strlit("5003");
    reveal_strlit("5004");
    reveal_strlit("5101");
    reveal_strlit("6001");
    reveal_strlit("6002");
    reveal_strlit("6003");
    reveal_strlit("7001");
    reveal_strlit("7002");
    reveal_strlit("7100-7110");
    reveal_strlit("7300");
    reveal_strlit("8001");
    reveal_strlit("8002");
    reveal_strlit("5301");
}

proof fn lemma_tuple_line_ok(
    sip: Seq<char>,
    dip: Seq<char>,
    dport: Seq<char>,
    proto: Seq<char>,
    action: Seq<char>,
    chain: Seq<char>,
)
    requires
        newline_free(sip),
        newline_free(dip),
        newline_free(dport),
        newline_free(proto),
        newline_free(action),
        newline_free(chain),
    ensures
        rule_line_ok(tuple_line(sip, dip, dport, proto, action, chain)),
{
    reveal_strlit("sip=");
    reveal_strlit(",dip=");
    reveal_strlit(",dport=");
    reveal_strlit(",proto=");
    reveal_strlit(",action=");
    reveal_strlit(",chain=");
    let a = "sip="@ + sip;
    lemma_newline_free_add("sip="@, sip);
    lemma_newline_free_add(a, ",dip="@);
    let a = a + ",dip="@;
    lemma_newline_free_add(a, dip);
    let a = a + dip;
    lemma_newline_free_add(a, ",dport="@);
    let a = a + ",dport="@;
    lemma_newline_free_add(a, dport);
    let a = a + dport;
    lemma_newline_free_add(a, ",proto="@);
    let a = a + ",proto="@;
    lemma_newline_free_add(a, proto);
    let a = a + proto;
    lemma_newline_free_add(a, ",action="@);
    let a = a + ",action="@;
    lemma_newline_free_add(a, action);
    let a = a + action;
    lemma_newline_free_add(a, ",chain="@);
    let a = a + ",chain="@;
    lemma_newline_free_add(a, chain);
    let a = a + chain;
    assert(a == tuple_line(sip, dip, dport, proto, action, chain));
    assert(a[0] == 's');
}

proof fn lemma_prog_line_ok(key: Seq<char>, action: Seq<char>)
    requires
        newline_free(key),
        newline_free(action),
    ensures
        rule_line_ok(prog_line(key, action)),
{
    reveal_strlit("prog=");
    reveal_strlit(",action=");
    lemma_newline_free_add("prog="@, key);
    lemma_newline_free_add("prog="@ + key, ",action="@);
    lemma_newline_free_add("prog="@ + key + ",action="@, action);
    assert(prog_line(key, action)[0] == 'p');
}

proof fn lemma_default_line_ok(action: Seq<char>)
    requires
        newline_free(action),
    ensures
        rule_line_ok(default_line(action)),
        "chain=localin,action="@.is_prefix_of(default_line(action)),
{
    reveal_strlit("chain=localin,action=");
    lemma_newline_free_add("chain=localin,action="@, action);
    assert(default_line(action)[0] == 'c');
    assert(default_line(action).subrange(0, 21) =~= "chain=localin,action="@);
}

proof fn lemma_lines_text_ends(lines: Seq<Seq<char>>)
    requires
        lines.len() > 0,
    ensures
        lines_text(lines).len() > 0,
        lines_text(lines).last() == '\n',
{
}

/// The firewall rule text of every bundle has the documented shape,
/// whatever the live addresses and app key (none of which holds a
/// newline): it is at least one line, each ended by a newline; no line is
/// empty, a `#` comment, or holds a newline of its own; and the first line
/// is the default inbound policy `chain=localin,action=...`.
pub proof fn lemma_rule_text_shape(b: Bundle, p: Seq<char>, t: Seq<char>, n: Seq<char>, k: Seq<char>)
    requires
        newline_free(p),
        newline_free(t),
        newline_free(n),
        newline_free(k),
    ensures
        ({
            let lines = firewall_lines(b, p, t, n, k);
            &&& lines.len() >= 1
            &&& forall|j: int| 0 <= j < lines.len() ==> rule_line_ok(#[trigger] lines[j])
            &&& "chain=localin,action="@.is_prefix_of(lines[0])
            &&& lines_text(lines).len() > 0
            &&& lines_text(lines).last() == '\n'
        }),
{
    let lines = firewall_lines(b, p, t, n, k);
    lemma_literal_clean("P"@);
    lemma_literal_clean("LP"@);
    lemma_literal_clean("LD"@);
    lemma_literal_clean("NLD"@);
    lemma_literal_clean("tcp"@);
    lemma_literal_clean("udp"@);
    lemma_literal_clean("*"@);
    lemma_literal_clean("localin"@);
    lemma_literal_clean("output"@);
    lemma_default_line_ok("P"@);
    lemma_default_line_ok("LD"@);
    match b {
        Bundle::IngressTuple => {
            lemma_literal_clean("5001"@);
            lemma_literal_clean("5002"@);
            lemma_literal_clean("5003"@);
            lemma_literal_clean("5004"@);
            lemma_tuple_line_ok(p, t, "5001"@, "tcp"@, "P"@, "localin"@);
            lemma_tuple_line_ok(p, t, "5002"@, "tcp"@, "LP"@, "localin"@);
            lemma_tuple_line_ok(p, t, "5003"@, "tcp"@, "LD"@, "localin"@);
            lemma_tuple_line_ok(p, t, "5004"@, "tcp"@, "NLD"@, "localin"@);
        },
        Bundle::DefaultDeny => {
            lemma_literal_clean("5101"@);
            lemma_tuple_line_ok(p, t, "5101"@, "tcp"@, "P"@, "localin"@);
        },
        Bundle::DefaultAllow => {},
        Bundle::EgressTuple => {
            lemma_literal_clean("6001"@);
            lemma_literal_clean("6002"@);
            lemma_literal_clean("6003"@);
            lemma_tuple_line_ok(t, p, "6001"@, "tcp"@, "LD"@, "output"@);
            lemma_tuple_line_ok(t, p, "6002"@, "tcp"@, "LP"@, "output"@);
            lemma_tuple_line_ok(t, p, "6003"@, "udp"@, "LD"@, "output"@);
        },
        Bundle::AppDeny => {
            lemma_prog_line_ok(k, "LD"@);
        },
        Bundle::AppAllow => {
            lemma_prog_line_ok(k, "LP"@);
        },
        Bundle::MatchFields => {
            lemma_literal_clean("/32"@);
            lemma_literal_clean("7001"@);
            lemma_literal_clean("7002"@);
            lemma_literal_clean("7100-7110"@);
            lemma_literal_clean("7300"@);
            lemma_newline_free_add(p, "/32"@);
            lemma_tuple_line_ok(p + "/32"@, t, "7001"@, "tcp"@, "LD"@, "localin"@);
            lemma_tuple_line_ok(n, t, "7002"@, "tcp"@, "LD"@, "localin"@);
            lemma_tuple_line_ok("*"@, t, "7100-7110"@, "tcp"@, "LD"@, "localin"@);
            lemma_tuple_line_ok("*"@, t, "7300"@, "*"@, "LD"@, "localin"@);
            reveal_strlit("sip=*,sport=8000-8005,dip=");
            reveal_strlit(",dport=7200,proto=udp,action=LD,chain=localin");
            reveal_strlit("sip=*,dip=");
            reveal_strlit(",proto=icmp,action=LD,chain=localin");
            lemma_newline_free_add("sip=*,sport=8000-8005,dip="@, t);
            lemma_newline_free_add(
                "sip=*,sport=8000-8005,dip="@ + t,
                ",dport=7200,proto=udp,action=LD,chain=localin"@,
            );
            lemma_newline_free_add("sip=*,dip="@, t);
            lemma_newline_free_add("sip=*,dip="@ + t, ",proto=icmp,action=LD,chain=localin"@);
            assert(lines[4][0] == 's');
            assert(lines[5][0] == 's');
        },
        Bundle::Detection => {},
        Bundle::Priority => {
            lemma_literal_clean("8001"@);
            lemma_literal_clean("8002"@);
            lemma_tuple_line_ok(p, t, "8001"@, "tcp"@, "P"@, "localin"@);
            lemma_tuple_line_ok(p, t, "8001"@, "tcp"@, "LD"@, "localin"@);
            lemma_tuple_line_ok(p, t, "8002"@, "tcp"@, "P"@, "localin"@);
        },
        Bundle::Traffic => {
            lemma_literal_clean("5301"@);
            lemma_prog_line_ok(k, "LP"@);
            lemma_tuple_line_ok(p, t, "5301"@, "udp"@, "P"@, "localin"@);
        },
    }
    lemma_lines_text_ends(lines);
}

/// The rule text of each bundle is the documented one, line for line, for
/// any live addresses: PEER `p`, TARGET `t`, the PEER's network `n` and the
/// app identity key `k`. For the inbound tuple bundle that is the default
/// `chain=localin,action=P` and then the PEER-to-TARGET TCP rules for ports
/// 5001 (P), 5002 (LP), 5003 (LD) and 5004 (NLD).
pub proof fn lemma_rule_text_documented(b: Bundle, p: Seq<char>, t: Seq<char>, n: Seq<char>, k: Seq<char>)
    ensures
        b == Bundle::IngressTuple ==> firewall_lines(b, p, t, n, k) == seq![
                "chain=localin,action=P"@,
                "sip="@ + p + ",dip="@ + t + ",dport=5001,proto=tcp,action=P,chain=localin"@,
                "sip="@ + p + ",dip="@ + t + ",dport=5002,proto=tcp,action=LP,chain=localin"@,
                "sip="@ + p + ",dip="@ + t + ",dport=5003,proto=tcp,action=LD,chain=localin"@,
                "sip="@ + p + ",dip="@ + t + ",dport=5004,proto=tcp,action=NLD,chain=localin"@,
            ],
        b == Bundle::DefaultDeny ==> firewall_lines(b, p, t, n, k) == seq![
                "chain=localin,action=LD"@,
                "sip="@ + p + ",dip="@ + t + ",dport=5101,proto=tcp,action=P,chain=localin"@,
            ],
        b == Bundle::DefaultAllow ==> firewall_lines(b, p, t, n, k) == seq![
                "chain=localin,action=P"@,
            ],
        b == Bundle::EgressTuple ==> firewall_lines(b, p, t, n, k) == seq![
                "chain=localin,action=P"@,
                "sip="@ + t + ",dip="@ + p + ",dport=6001,proto=tcp,action=LD,chain=output"@,
                "sip="@ + t + ",dip="@ + p + ",dport=6002,proto=tcp,action=LP,chain=output"@,
                "sip="@ + t + ",dip="@ + p + ",dport=6003,proto=udp,action=LD,chain=output"@,
            ],
        b == Bundle::AppDeny ==> firewall_lines(b, p, t, n, k) == seq![
                "chain=localin,action=P"@,
                "prog="@ + k + ",action=LD"@,
            ],
        b == Bundle::AppAllow ==> firewall_lines(b, p, t, n, k) == seq![
                "chain=localin,action=P"@,
                "prog="@ + k + ",action=LP"@,
            ],
        b == Bundle::MatchFields ==> firewall_lines(b, p, t, n, k) == seq![
                "chain=localin,action=P"@,
                "sip="@ + p + "/32,dip="@ + t + ",dport=7001,proto=tcp,action=LD,chain=localin"@,
                "sip="@ + n + ",dip="@ + t + ",dport=7002,proto=tcp,action=LD,chain=localin"@,
                "sip=*,dip="@ + t + ",dport=7100-7110,proto=tcp,action=LD,chain=localin"@,
                "sip=*,sport=8000-8005,dip="@ + t + ",dport=7200,proto=udp,action=LD,chain=localin"@,
                "sip=*,dip="@ + t + ",proto=icmp,action=LD,chain=localin"@,
                "sip=*,dip="@ + t + ",dport=7300,proto=*,action=LD,chain=localin"@,
            ],
        b == Bundle::Detection ==> firewall_lines(b, p, t, n, k) == seq![
                "chain=localin,action=LD"@,
            ],
        b == Bundle::Priority ==> firewall_lines(b, p, t, n, k) == seq![
                "chain=localin,action=P"@,
                "sip="@ + p + ",dip="@ + t + ",dport=8001,proto=tcp,action=P,chain=localin"@,
                "sip="@ + p + ",dip="@ + t + ",dport=8001,proto=tcp,action=LD,chain=localin"@,
                "sip="@ + p + ",dip="@ + t + ",dport=8002,proto=tcp,action=P,chain=localin"@,
            ],
        b == Bundle::Traffic ==> firewall_lines(b, p, t, n, k) == seq![
                "chain=localin,action=P"@,
                "prog="@ + k + ",action=LP"@,
                "sip="@ + p + ",dip="@ + t + ",dport=5301,proto=udp,action=P,chain=localin"@,
            ],
{
    reveal_strlit("*");
    reveal_strlit(",action=");
    reveal_strlit(",action=LD");
    reveal_strlit(",action=LP");
    reveal_strlit(",chain=");
    reveal_strlit(",dip=");
    reveal_strlit(",dport=");
    reveal_strlit(",dport=5001,proto=tcp,action=P,chain=localin");
    reveal_strlit(",dport=5002,proto=tcp,action=LP,chain=localin");
    reveal_strlit(",dport=5003,proto=tcp,action=LD,chain=localin");
    reveal_strlit(",dport=5004,proto=tcp,action=NLD,chain=localin");
    reveal_strlit(",dport=5101,proto=tcp,action=P,chain=localin");
    reveal_strlit(",dport=5301,proto=udp,action=P,chain=localin");
    reveal_strlit(",dport=6001,proto=tcp,action=LD,chain=output");
    reveal_strlit(",dport=6002,proto=tcp,action=LP,chain=output");
    reveal_strlit(",dport=6003,proto=udp,action=LD,chain=output");
    reveal_strlit(",dport=7001,proto=tcp,action=LD,chain=localin");
    reveal_strlit(",dport=7002,proto=tcp,action=LD,chain=localin");
    reveal_strlit(",dport=7100-7110,proto=tcp,action=LD,chain=localin");
    reveal_strlit(",dport=7200,proto=udp,action=LD,chain=localin");
    reveal_strlit(",dport=7300,proto=*,action=LD,chain=localin");
    reveal_strlit(",dport=8001,proto=tcp,action=LD,chain=localin");
    reveal_strlit(",dport=8001,proto=tcp,action=P,chain=localin");
    reveal_strlit(",dport=8002,proto=tcp,action=P,chain=localin");
    reveal_strlit(",proto=");
    reveal_strlit(",proto=icmp,action=LD,chain=localin");
    reveal_strlit("/32");
    reveal_strlit("/32,dip=");
    reveal_strlit("5001");
    reveal_strlit("5002");
    reveal_strlit("5003");
    reveal_strlit("5004");
    reveal_strlit("5101");
    reveal_strlit("5301");
    reveal_strlit("6001");
    reveal_strlit("6002");
    reveal_strlit("6003");
    reveal_strlit("7001");
    reveal_strlit("7002");
    reveal_strlit("7100-7110");
    reveal_strlit("7300");
    reveal_strlit("8001");
    reveal_strlit("8002");
    reveal_strlit("LD");
    reveal_strlit("LP");
    reveal_strlit("NLD");
    reveal_strlit("P");
    reveal_strlit("chain=localin,action=");
    reveal_strlit("chain=localin,action=LD");
    reveal_strlit("chain=localin,action=P");
    reveal_strlit("localin");
    reveal_strlit("output");
    reveal_strlit("prog=");
    reveal_strlit("sip=");
    reveal_strlit("sip=*,dip=");
    reveal_strlit("sip=*,sport=8000-8005,dip=");
    reveal_strlit("tcp");
    reveal_strlit("udp");
    let lines = firewall_lines(b, p, t, n, k);
    match b {
        Bundle::IngressTuple => {
            assert(lines[0] =~= "chain=localin,action=P"@);
            assert(lines[1] =~= "sip="@ + p + ",dip="@ + t + ",dport=5001,proto=tcp,action=P,chain=localin"@);
            assert(lines[2] =~= "sip="@ + p + ",dip="@ + t + ",dport=5002,proto=tcp,action=LP,chain=localin"@);
            assert(lines[3] =~= "sip="@ + p + ",dip="@ + t + ",dport=5003,proto=tcp,action=LD,chain=localin"@);
            assert(lines[4] =~= "sip="@ + p + ",dip="@ + t + ",dport=5004,proto=tcp,action=NLD,chain=localin"@);
        },
        Bundle::DefaultDeny => {
            assert(lines[0] =~= "chain=localin,action=LD"@);
            assert(lines[1] =~= "sip="@ + p + ",dip="@ + t + ",dport=5101,proto=tcp,action=P,chain=localin"@);
        },
        Bundle::DefaultAllow => {
            assert(lines[0] =~= "chain=localin,action=P"@);
        },
        Bundle::EgressTuple => {
            assert(lines[0] =~= "chain=localin,action=P"@);
            assert(lines[1] =~= "sip="@ + t + ",dip="@ + p + ",dport=6001,proto=tcp,action=LD,chain=output"@);
            assert(lines[2] =~= "sip="@ + t + ",dip="@ + p + ",dport=6002,proto=tcp,action=LP,chain=output"@);
            assert(lines[3] =~= "sip="@ + t + ",dip="@ + p + ",dport=6003,proto=udp,action=LD,chain=output"@);
        },
        Bundle::AppDeny => {
            assert(lines[0] =~= "chain=localin,action=P"@);
            assert(lines[1] =~= "prog="@ + k + ",action=LD"@);
        },
        Bundle::AppAllow => {
            assert(lines[0] =~= "chain=localin,action=P"@);
            assert(lines[1] =~= "prog="@ + k + ",action=LP"@);
        },
        Bundle::MatchFields => {
            assert(lines[0] =~= "chain=localin,action=P"@);
            assert(lines[1] =~= "sip="@ + p + "/32,dip="@ + t + ",dport=7001,proto=tcp,action=LD,chain=localin"@);
            assert(lines[2] =~= "sip="@ + n + ",dip="@ + t + ",dport=7002,proto=tcp,action=LD,chain=localin"@);
            assert(lines[3] =~= "sip=*,dip="@ + t + ",dport=7100-7110,proto=tcp,action=LD,chain=localin"@);
            assert(lines[4] =~= "sip=*,sport=8000-8005,dip="@ + t + ",dport=7200,proto=udp,action=LD,chain=localin"@);
            assert(lines[5] =~= "sip=*,dip="@ + t + ",proto=icmp,action=LD,chain=localin"@);
            assert(lines[6] =~= "sip=*,dip="@ + t + ",dport=7300,proto=*,action=LD,chain=localin"@);
        },
        Bundle::Detection => {
            assert(lines[0] =~= "chain=localin,action=LD"@);
        },
        Bundle::Priority => {
            assert(lines[0] =~= "chain=localin,action=P"@);
            assert(lines[1] =~= "sip="@ + p + ",dip="@ + t + ",dport=8001,proto=tcp,action=P,chain=localin"@);
            assert(lines[2] =~= "sip="@ + p + ",dip="@ + t + ",dport=8001,proto=tcp,action=LD,chain=localin"@);
            assert(lines[3] =~= "sip="@ + p + ",dip="@ + t + ",dport=8002,proto=tcp,action=P,chain=localin"@);
        },
        Bundle::Traffic => {
            assert(lines[0] =~= "chain=localin,action=P"@);
            assert(lines[1] =~= "prog="@ + k + ",action=LP"@);
            assert(lines[2] =~= "sip="@ + p + ",dip="@ + t + ",dport=5301,proto=udp,action=P,chain=localin"@);
        },
    }
}

} // verus!
