//! Traffic generation decisions: the outcome of each attempt, the tally and
//! its verdict, the destination ports of a run and what each attempt sends.

use vstd::prelude::*;

use crate::agent_cli::{IcmpKind, Proto, TrafficArgs};
use crate::net::{all_digits, digits_value, is_digit};
use crate::text::{chars_of, split_by, split_chars, string_of, trim, trim_chars, views};

verus! {

/// Result of a single attempt.
#[derive(Debug, Clone, Copy, PartialEq, Eq, Structural)]
pub enum Outcome {
    Success,
    Timeout,
    Refused,
    Denied,
    Sent,
    Other,
}

/// The kinds of socket error the traffic generator tells apart.
#[derive(Debug, Clone, Copy, PartialEq, Eq, Structural)]
pub enum IoErrorKind {
    TimedOut,
    WouldBlock,
    ConnectionRefused,
    PermissionDenied,
    Other,
}

/// The outcome a socket error stands for.
pub open spec fn outcome_of_error(kind: IoErrorKind) -> Outcome {
    match kind {
        IoErrorKind::TimedOut | IoErrorKind::WouldBlock => Outcome::Timeout,
        IoErrorKind::ConnectionRefused => Outcome::Refused,
        IoErrorKind::PermissionDenied => Outcome::Denied,
        IoErrorKind::Other => Outcome::Other,
    }
}

/// Classify a socket error: a timeout (or would-block) is a drop, a refusal
/// a closed port, a permission error a cgroup connect-hook policy deny.
pub fn classify_io(kind: IoErrorKind) -> (o: Outcome)
    ensures
        o == outcome_of_error(kind),
{
    match kind {
        IoErrorKind::TimedOut | IoErrorKind::WouldBlock => Outcome::Timeout,
        IoErrorKind::ConnectionRefused => Outcome::Refused,
        IoErrorKind::PermissionDenied => Outcome::Denied,
        IoErrorKind::Other => Outcome::Other,
    }
}

/// Counts of attempt outcomes.
#[derive(Debug)]
pub struct Tally {
    pub success: u32,
    pub timeout: u32,
    pub refused: u32,
    pub denied: u32,
    pub sent: u32,
    pub other: u32,
}

/// The total number of attempts a tally holds.
pub open spec fn tally_total(t: Tally) -> int {
    t.success + t.timeout + t.refused + t.denied + t.sent + t.other
}

/// The verdict of a tally: a success means allowed; else a drop (timeout)
/// or a policy deny means blocked; else refused; else sent; else unknown.
pub open spec fn tally_verdict(t: Tally) -> Seq<char> {
    if t.success > 0 {
        "allowed"@
    } else if t.timeout > 0 || t.denied > 0 {
        "blocked"@
    } else if t.refused > 0 {
        "refused"@
    } else if t.sent > 0 {
        "sent"@
    } else {
        "unknown"@
    }
}

/// The count a tally keeps for `o`.
pub open spec fn tally_count(t: Tally, o: Outcome) -> u32 {
    match o {
        Outcome::Success => t.success,
        Outcome::Timeout => t.timeout,
        Outcome::Refused => t.refused,
        Outcome::Denied => t.denied,
        Outcome::Sent => t.sent,
        Outcome::Other => t.other,
    }
}

impl Default for Tally {
    fn default() -> (t: Tally)
        ensures
            t == (Tally { success: 0, timeout: 0, refused: 0, denied: 0, sent: 0, other: 0 }),
    {
        Tally { success: 0, timeout: 0, refused: 0, denied: 0, sent: 0, other: 0 }
    }
}

impl Tally {
    /// Count one attempt's outcome.
    pub fn record(&mut self, outcome: Outcome)
        requires
            tally_count(*old(self), outcome) < u32::MAX,
        ensures
            forall|o: Outcome| #[trigger]
                tally_count(*final(self), o) == if o == outcome {
                    tally_count(*old(self), o) + 1
                } else {
                    tally_count(*old(self), o) as int
                },
    {
        match outcome {
            Outcome::Success => self.success = self.success + 1,
            Outcome::Timeout => self.timeout = self.timeout + 1,
            Outcome::Refused => self.refused = self.refused + 1,
            Outcome::Denied => self.denied = self.denied + 1,
            Outcome::Sent => self.sent = self.sent + 1,
            Outcome::Other => self.other = self.other + 1,
        }
    }

    /// The number of attempts counted.
    pub fn attempts(&self) -> (n: u32)
        requires
            tally_total(*self) <= u32::MAX,
        ensures
            n == tally_total(*self),
    {
        self.success + self.timeout + self.refused + self.denied + self.sent + self.other
    }

    /// A drop (timeout) and a cgroup policy deny (EPERM) both mean enforced.
    pub fn verdict(&self) -> (v: &'static str)
        ensures
            v@ == tally_verdict(*self),
    {
        if self.success > 0 {
            "allowed"
        } else if self.timeout > 0 || self.denied > 0 {
            "blocked"
        } else if self.refused > 0 {
            "refused"
        } else if self.sent > 0 {
            "sent"
        } else {
            "unknown"
        }
    }
}

/// `s` without its leading `+`, if it has one.
pub open spec fn unsigned_part(s: Seq<char>) -> Seq<char> {
    if s.len() > 0 && s[0] == '+' {
        s.drop_first()
    } else {
        s
    }
}

/// The `u16` that `str::parse::<u16>` reads from `s`: an optional `+`, then
/// one or more ASCII digits whose value fits in 16 bits.
pub open spec fn parse_u16_spec(s: Seq<char>) -> Option<u16> {
    let d = unsigned_part(s);
    if d.len() > 0 && all_digits(d) && digits_value(d) <= 65535 {
        Some(digits_value(d) as u16)
    } else {
        None
    }
}

/// Parses a decimal `u16` as `str::parse::<u16>` does.
pub fn parse_u16(s: &Vec<char>) -> (r: Option<u16>)
    ensures
        r == parse_u16_spec(s@),
{
    let n = s.len();
    let start: usize = if n > 0 && s[0] == '+' { 1 } else { 0 };
    let ghost d = unsigned_part(s@);
    assert(d =~= s@.skip(start as int));
    if start >= n {
        return None;
    }
    let mut value: u32 = 0;
    let mut i: usize = start;
    while i < n
        invariant
            start <= i <= n,
            n == s@.len(),
            d == s@.skip(start as int),
            d == unsigned_part(s@),
            forall|k: int| 0 <= k < i - start ==> is_digit(#[trigger] d[k]),
            value as nat == digits_value(d.take(i - start)),
            value <= 65535,
        decreases n - i,
    {
        let c = s[i];
        let u = c as u32;
        assert(d[i - start] == c);
        if u < 48 || u > 57 {
            proof {
                let j = i - start;
                assert(!is_digit(d[j]));
                assert(!all_digits(d));
            }
            return None;
        }
        assert(d.take(i - start + 1).drop_last() =~= d.take(i - start));
        let next = value * 10 + (u - 48);
        if next > 65535 {
            proof {
                if all_digits(d) {
                    lemma_digits_value_prefix_monotone(d, i - start + 1);
                }
            }
            return None;
        }
        value = next;
        i = i + 1;
    }
    assert(d.take(n - start) =~= d);
    Some(value as u16)
}

/// The value of digits only grows as more are read.
proof fn lemma_digits_value_prefix_monotone(d: Seq<char>, k: int)
    requires
        0 <= k <= d.len(),
        all_digits(d),
    ensures
        digits_value(d.take(k)) <= digits_value(d),
    decreases d.len() - k,
{
    if k < d.len() {
        lemma_digits_value_prefix_monotone(d, k + 1);
        assert(d.take(k + 1).drop_last() =~= d.take(k));
    } else {
        assert(d.take(k) =~= d);
    }
}

/// A `--dports` item that is not a port number.
#[derive(Debug)]
pub struct InvalidPort {
    pub item: String,
}

/// The ports of a comma list: blank items are skipped, the others are
/// trimmed and parsed; the first item that does not parse is the error.
pub open spec fn ports_of_items(items: Seq<Seq<char>>) -> Result<Seq<u16>, Seq<char>>
    decreases items.len(),
{
    if items.len() == 0 {
        Ok(Seq::empty())
    } else {
        let item = items[0];
        let rest = ports_of_items(items.drop_first());
        if trim(item).len() == 0 {
            rest
        } else {
            match parse_u16_spec(trim(item)) {
                None => Err(item),
                Some(p) => match rest {
                    Ok(ps) => Ok(seq![p] + ps),
                    Err(e) => Err(e),
                },
            }
        }
    }
}

/// The ports of the comma list `list`.
pub open spec fn port_list(list: Seq<char>) -> Result<Seq<u16>, Seq<char>> {
    ports_of_items(split_by(list, ','))
}

/// Parses a `--dports` comma list.
pub fn parse_port_list(list: &str) -> (r: Result<Vec<u16>, InvalidPort>)
    ensures
        match port_list(list@) {
            Ok(ps) => r matches Ok(v) && v@ == ps,
            Err(item) => r matches Err(e) && e.item@ == item,
        },
{
    let items = split_chars(&chars_of(list), ',');
    let ghost all = views(items@);
    let mut ports: Vec<u16> = Vec::new();
    let mut i: usize = 0;
    assert(all.skip(0) =~= all);
    while i < items.len()
        invariant
            i <= items.len(),
            all == views(items@),
            all == split_by(list@, ','),
            ports_of_items(all) == match ports_of_items(all.skip(i as int)) {
                Ok(rest) => Ok(ports@ + rest),
                Err(e) => Err(e),
            },
        decreases items.len() - i,
    {
        assert(all.skip(i as int).drop_first() =~= all.skip(i + 1));
        assert(all.skip(i as int)[0] == items@[i as int]@);
        let t = trim_chars(&items[i]);
        if t.len() > 0 {
            match parse_u16(&t) {
                None => {
                    return Err(InvalidPort { item: string_of(&items[i]) });
                },
                Some(p) => {
                    let ghost before = ports@;
                    ports.push(p);
                    proof {
                        match ports_of_items(all.skip(i + 1)) {
                            Ok(rest) => assert(before + (seq![p] + rest) =~= ports@ + rest),
                            Err(_) => {},
                        }
                    }
                },
            }
        }
        i = i + 1;
    }
    assert(all.skip(items.len() as int) =~= Seq::<Seq<char>>::empty());
    assert(ports@ + Seq::<u16>::empty() =~= ports@);
    Ok(ports)
}

/// Why a traffic run has no destination port.
#[derive(Debug)]
pub enum PortsError {
    /// An item of `--dports` is not a port number.
    Invalid(InvalidPort),
    /// Neither `--dport` nor `--dports` was given for TCP/UDP.
    Missing,
}

/// The destination ports of a run: the `--dports` list, else `--dport`,
/// else port 0 for ICMP.
pub fn run_ports(args: &TrafficArgs) -> (r: Result<Vec<u16>, PortsError>)
    ensures
        match args.dports {
            Some(list) => match port_list(list@) {
                Ok(ps) => r matches Ok(v) && v@ == ps,
                Err(item) => r matches Err(PortsError::Invalid(e)) && e.item@ == item,
            },
            None => match args.dport {
                Some(p) => r matches Ok(v) && v@ == seq![p],
                None => if args.proto == Proto::Icmp {
                    r matches Ok(v) && v@ == seq![0u16]
                } else {
                    r matches Err(PortsError::Missing)
                },
            },
        },
{
    if let Some(list) = &args.dports {
        match parse_port_list(list.as_str()) {
            Ok(v) => Ok(v),
            Err(e) => Err(PortsError::Invalid(e)),
        }
    } else if let Some(port) = args.dport {
        let v = vec![port];
        assert(v@ =~= seq![port]);
        Ok(v)
    } else if args.proto == Proto::Icmp {
        let v = vec![0u16];
        assert(v@ =~= seq![0u16]);
        Ok(v)
    } else {
        Err(PortsError::Missing)
    }
}

/// What one attempt sends.
#[derive(Debug, Clone, Copy, PartialEq, Eq, Structural)]
pub enum AttemptKind {
    /// A bare FIN segment through a raw socket.
    Fin,
    /// A TCP connect.
    Connect,
    /// A UDP datagram.
    Datagram,
    /// An ICMP echo request (type 8).
    Echo,
    /// An ICMP timestamp request (type 13).
    Timestamp,
}

/// The kind of attempt a run makes.
pub open spec fn attempt_kind_of(proto: Proto, fin_only: bool, icmp: IcmpKind) -> AttemptKind {
    match proto {
        Proto::Tcp => if fin_only {
            AttemptKind::Fin
        } else {
            AttemptKind::Connect
        },
        Proto::Udp => AttemptKind::Datagram,
        Proto::Icmp => match icmp {
            IcmpKind::Echo => AttemptKind::Echo,
            IcmpKind::Timestamp => AttemptKind::Timestamp,
        },
    }
}

/// The successor of `x`, wrapping to zero after `u16::MAX`.
pub open spec fn succ16(x: u16) -> u16 {
    if x == u16::MAX {
        0
    } else {
        (x + 1) as u16
    }
}

/// The next attempt of a run whose last sequence number was `seq`: its kind
/// and its sequence number, advanced (wrapping) for FIN and ICMP attempts.
pub fn next_attempt(proto: Proto, fin_only: bool, icmp: IcmpKind, seq: u16) -> (r: (AttemptKind, u16))
    ensures
        r.0 == attempt_kind_of(proto, fin_only, icmp),
        r.1 == if numbered(r.0) {
            succ16(seq)
        } else {
            seq
        },
{
    let kind = match proto {
        Proto::Tcp => if fin_only {
            AttemptKind::Fin
        } else {
            AttemptKind::Connect
        },
        Proto::Udp => AttemptKind::Datagram,
        Proto::Icmp => match icmp {
            IcmpKind::Echo => AttemptKind::Echo,
            IcmpKind::Timestamp => AttemptKind::Timestamp,
        },
    };
    let next = if kind == AttemptKind::Fin || kind == AttemptKind::Echo || kind == AttemptKind::Timestamp {
        seq.wrapping_add(1)
    } else {
        seq
    };
    (kind, next)
}

/// Attempts made per port: `count`, at least one.
pub fn attempts_per_port(count: u32) -> (n: u32)
    ensures
        n == if count == 0 { 1 } else { count },
{
    if count == 0 {
        1
    } else {
        count
    }
}

/// Whether to wait `interval_ms` before an attempt: never before the first.
pub fn pause_before(first: bool, interval_ms: u64) -> (r: bool)
    ensures
        r == (!first && interval_ms != 0),
{
    !first && interval_ms != 0
}


/// Whether attempts of `kind` carry an advancing sequence number.
pub open spec fn numbered(kind: AttemptKind) -> bool {
    kind == AttemptKind::Fin || kind == AttemptKind::Echo || kind == AttemptKind::Timestamp
}

/// One attempt of a run: where it goes, what it sends, its sequence number,
/// and whether to wait the interval before it.
#[derive(Debug, Clone, Copy, PartialEq, Eq, Structural)]
pub struct Attempt {
    pub port: u16,
    pub kind: AttemptKind,
    pub seq: u16,
    pub pause: bool,
}

/// The attempts of a traffic run, one after the other: each port in turn,
/// `count` attempts (at least one) to each, the interval waited before
/// every attempt but the first, FIN and ICMP attempts numbered from 1
/// (wrapping).
pub struct AttemptPlan {
    pub ports: Vec<u16>,
    pub per_port: u32,
    pub kind: AttemptKind,
    pub interval_ms: u64,
    /// The port being attempted.
    pub port_index: usize,
    /// Attempts already made to that port.
    pub round: u32,
    /// The last sequence number handed out.
    pub seq: u16,
    /// Whether no attempt was handed out yet.
    pub first: bool,
}

/// The attempts a plan still hands out: `per_port` to each port from the
/// current one on, less those already made to the current port.
pub open spec fn attempts_left(p: AttemptPlan) -> int {
    if p.port_index >= p.ports@.len() {
        0
    } else {
        (p.ports@.len() - p.port_index) * p.per_port - p.round
    }
}

impl AttemptPlan {
    /// The plan of a run to `ports`.
    pub fn new(args: &TrafficArgs, ports: Vec<u16>) -> (p: AttemptPlan)
        ensures
            p.ports@ == ports@,
            p.per_port == (if args.count == 0 { 1 } else { args.count }),
            p.kind == attempt_kind_of(args.proto, args.fin_only, args.icmp_type),
            p.interval_ms == args.interval_ms,
            p.port_index == 0,
            p.round == 0,
            p.seq == 0,
            p.first,
            attempts_left(p) == ports@.len() * p.per_port,
    {
        let (kind, _) = next_attempt(args.proto, args.fin_only, args.icmp_type, 0);
        let per_port = attempts_per_port(args.count);
        assert(0 * per_port == 0);
        AttemptPlan {
            ports,
            per_port,
            kind,
            interval_ms: args.interval_ms,
            port_index: 0,
            round: 0,
            seq: 0,
            first: true,
        }
    }

    /// The next attempt, `None` once every port had its attempts.
    pub fn next(&mut self) -> (r: Option<Attempt>)
        requires
            old(self).per_port >= 1,
            old(self).round < old(self).per_port,
        ensures
            final(self).ports == old(self).ports,
            final(self).per_port == old(self).per_port,
            final(self).kind == old(self).kind,
            final(self).interval_ms == old(self).interval_ms,
            final(self).round < final(self).per_port,
            r is Some <==> attempts_left(*old(self)) > 0,
            r is Some ==> attempts_left(*final(self)) == attempts_left(*old(self)) - 1,
            old(self).port_index >= old(self).ports@.len() ==> r is None && *final(self) == *old(self),
            old(self).port_index < old(self).ports@.len() ==> ({
                let seq = if numbered(old(self).kind) {
                    succ16(old(self).seq)
                } else {
                    old(self).seq
                };
                &&& r == Some(
                    Attempt {
                        port: old(self).ports@[old(self).port_index as int],
                        kind: old(self).kind,
                        seq,
                        pause: !old(self).first && old(self).interval_ms != 0,
                    },
                )
                &&& final(self).seq == seq
                &&& !final(self).first
                &&& if old(self).round + 1 < old(self).per_port {
                    final(self).round == old(self).round + 1 && final(self).port_index
                        == old(self).port_index
                } else {
                    final(self).round == 0 && final(self).port_index == old(self).port_index + 1
                }
            }),
    {
        if self.port_index >= self.ports.len() {
            return None;
        }
        let ghost len = self.ports@.len() as int;
        let ghost i = self.port_index as int;
        let ghost pp = self.per_port as int;
        proof {
            assert((len - i) * pp >= pp) by (nonlinear_arith)
                requires
                    len - i >= 1,
                    pp >= 1,
            ;
            assert((len - i) * pp == (len - i - 1) * pp + pp) by (nonlinear_arith);
            assert(0 * pp == 0);
        }
        let seq = if self.kind == AttemptKind::Fin || self.kind == AttemptKind::Echo
            || self.kind == AttemptKind::Timestamp {
            self.seq.wrapping_add(1)
        } else {
            self.seq
        };
        let attempt = Attempt {
            port: self.ports[self.port_index],
            kind: self.kind,
            seq,
            pause: pause_before(self.first, self.interval_ms),
        };
        self.seq = seq;
        self.first = false;
        if self.round + 1 < self.per_port {
            self.round = self.round + 1;
        } else {
            self.round = 0;
            self.port_index = self.port_index + 1;
        }
        Some(attempt)
    }
}

/// The verdict of a tally, result by result: `allowed` exactly when some
/// attempt succeeded; `blocked` exactly when none did and some timed out
/// or was denied by policy; `refused` exactly when the only decisive
/// outcomes were refusals; `sent` exactly when fire-and-forget sends are
/// all there is besides unclassified errors; `unknown` exactly when
/// nothing but unclassified errors (or nothing at all) happened. So an
/// unclassified error never changes the verdict.
pub proof fn lemma_verdict_by_outcome(t: Tally)
    ensures
        tally_verdict(t) == "allowed"@ <==> t.success > 0,
        tally_verdict(t) == "blocked"@ <==> t.success == 0 && (t.timeout > 0 || t.denied > 0),
        tally_verdict(t) == "refused"@ <==> t.success == 0 && t.timeout == 0 && t.denied == 0
            && t.refused > 0,
        tally_verdict(t) == "sent"@ <==> t.success == 0 && t.timeout == 0 && t.denied == 0
            && t.refused == 0 && t.sent > 0,
        tally_verdict(t) == "unknown"@ <==> t.success == 0 && t.timeout == 0 && t.denied == 0
            && t.refused == 0 && t.sent == 0,
        tally_verdict(t) == tally_verdict(Tally { other: 0, ..t }),
{
    reveal_strlit("allowed");
    reveal_strlit("blocked");
    reveal_strlit("refused");
    reveal_strlit("sent");
    reveal_strlit("unknown");
    assert("allowed"@[0] == 'a' && "blocked"@[0] == 'b' && "refused"@[0] == 'r' && "sent"@[0] == 's'
        && "unknown"@[0] == 'u');
}

} // verus!
