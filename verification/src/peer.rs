//! Driving the worker: the argv of a traffic run and its parsed outcome.

use vstd::prelude::*;

use crate::exec::strs;
use crate::net::{ip_text, IpAddr};
use crate::text::{dec16, dec32, dec64, join_dec, join_ports, u16_to_string, u32_to_string, u64_to_string};

verus! {

/// Parsed result of an `agent traffic` run.
///
/// The per-outcome counts mirror the agent JSON schema and are retained for
/// diagnostics even though the orchestrator decides on `verdict` alone.
#[derive(Debug, Clone)]
pub struct TrafficOutcome {
    pub verdict: String,
    pub success: u32,
    pub timeout: u32,
    pub refused: u32,
    pub denied: u32,
    pub sent: u32,
    pub other: u32,
}

/// A traffic request to hand to the worker.
#[derive(Debug, Clone)]
pub struct TrafficCmd {
    pub proto: &'static str,
    pub to: IpAddr,
    pub dport: Option<u16>,
    pub dports: Option<Vec<u16>>,
    pub sport: Option<u16>,
    pub count: u32,
    pub timeout_ms: u64,
    pub interval_ms: u64,
    pub await_reply: bool,
    pub fin_only: bool,
    pub icmp_timestamp: bool,
}

/// The destination-port flags: `--dports` (comma list) wins over `--dport`.
pub open spec fn port_flags(cmd: TrafficCmd) -> Seq<Seq<char>> {
    match cmd.dports {
        Some(ps) => seq!["--dports"@, join_dec(ps@)],
        None => match cmd.dport {
            Some(p) => seq!["--dport"@, dec16(p)],
            None => Seq::empty(),
        },
    }
}

/// An optional flag with its value text.
pub open spec fn opt_flag(flag: Seq<char>, v: Option<Seq<char>>) -> Seq<Seq<char>> {
    match v {
        Some(t) => seq![flag, t],
        None => Seq::empty(),
    }
}

/// A flag present when `b` holds.
pub open spec fn bool_flag(flag: Seq<char>, b: bool) -> Seq<Seq<char>> {
    if b {
        seq![flag]
    } else {
        Seq::empty()
    }
}

/// The `agent traffic ...` argv for `cmd`, `--uid` appended when dropping
/// privilege.
pub open spec fn traffic_argv(cmd: TrafficCmd, uid: Option<u32>) -> Seq<Seq<char>> {
    seq!["traffic"@, cmd.proto@, "--to"@, ip_text(cmd.to)] + port_flags(cmd) + sport_flag(cmd)
        + count_flag(cmd) + interval_flag(cmd) + seq!["--timeout-ms"@, dec64(cmd.timeout_ms)]
        + bool_flag("--await-reply"@, cmd.await_reply) + bool_flag("--fin-only"@, cmd.fin_only)
        + bool_flag2("--icmp-type"@, "timestamp"@, cmd.icmp_timestamp) + uid_flag(uid)
}

/// `--sport <p>` when a source port is bound.
pub open spec fn sport_flag(cmd: TrafficCmd) -> Seq<Seq<char>> {
    opt_flag(
        "--sport"@,
        match cmd.sport {
            Some(p) => Some(dec16(p)),
            None => None,
        },
    )
}

/// `--count <n>` when more than one attempt is asked for.
pub open spec fn count_flag(cmd: TrafficCmd) -> Seq<Seq<char>> {
    opt_flag("--count"@, if cmd.count > 1 { Some(dec32(cmd.count)) } else { None })
}

/// `--interval-ms <n>` when attempts are spaced.
pub open spec fn interval_flag(cmd: TrafficCmd) -> Seq<Seq<char>> {
    opt_flag("--interval-ms"@, if cmd.interval_ms > 0 { Some(dec64(cmd.interval_ms)) } else { None })
}

/// A flag and its value, present when `b` holds.
pub open spec fn bool_flag2(flag: Seq<char>, value: Seq<char>, b: bool) -> Seq<Seq<char>> {
    if b {
        seq![flag, value]
    } else {
        Seq::empty()
    }
}

/// `--uid <u>` when dropping privilege.
pub open spec fn uid_flag(uid: Option<u32>) -> Seq<Seq<char>> {
    opt_flag(
        "--uid"@,
        match uid {
            Some(u) => Some(dec32(u)),
            None => None,
        },
    )
}

/// Appends the strings of `seg` to `v`.
fn append_all(v: &mut Vec<String>, seg: Vec<String>)
    ensures
        strs(final(v)@) == strs(old(v)@) + strs(seg@),
{
    let mut seg = seg;
    let ghost start = strs(v@);
    let ghost all = strs(seg@);
    v.append(&mut seg);
    assert(strs(v@) =~= start + all);
}

/// A flag and its value as strings.
fn flag_with(flag: &str, value: String) -> (seg: Vec<String>)
    ensures
        strs(seg@) == seq![flag@, value@],
{
    let seg = vec![flag.to_string(), value];
    assert(strs(seg@) =~= seq![flag@, value@]);
    seg
}

/// Nothing.
fn no_flags() -> (seg: Vec<String>)
    ensures
        strs(seg@) == Seq::<Seq<char>>::empty(),
{
    let seg: Vec<String> = Vec::new();
    assert(strs(seg@) =~= Seq::<Seq<char>>::empty());
    seg
}

/// A lone flag.
fn flag_only(flag: &str) -> (seg: Vec<String>)
    ensures
        strs(seg@) == seq![flag@],
{
    let seg = vec![flag.to_string()];
    assert(strs(seg@) =~= seq![flag@]);
    seg
}

impl TrafficCmd {
    fn head(&self) -> (seg: Vec<String>)
        ensures
            strs(seg@) == seq!["traffic"@, self.proto@, "--to"@, ip_text(self.to)],
    {
        let seg = vec!["traffic".to_string(), self.proto.to_string(), "--to".to_string(), self.to.to_text()];
        assert(strs(seg@) =~= seq!["traffic"@, self.proto@, "--to"@, ip_text(self.to)]);
        seg
    }

    fn port_seg(&self) -> (seg: Vec<String>)
        ensures
            strs(seg@) == port_flags(*self),
    {
        if let Some(ports) = &self.dports {
            flag_with("--dports", join_ports(ports))
        } else if let Some(port) = self.dport {
            flag_with("--dport", u16_to_string(port))
        } else {
            no_flags()
        }
    }

    fn sport_seg(&self) -> (seg: Vec<String>)
        ensures
            strs(seg@) == sport_flag(*self),
    {
        if let Some(sport) = self.sport {
            flag_with("--sport", u16_to_string(sport))
        } else {
            no_flags()
        }
    }

    fn count_seg(&self) -> (seg: Vec<String>)
        ensures
            strs(seg@) == count_flag(*self),
    {
        if self.count > 1 {
            flag_with("--count", u32_to_string(self.count))
        } else {
            no_flags()
        }
    }

    fn interval_seg(&self) -> (seg: Vec<String>)
        ensures
            strs(seg@) == interval_flag(*self),
    {
        if self.interval_ms > 0 {
            flag_with("--interval-ms", u64_to_string(self.interval_ms))
        } else {
            no_flags()
        }
    }

    /// Build the `agent traffic ...` argv (uid appended when dropping privilege).
    pub fn argv(&self, uid: Option<u32>) -> (argv: Vec<String>)
        ensures
            strs(argv@) == traffic_argv(*self, uid),
    {
        let mut argv = self.head();
        append_all(&mut argv, self.port_seg());
        append_all(&mut argv, self.sport_seg());
        append_all(&mut argv, self.count_seg());
        append_all(&mut argv, self.interval_seg());
        append_all(&mut argv, flag_with("--timeout-ms", u64_to_string(self.timeout_ms)));
        append_all(&mut argv, if self.await_reply { flag_only("--await-reply") } else { no_flags() });
        append_all(&mut argv, if self.fin_only { flag_only("--fin-only") } else { no_flags() });
        append_all(
            &mut argv,
            if self.icmp_timestamp { flag_with("--icmp-type", "timestamp".to_string()) } else { no_flags() },
        );
        append_all(
            &mut argv,
            match uid {
                Some(u) => flag_with("--uid", u32_to_string(u)),
                None => no_flags(),
            },
        );
        argv
    }
}


/// The worker arguments of a background listener:
/// `listen <proto> --port <port> --duration-secs <secs>`.
pub open spec fn listener_args(proto: Seq<char>, port: u16, duration_secs: u64) -> Seq<Seq<char>> {
    seq!["listen"@, proto, "--port"@, dec16(port), "--duration-secs"@, dec64(duration_secs)]
}

/// The worker arguments of a background listener on `port` for
/// `duration_secs` seconds.
pub fn listener_argv(proto: &str, port: u16, duration_secs: u64) -> (argv: Vec<String>)
    ensures
        strs(argv@) == listener_args(proto@, port, duration_secs),
{
    let argv = vec![
        "listen".to_string(),
        proto.to_string(),
        "--port".to_string(),
        u16_to_string(port),
        "--duration-secs".to_string(),
        u64_to_string(duration_secs),
    ];
    assert(strs(argv@) =~= listener_args(proto@, port, duration_secs));
    argv
}

/// The shell command that ends any lingering listeners on a side.
pub fn stop_listeners_cmd() -> (cmd: &'static str)
    ensures
        cmd@ == "pkill -f 'agent listen'"@,
{
    "pkill -f 'agent listen'"
}

} // verus!
