//! The steps of one case, as a state machine: the caller performs each
//! action (start a listener, read the clock, send traffic, read events, ...)
//! and hands back what came of it; the machine decides the next action and,
//! at the end, the case's result.
//!
//! A flow case starts its listeners and lets them bind, takes a clock
//! watermark, has the worker send its traffic, waits for events to settle
//! and reads them, and, when the expected event was found, confirms it was
//! reported to idps-server (and, as configured, in the server log and on
//! the VSOC dashboard). A traffic-statistics case reads the statistics
//! snapshot, sends its traffic, waits for a traffic window to close and
//! reads the snapshot again.

use vstd::prelude::*;

use crate::catalog::{Group, Listen, FwCase, Side};
use crate::config::{Mode, ReportConfirm, RunConfig};
use crate::net::ip_text;
use crate::peer::TrafficCmd;
use crate::target::{FwEvent, StatsSnapshot};
use crate::text::push_str;
use crate::verify::{
    base_result, build_cmd, cmd_for, concluded, detect, detection_of, flow, flow_of,
    judge_traffic, result, server_log_note, server_log_text, texts, traffic_judged,
    vsoc_note, vsoc_text, CaseResult, CaseResultView,
};

verus! {

/// How long a listener stays up, in seconds.
pub const LISTEN_SECS: u64 = 12;

/// How long listeners get to bind before traffic starts, in milliseconds.
pub const LISTEN_READY_MS: u64 = 500;

/// How long a traffic-statistics case waits for a traffic window (cycle 5 s)
/// to close, with a settle margin, in milliseconds.
pub const STATS_WINDOW_MS: u64 = 7000;

/// Where a case's run stands: what it waits for.
#[derive(Debug, Clone, Copy, PartialEq, Eq, Structural)]
pub enum Stage {
    /// Not started.
    Start,
    /// Listener number `started` (from zero) is being started.
    Listening { started: usize },
    /// The listeners are given time to bind.
    Settling,
    /// The clock watermark is being read.
    Clocking,
    /// The traffic is being sent.
    Sending,
    /// Firewall events are being read.
    Collecting,
    /// The expected event's delivery to idps-server is being confirmed.
    Confirming,
    /// The idps-server log is being read.
    ReadingLog,
    /// The VSOC dashboard is being asked.
    AskingVsoc,
    /// The statistics snapshot before the traffic is being read.
    StatsBefore,
    /// The traffic of a statistics case is being sent.
    StatsSending,
    /// A traffic window is given time to close.
    StatsWaiting,
    /// The statistics snapshot after the traffic is being read.
    StatsAfter,
    /// The result has been given.
    Done,
}

/// What the caller does next.
#[derive(Debug)]
pub enum CaseAction {
    /// Start a `listen <proto> --port <port> --duration-secs <secs>` worker
    /// in the background on `side`; answer `Done`, or `Failed` with the error.
    StartListener { side: Side, proto: &'static str, port: u16, secs: u64 },
    /// Wait `ms` milliseconds; answer `Done`.
    Pause { ms: u64 },
    /// Read the clock watermark (epoch ms); answer `Clock`, or `Failed`.
    ReadClock,
    /// Run the traffic worker on `side` with `cmd`, as `uid` when given;
    /// answer `Verdict` with its verdict, or `Failed`.
    SendTraffic { side: Side, cmd: TrafficCmd, uid: Option<u32> },
    /// Wait `wait_ms` milliseconds, then read the firewall events newer than
    /// `since`; answer `Events` (none when they cannot be read).
    CollectEvents { wait_ms: u64, since: i64 },
    /// Poll the events newer than `since` for up to 8 s, every 700 ms, until
    /// `event_id` is reported sent (`event_sent`); answer `Sent`.
    ConfirmSent { since: i64, event_id: String },
    /// Read the TARGET's recent log (`logcat -d -t 400`); answer `Log`.
    ReadServerLog,
    /// Ask the VSOC dashboard whether its events mention `needle`; answer
    /// `Vsoc`.
    QueryVsoc { needle: String },
    /// Read the idps-fw statistics snapshot; answer `Stats`, or `Failed`.
    ReadStats,
    /// The case is over with `result`. With `cleanup`, stop the listeners
    /// started for it and any lingering ones on the sides of its listeners.
    Finish { result: CaseResult, cleanup: bool },
}

/// What came of an action.
#[derive(Debug)]
pub enum CaseEvent {
    /// The run is to start.
    Begin,
    /// The action is done.
    Done,
    /// The action failed with this error.
    Failed(String),
    /// The clock watermark.
    Clock(i64),
    /// The traffic worker's verdict.
    Verdict(String),
    /// The firewall events read.
    Events(Vec<FwEvent>),
    /// Whether the event was reported sent.
    Sent(bool),
    /// The server log, `None` when it could not be read.
    Log(Option<String>),
    /// Whether the dashboard's events mention the device, or the error met.
    Vsoc(Result<bool, String>),
    /// A statistics snapshot.
    Stats(StatsSnapshot),
}

/// The run of one case.
#[derive(Debug)]
pub struct CaseRun {
    pub case: FwCase,
    pub stage: Stage,
    /// The clock watermark.
    pub since: i64,
    /// The traffic worker's verdict.
    pub verdict: String,
    /// Whether the detection expectation is met.
    pub event_ok: bool,
    /// The observed event, for the report.
    pub observed: String,
    /// Notes for the report's detail, in order.
    pub notes: Vec<String>,
    /// Whether the expected event was confirmed sent, once asked.
    pub confirmed: Option<bool>,
    /// The statistics snapshot before the traffic.
    pub before: Option<StatsSnapshot>,
}

/// The mathematical value of a run, without its case.
pub struct CaseRunView {
    pub stage: Stage,
    pub since: i64,
    pub verdict: Seq<char>,
    pub event_ok: bool,
    pub observed: Seq<char>,
    pub notes: Seq<Seq<char>>,
    pub confirmed: Option<bool>,
    pub before: Option<StatsSnapshot>,
}

impl View for CaseRun {
    type V = CaseRunView;

    open spec fn view(&self) -> CaseRunView {
        CaseRunView {
            stage: self.stage,
            since: self.since,
            verdict: self.verdict@,
            event_ok: self.event_ok,
            observed: self.observed@,
            notes: texts(self.notes@),
            confirmed: self.confirmed,
            before: self.before,
        }
    }
}

/// `v` moved on to `stage`, all else kept.
pub open spec fn moved(v: CaseRunView, stage: Stage) -> CaseRunView {
    CaseRunView {
        stage,
        since: v.since,
        verdict: v.verdict,
        event_ok: v.event_ok,
        observed: v.observed,
        notes: v.notes,
        confirmed: v.confirmed,
        before: v.before,
    }
}

/// `v` moved on to `stage` with `notes`, all else kept.
pub open spec fn noted(v: CaseRunView, stage: Stage, notes: Seq<Seq<char>>) -> CaseRunView {
    CaseRunView {
        stage,
        since: v.since,
        verdict: v.verdict,
        event_ok: v.event_ok,
        observed: v.observed,
        notes,
        confirmed: v.confirmed,
        before: v.before,
    }
}

/// The run's state is consistent: a listener being started exists, and a
/// statistics case past its first snapshot holds it.
pub open spec fn well_formed(r: CaseRun) -> bool {
    &&& (r.stage matches Stage::Listening { started } ==> started < r.case.listen@.len())
    &&& (r.stage == Stage::StatsSending || r.stage == Stage::StatsWaiting || r.stage
        == Stage::StatsAfter ==> r.before is Some)
}

/// Whether the run, at `stage`, takes `ev` next.
pub open spec fn accepts(stage: Stage, ev: CaseEvent) -> bool {
    match stage {
        Stage::Start => ev is Begin,
        Stage::Listening { .. } => ev is Done || ev is Failed,
        Stage::Settling => ev is Done,
        Stage::Clocking => ev is Clock || ev is Failed,
        Stage::Sending => ev is Verdict || ev is Failed,
        Stage::Collecting => ev is Events,
        Stage::Confirming => ev is Sent,
        Stage::ReadingLog => ev is Log,
        Stage::AskingVsoc => ev is Vsoc,
        Stage::StatsBefore => ev is Stats || ev is Failed,
        Stage::StatsSending => ev is Verdict || ev is Failed,
        Stage::StatsWaiting => ev is Done,
        Stage::StatsAfter => ev is Stats || ev is Failed,
        Stage::Done => false,
    }
}

/// `act` ends the case with `result` and the given cleanup.
pub open spec fn finishes(act: CaseAction, result: CaseResultView, cleanup: bool) -> bool {
    act matches CaseAction::Finish { result: r, cleanup: c } && r@ == result && c == cleanup
}

/// `act` starts listener `l` for its full duration.
pub open spec fn starts_listener(act: CaseAction, l: Listen) -> bool {
    act matches CaseAction::StartListener { side, proto, port, secs } && side == l.side && proto
        == l.proto && port == l.port && secs == LISTEN_SECS
}

/// `act` sends the case's traffic from its origin towards the other side,
/// as the app uid when the case asks for one.
pub open spec fn sends_traffic(cfg: RunConfig, case: FwCase, act: CaseAction) -> bool {
    act matches CaseAction::SendTraffic { side, cmd, uid } && side == case.origin && cmd_for(
        cmd,
        case.traffic@,
        case.sport,
        flow_of(cfg, case.origin).2,
    ) && uid == if case.uid {
        Some(cfg.app_uid)
    } else {
        None::<u32>
    }
}

/// `act` asks the VSOC dashboard about the TARGET address.
pub open spec fn asks_vsoc(cfg: RunConfig, act: CaseAction) -> bool {
    act matches CaseAction::QueryVsoc { needle } && needle@ == ip_text(cfg.target_ip)
}

/// The result of a flow case from its run so far, with `notes`.
pub open spec fn flow_result(case: FwCase, v: CaseRunView, notes: Seq<Seq<char>>) -> CaseResultView {
    concluded(case@, v.verdict, v.event_ok, v.observed, v.confirmed, notes)
}

/// The step a run takes: from `old` on `ev` to `new`, asking for `act`.
pub open spec fn stepped(cfg: RunConfig, old: CaseRun, ev: CaseEvent, new: CaseRun, act: CaseAction) -> bool {
    let case = old.case;
    let v = old@;
    let done = moved(v, Stage::Done);
    &&& new.case == case
    &&& match (old.stage, ev) {
        (Stage::Start, CaseEvent::Begin) => match case.skip {
            Some(reason) => new@ == done && finishes(
                act,
                base_result(case@, "SKIP"@, reason@),
                false,
            ),
            None => if case.group == Group::Traffic {
                new@ == moved(v, Stage::StatsBefore) && act is ReadStats
            } else if case.listen@.len() > 0 {
                new@ == moved(v, Stage::Listening { started: 0 }) && starts_listener(
                    act,
                    case.listen@[0],
                )
            } else {
                new@ == moved(v, Stage::Clocking) && act is ReadClock
            },
        },
        (Stage::Listening { started }, CaseEvent::Done) => if started + 1 < case.listen@.len() {
            new@ == moved(v, Stage::Listening { started: (started + 1) as usize })
                && starts_listener(act, case.listen@[started + 1])
        } else {
            new@ == moved(v, Stage::Settling) && act == (CaseAction::Pause { ms: LISTEN_READY_MS })
        },
        (Stage::Listening { .. }, CaseEvent::Failed(m)) => new@ == done && finishes(
            act,
            base_result(case@, "SKIP"@, "listener failed: "@ + m@),
            false,
        ),
        (Stage::Settling, CaseEvent::Done) => new@ == moved(v, Stage::Clocking) && act is ReadClock,
        (Stage::Clocking, CaseEvent::Clock(t)) => new@ == CaseRunView {
            stage: Stage::Sending,
            since: t,
            ..v
        } && sends_traffic(cfg, case, act),
        (Stage::Clocking, CaseEvent::Failed(m)) => new@ == done && finishes(
            act,
            base_result(case@, "FAIL"@, "watermark failed: "@ + m@),
            true,
        ),
        (Stage::Sending, CaseEvent::Verdict(verdict)) => new@ == CaseRunView {
            stage: Stage::Collecting,
            verdict: verdict@,
            ..v
        } && act == (CaseAction::CollectEvents { wait_ms: cfg.event_settle_ms, since: v.since }),
        (Stage::Sending, CaseEvent::Failed(m)) => new@ == done && finishes(
            act,
            base_result(case@, "FAIL"@, "traffic failed: "@ + m@),
            true,
        ),
        (Stage::Collecting, CaseEvent::Events(events)) => {
            let d = detection_of(cfg, case, events@);
            let w = CaseRunView { event_ok: d.0, observed: d.2, notes: d.3, ..v };
            match d.1 {
                Some(i) => new@ == moved(w, Stage::Confirming) && (act matches CaseAction::ConfirmSent {
                    since,
                    event_id,
                } && since == v.since && event_id@ == events@[i].event_id@),
                None => new@ == moved(w, Stage::Done) && finishes(
                    act,
                    flow_result(case, w, w.notes),
                    true,
                ),
            }
        },
        (Stage::Confirming, CaseEvent::Sent(sent)) => {
            let w = CaseRunView {
                confirmed: Some(sent),
                notes: if sent {
                    v.notes
                } else {
                    v.notes.push("report not confirmed sent to idps-server"@)
                },
                ..v
            };
            match cfg.report_confirm {
                ReportConfirm::Local => new@ == moved(w, Stage::Done) && finishes(
                    act,
                    flow_result(case, w, w.notes),
                    true,
                ),
                ReportConfirm::Server => if cfg.mode == Mode::Host {
                    let n = w.notes.push("server-log:n/a-host"@);
                    new@ == noted(w, Stage::Done, n) && finishes(act, flow_result(case, w, n), true)
                } else {
                    new@ == moved(w, Stage::ReadingLog) && act is ReadServerLog
                },
                ReportConfirm::Vsoc => if cfg.mode == Mode::Host {
                    new@ == noted(w, Stage::AskingVsoc, w.notes.push("server-log:n/a-host"@))
                        && asks_vsoc(cfg, act)
                } else {
                    new@ == moved(w, Stage::ReadingLog) && act is ReadServerLog
                },
            }
        },
        (Stage::ReadingLog, CaseEvent::Log(log)) => {
            let n = v.notes.push(
                server_log_text(
                    match log {
                        Some(l) => Some(l@),
                        None => None,
                    },
                ),
            );
            if cfg.report_confirm == ReportConfirm::Vsoc {
                new@ == noted(v, Stage::AskingVsoc, n) && asks_vsoc(cfg, act)
            } else {
                new@ == noted(v, Stage::Done, n) && finishes(act, flow_result(case, v, n), true)
            }
        },
        (Stage::AskingVsoc, CaseEvent::Vsoc(reply)) => {
            let n = v.notes.push(
                vsoc_text(
                    match reply {
                        Ok(b) => Ok(b),
                        Err(m) => Err(m@),
                    },
                ),
            );
            new@ == noted(v, Stage::Done, n) && finishes(act, flow_result(case, v, n), true)
        },
        (Stage::StatsBefore, CaseEvent::Stats(s)) => new@ == CaseRunView {
            stage: Stage::StatsSending,
            before: Some(s),
            ..v
        } && sends_traffic(cfg, case, act),
        (Stage::StatsBefore, CaseEvent::Failed(m)) => new@ == done && finishes(
            act,
            base_result(case@, "FAIL"@, "stats failed: "@ + m@),
            false,
        ),
        (Stage::StatsSending, CaseEvent::Verdict(_)) => new@ == moved(v, Stage::StatsWaiting) && act
            == (CaseAction::Pause { ms: STATS_WINDOW_MS }),
        (Stage::StatsSending, CaseEvent::Failed(m)) => new@ == done && finishes(
            act,
            base_result(case@, "FAIL"@, "traffic failed: "@ + m@),
            false,
        ),
        (Stage::StatsWaiting, CaseEvent::Done) => new@ == moved(v, Stage::StatsAfter) && act is ReadStats,
        (Stage::StatsAfter, CaseEvent::Stats(after)) => new@ == done && finishes(
            act,
            traffic_judged(case@, v.before.unwrap(), after),
            false,
        ),
        (Stage::StatsAfter, CaseEvent::Failed(m)) => new@ == done && finishes(
            act,
            base_result(case@, "FAIL"@, "stats failed: "@ + m@),
            false,
        ),
        _ => false,
    }
}


fn copy_strings(v: &Vec<String>) -> (r: Vec<String>)
    ensures
        r@ == v@,
{
    let mut r: Vec<String> = Vec::new();
    let mut i: usize = 0;
    while i < v.len()
        invariant
            i <= v.len(),
            r@ == v@.take(i as int),
        decreases v.len() - i,
    {
        r.push(v[i].clone());
        assert(r@ =~= v@.take(i + 1));
        i = i + 1;
    }
    assert(v@.take(v.len() as int) =~= v@);
    r
}

/// `prefix` followed by `m`.
fn prefixed(prefix: &str, m: &str) -> (s: String)
    ensures
        s@ == prefix@ + m@,
{
    let mut s = prefix.to_string();
    push_str(&mut s, m);
    s
}

impl CaseRun {
    /// A run of `case` that has not started.
    pub fn new(case: FwCase) -> (r: CaseRun)
        ensures
            r.case == case,
            r.stage == Stage::Start,
            r.since == 0,
            r.verdict@ == Seq::<char>::empty(),
            !r.event_ok,
            r.observed@ == Seq::<char>::empty(),
            r.notes@.len() == 0,
            r.confirmed is None,
            r.before is None,
            well_formed(r),
    {
        CaseRun {
            case,
            stage: Stage::Start,
            since: 0,
            verdict: String::new(),
            event_ok: false,
            observed: String::new(),
            notes: Vec::new(),
            confirmed: None,
            before: None,
        }
    }

    /// Whether the run takes `ev` next.
    pub fn takes(&self, ev: &CaseEvent) -> (b: bool)
        ensures
            b == accepts(self.stage, *ev),
    {
        match self.stage {
            Stage::Start => matches!(ev, CaseEvent::Begin),
            Stage::Listening { .. } => matches!(ev, CaseEvent::Done) || matches!(ev, CaseEvent::Failed(_)),
            Stage::Settling => matches!(ev, CaseEvent::Done),
            Stage::Clocking => matches!(ev, CaseEvent::Clock(_)) || matches!(ev, CaseEvent::Failed(_)),
            Stage::Sending => matches!(ev, CaseEvent::Verdict(_)) || matches!(ev, CaseEvent::Failed(_)),
            Stage::Collecting => matches!(ev, CaseEvent::Events(_)),
            Stage::Confirming => matches!(ev, CaseEvent::Sent(_)),
            Stage::ReadingLog => matches!(ev, CaseEvent::Log(_)),
            Stage::AskingVsoc => matches!(ev, CaseEvent::Vsoc(_)),
            Stage::StatsBefore => matches!(ev, CaseEvent::Stats(_)) || matches!(ev, CaseEvent::Failed(_)),
            Stage::StatsSending => matches!(ev, CaseEvent::Verdict(_)) || matches!(ev, CaseEvent::Failed(_)),
            Stage::StatsWaiting => matches!(ev, CaseEvent::Done),
            Stage::StatsAfter => matches!(ev, CaseEvent::Stats(_)) || matches!(ev, CaseEvent::Failed(_)),
            Stage::Done => false,
        }
    }

    fn start_listener(&self, k: usize) -> (act: CaseAction)
        requires
            k < self.case.listen@.len(),
        ensures
            starts_listener(act, self.case.listen@[k as int]),
    {
        let l = &self.case.listen[k];
        CaseAction::StartListener { side: l.side, proto: l.proto, port: l.port, secs: LISTEN_SECS }
    }

    fn send_traffic(&self, cfg: &RunConfig) -> (act: CaseAction)
        ensures
            sends_traffic(*cfg, self.case, act),
    {
        let (_src, _dst, to) = flow(cfg, self.case.origin);
        let cmd = build_cmd(&self.case, to);
        let uid = if self.case.uid {
            Some(cfg.app_uid)
        } else {
            None
        };
        CaseAction::SendTraffic { side: self.case.origin, cmd, uid }
    }

    fn ask_vsoc(cfg: &RunConfig) -> (act: CaseAction)
        ensures
            asks_vsoc(*cfg, act),
    {
        CaseAction::QueryVsoc { needle: cfg.target_ip.to_text() }
    }

    fn conclusion(&self) -> (r: CaseResult)
        ensures
            r@ == flow_result(self.case, self@, self@.notes),
    {
        crate::verify::conclude(
            &self.case,
            self.verdict.as_str(),
            self.event_ok,
            self.observed.as_str(),
            self.confirmed,
            copy_strings(&self.notes),
        )
    }

    fn on_events(&mut self, cfg: &RunConfig, events: Vec<FwEvent>) -> (act: CaseAction)
        requires
            old(self).stage == Stage::Collecting,
        ensures
            final(self).before == old(self).before,
            stepped(*cfg, *old(self), CaseEvent::Events(events), *final(self), act),
    {
        let d = detect(cfg, &self.case, &events);
        self.event_ok = d.event_ok;
        self.observed = d.observed;
        self.notes = d.notes;
        match d.matched {
            Some(i) => {
                self.stage = Stage::Confirming;
                CaseAction::ConfirmSent { since: self.since, event_id: events[i].event_id.clone() }
            },
            None => {
                self.stage = Stage::Done;
                CaseAction::Finish { result: self.conclusion(), cleanup: true }
            },
        }
    }

    fn on_sent(&mut self, cfg: &RunConfig, sent: bool) -> (act: CaseAction)
        requires
            old(self).stage == Stage::Confirming,
        ensures
            final(self).before == old(self).before,
            stepped(*cfg, *old(self), CaseEvent::Sent(sent), *final(self), act),
    {
        let ghost n0 = self@.notes;
        self.confirmed = Some(sent);
        if !sent {
            self.push_note("report not confirmed sent to idps-server".to_string());
        }
        let ghost n1 = self@.notes;
        assert(n1 == if sent { n0 } else { n0.push("report not confirmed sent to idps-server"@) });
        match cfg.report_confirm {
            ReportConfirm::Local => {
                self.stage = Stage::Done;
                CaseAction::Finish { result: self.conclusion(), cleanup: true }
            },
            ReportConfirm::Server => if cfg.mode == Mode::Host {
                self.push_note("server-log:n/a-host".to_string());
                self.stage = Stage::Done;
                CaseAction::Finish { result: self.conclusion(), cleanup: true }
            } else {
                self.stage = Stage::ReadingLog;
                CaseAction::ReadServerLog
            },
            ReportConfirm::Vsoc => if cfg.mode == Mode::Host {
                self.push_note("server-log:n/a-host".to_string());
                self.stage = Stage::AskingVsoc;
                Self::ask_vsoc(cfg)
            } else {
                self.stage = Stage::ReadingLog;
                CaseAction::ReadServerLog
            },
        }
    }

    fn push_note(&mut self, note: String)
        ensures
            final(self)@ == noted(old(self)@, old(self).stage, old(self)@.notes.push(note@)),
            final(self).case == old(self).case,
    {
        self.notes.push(note);
        assert(texts(self.notes@) =~= texts(old(self).notes@).push(note@));
    }

    fn on_log(&mut self, cfg: &RunConfig, log: Option<String>) -> (act: CaseAction)
        requires
            old(self).stage == Stage::ReadingLog,
        ensures
            final(self).before == old(self).before,
            stepped(*cfg, *old(self), CaseEvent::Log(log), *final(self), act),
    {
        self.push_note(server_log_note(&log));
        if cfg.report_confirm == ReportConfirm::Vsoc {
            self.stage = Stage::AskingVsoc;
            Self::ask_vsoc(cfg)
        } else {
            self.stage = Stage::Done;
            CaseAction::Finish { result: self.conclusion(), cleanup: true }
        }
    }

    fn on_vsoc(&mut self, cfg: &RunConfig, reply: Result<bool, String>) -> (act: CaseAction)
        requires
            old(self).stage == Stage::AskingVsoc,
        ensures
            final(self).before == old(self).before,
            stepped(*cfg, *old(self), CaseEvent::Vsoc(reply), *final(self), act),
    {
        self.push_note(vsoc_note(&reply));
        self.stage = Stage::Done;
        CaseAction::Finish { result: self.conclusion(), cleanup: true }
    }

    /// Take the outcome of the last action and decide the next one.
    pub fn step(&mut self, cfg: &RunConfig, ev: CaseEvent) -> (act: CaseAction)
        requires
            well_formed(*old(self)),
            accepts(old(self).stage, ev),
        ensures
            well_formed(*final(self)),
            stepped(*cfg, *old(self), ev, *final(self), act),
    {
        let ghost v = self@;
        match (self.stage, ev) {
            (Stage::Start, CaseEvent::Begin) => {
                if let Some(reason) = self.case.skip {
                    self.stage = Stage::Done;
                    CaseAction::Finish { result: result(&self.case, "SKIP", reason.to_string()), cleanup: false }
                } else if self.case.group == Group::Traffic {
                    self.stage = Stage::StatsBefore;
                    CaseAction::ReadStats
                } else if self.case.listen.len() > 0 {
                    self.stage = Stage::Listening { started: 0 };
                    self.start_listener(0)
                } else {
                    self.stage = Stage::Clocking;
                    CaseAction::ReadClock
                }
            },
            (Stage::Listening { started }, CaseEvent::Done) => {
                let n = self.case.listen.len();
                assert(started < n);
                if started + 1 < n {
                    self.stage = Stage::Listening { started: started + 1 };
                    self.start_listener(started + 1)
                } else {
                    self.stage = Stage::Settling;
                    CaseAction::Pause { ms: LISTEN_READY_MS }
                }
            },
            (Stage::Listening { .. }, CaseEvent::Failed(m)) => {
                self.stage = Stage::Done;
                let r = result(&self.case, "SKIP", prefixed("listener failed: ", m.as_str()));
                CaseAction::Finish { result: r, cleanup: false }
            },
            (Stage::Settling, CaseEvent::Done) => {
                self.stage = Stage::Clocking;
                CaseAction::ReadClock
            },
            (Stage::Clocking, CaseEvent::Clock(t)) => {
                self.stage = Stage::Sending;
                self.since = t;
                self.send_traffic(cfg)
            },
            (Stage::Clocking, CaseEvent::Failed(m)) => {
                self.stage = Stage::Done;
                let r = result(&self.case, "FAIL", prefixed("watermark failed: ", m.as_str()));
                CaseAction::Finish { result: r, cleanup: true }
            },
            (Stage::Sending, CaseEvent::Verdict(verdict)) => {
                self.stage = Stage::Collecting;
                self.verdict = verdict;
                CaseAction::CollectEvents { wait_ms: cfg.event_settle_ms, since: self.since }
            },
            (Stage::Sending, CaseEvent::Failed(m)) => {
                self.stage = Stage::Done;
                let r = result(&self.case, "FAIL", prefixed("traffic failed: ", m.as_str()));
                CaseAction::Finish { result: r, cleanup: true }
            },
            (Stage::Collecting, CaseEvent::Events(events)) => self.on_events(cfg, events),
            (Stage::Confirming, CaseEvent::Sent(sent)) => self.on_sent(cfg, sent),
            (Stage::ReadingLog, CaseEvent::Log(log)) => self.on_log(cfg, log),
            (Stage::AskingVsoc, CaseEvent::Vsoc(reply)) => self.on_vsoc(cfg, reply),
            (Stage::StatsBefore, CaseEvent::Stats(s)) => {
                self.stage = Stage::StatsSending;
                self.before = Some(s);
                self.send_traffic(cfg)
            },
            (Stage::StatsBefore, CaseEvent::Failed(m)) => {
                self.stage = Stage::Done;
                let r = result(&self.case, "FAIL", prefixed("stats failed: ", m.as_str()));
                CaseAction::Finish { result: r, cleanup: false }
            },
            (Stage::StatsSending, CaseEvent::Verdict(_)) => {
                self.stage = Stage::StatsWaiting;
                CaseAction::Pause { ms: STATS_WINDOW_MS }
            },
            (Stage::StatsSending, CaseEvent::Failed(m)) => {
                self.stage = Stage::Done;
                let r = result(&self.case, "FAIL", prefixed("traffic failed: ", m.as_str()));
                CaseAction::Finish { result: r, cleanup: false }
            },
            (Stage::StatsWaiting, CaseEvent::Done) => {
                self.stage = Stage::StatsAfter;
                CaseAction::ReadStats
            },
            (Stage::StatsAfter, CaseEvent::Stats(after)) => {
                self.stage = Stage::Done;
                let r = match &self.before {
                    Some(b) => judge_traffic(&self.case, b, &after),
                    None => judge_traffic(&self.case, &after, &after),
                };
                CaseAction::Finish { result: r, cleanup: false }
            },
            (Stage::StatsAfter, CaseEvent::Failed(m)) => {
                self.stage = Stage::Done;
                let r = result(&self.case, "FAIL", prefixed("stats failed: ", m.as_str()));
                CaseAction::Finish { result: r, cleanup: false }
            },
            _ => {
                CaseAction::ReadClock
            },
        }
    }
}


/// Traffic is only ever sent right after a watermark was taken (a flow
/// case) or a statistics snapshot was read (a statistics case), so every
/// event it causes is newer than the watermark; and a finished run takes
/// no more events.
pub proof fn lemma_traffic_after_watermark(cfg: RunConfig, old: CaseRun, ev: CaseEvent, new: CaseRun, act: CaseAction)
    requires
        stepped(cfg, old, ev, new, act),
    ensures
        act is SendTraffic ==> (old.stage == Stage::Clocking && ev is Clock && new.since
            == ev->Clock_0) || (old.stage == Stage::StatsBefore && ev is Stats),
        act is Finish ==> new.stage == Stage::Done,
        forall|e: CaseEvent| !accepts(Stage::Done, e),
{
}

} // verus!
