use crate::commands::DaemonCommand;
use crate::text::{bool_str, bool_text, dec_str, u64_to_string};
use vstd::prelude::*;
use vstd::string::StringExecFns;

verus! {

// Screenshot ticker: the stateful scheduler that decides when a capture is
// due and which sequence id it uses. It is owned exclusively by the ticker's
// execution context and mutated only by daemon-side operations and by the
// once-per-second tick event.

/// The ticker's mutable state. The schedule is Idle while `ticking` is
/// false, Active while `ticking && !paused`, and Suspended while
/// `ticking && paused`.
#[derive(Clone, Copy, PartialEq, Eq, Debug)]
pub struct ScreenShotter {
    /// Configured number of one-second ticks between captures; constant
    /// after construction.
    pub base_ticks: u16,
    /// Ticks counted so far, reset to zero by each capture and by Start.
    pub ticks: u16,
    /// Whether the schedule is active at all; set by Start, never unset by
    /// Pause.
    pub ticking: bool,
    /// The most recently used capture sequence number; `None` until the
    /// first capture, `Some` ever after.
    pub last_id: Option<u64>,
    /// Whether a running schedule is temporarily suspended.
    pub paused: bool,
}

/// What the ticker context sends back to the accept loop for one operation.
#[derive(Clone, Copy, PartialEq, Eq, Debug)]
pub enum TokioMessage {
    Ping,
    State(ScreenShotter),
    Noop,
}

/// What one tick event decided: nothing due, a capture with a known sequence
/// id, or the first capture, whose id must still be discovered by scanning
/// the output directory.
#[derive(Clone, Copy, PartialEq, Eq, Debug)]
pub enum CaptureStep {
    NoCapture,
    Capture(u64),
    CaptureFirst,
}

/// What the ticker context does with one operation: answer, or stop running.
#[derive(Clone, Copy, PartialEq, Eq, Debug)]
pub enum TickerVerdict {
    Reply(TokioMessage),
    Stop,
}

/// The ticker at daemon startup: idle, nothing captured yet, the counter
/// holding a full interval.
pub open spec fn spec_new(base_ticks: u16) -> ScreenShotter {
    ScreenShotter {
        base_ticks,
        ticks: base_ticks,
        ticking: false,
        last_id: None,
        paused: false,
    }
}

/// The sequence id of the next capture once a previous id is known: one
/// more, clamped at the largest representable id.
pub open spec fn next_capture_id(prev: u64) -> u64 {
    if prev == u64::MAX {
        prev
    } else {
        (prev + 1) as u64
    }
}

/// The state after one tick event: a no-op outside the Active state; in it,
/// the counter advances, and when a capture falls due the counter resets and
/// a known sequence id moves forward.
pub open spec fn tick_next(ss: ScreenShotter) -> ScreenShotter {
    if !ss.ticking || ss.paused {
        ss
    } else if ss.ticks + 1 >= ss.base_ticks {
        ScreenShotter {
            ticks: 0,
            last_id: match ss.last_id {
                Some(i) => Some(next_capture_id(i)),
                None => None,
            },
            ..ss
        }
    } else {
        ScreenShotter { ticks: (ss.ticks + 1) as u16, ..ss }
    }
}

/// What one tick event decides.
pub open spec fn tick_capture(ss: ScreenShotter) -> CaptureStep {
    if !ss.ticking || ss.paused {
        CaptureStep::NoCapture
    } else if ss.ticks + 1 >= ss.base_ticks {
        match ss.last_id {
            Some(i) => CaptureStep::Capture(next_capture_id(i)),
            None => CaptureStep::CaptureFirst,
        }
    } else {
        CaptureStep::NoCapture
    }
}

/// The state after one daemon-side operation. Start makes the schedule
/// Active from any prior state and restarts the interval; Pause and Resume
/// only flip the suspension flag and are harmless wherever they arrive.
pub open spec fn apply_command(ss: ScreenShotter, cmd: DaemonCommand) -> ScreenShotter {
    match cmd {
        DaemonCommand::Start => ScreenShotter { ticking: true, paused: false, ticks: 0, ..ss },
        DaemonCommand::Resume => ScreenShotter { paused: false, ..ss },
        DaemonCommand::Pause => ScreenShotter { paused: true, ..ss },
        _ => ss,
    }
}

/// The reply for one operation; `GetState` answers with a snapshot of the
/// state the operation found.
pub open spec fn command_reply(ss: ScreenShotter, cmd: DaemonCommand) -> TokioMessage {
    match cmd {
        DaemonCommand::Ping => TokioMessage::Ping,
        DaemonCommand::GetState => TokioMessage::State(ss),
        _ => TokioMessage::Noop,
    }
}

impl ScreenShotter {
    /// The counter never exceeds the configured interval.
    pub open spec fn wf(&self) -> bool {
        self.ticks <= self.base_ticks
    }

    pub fn new(base_ticks: u16) -> (r: ScreenShotter)
        ensures
            r == spec_new(base_ticks),
            r.wf(),
    {
        ScreenShotter {
            base_ticks,
            ticks: base_ticks,
            ticking: false,
            last_id: None,
            paused: false,
        }
    }

    /// One daemon-side operation. Exit stops the ticker context without an
    /// answer; every other operation mutates the state as `apply_command`
    /// says and is answered as `command_reply` says. In particular Start
    /// always resets the counter to zero and makes the schedule Active,
    /// whatever the prior state.
    pub fn handle_command(&mut self, cmd: &DaemonCommand) -> (r: TickerVerdict)
        requires
            old(self).wf(),
        ensures
            final(self).wf(),
            cmd is Exit ==> r == TickerVerdict::Stop && *final(self) == *old(self),
            !(cmd is Exit) ==> *final(self) == apply_command(*old(self), *cmd) && r
                == TickerVerdict::Reply(command_reply(*old(self), *cmd)),
            cmd is Start ==> final(self).ticks == 0 && final(self).ticking
                && !final(self).paused,
    {
        match cmd {
            DaemonCommand::Ping => TickerVerdict::Reply(TokioMessage::Ping),
            DaemonCommand::GetState => TickerVerdict::Reply(TokioMessage::State(*self)),
            DaemonCommand::Start => {
                self.ticking = true;
                self.paused = false;
                self.ticks = 0;
                TickerVerdict::Reply(TokioMessage::Noop)
            },
            DaemonCommand::Resume => {
                self.paused = false;
                TickerVerdict::Reply(TokioMessage::Noop)
            },
            DaemonCommand::Pause => {
                self.paused = true;
                TickerVerdict::Reply(TokioMessage::Noop)
            },
            DaemonCommand::Exit => TickerVerdict::Stop,
            DaemonCommand::Noop => TickerVerdict::Reply(TokioMessage::Noop),
        }
    }

    /// One tick event.
    pub fn on_tick(&mut self) -> (r: CaptureStep)
        requires
            old(self).wf(),
        ensures
            final(self).wf(),
            *final(self) == tick_next(*old(self)),
            r == tick_capture(*old(self)),
    {
        if !self.ticking || self.paused {
            return CaptureStep::NoCapture;
        }
        if self.base_ticks == 0 || self.ticks >= self.base_ticks - 1 {
            self.ticks = 0;
            match self.last_id {
                Some(i) => {
                    let id = if i == u64::MAX {
                        i
                    } else {
                        i + 1
                    };
                    self.last_id = Some(id);
                    CaptureStep::Capture(id)
                },
                None => CaptureStep::CaptureFirst,
            }
        } else {
            self.ticks = self.ticks + 1;
            CaptureStep::NoCapture
        }
    }

    /// Records the sequence id the first capture discovered by scanning the
    /// output directory; every later capture increments it in memory and no
    /// directory is scanned again.
    pub fn record_first_id(&mut self, id: u64)
        requires
            old(self).wf(),
        ensures
            final(self).wf(),
            *final(self) == (ScreenShotter { last_id: Some(id), ..*old(self) }),
    {
        self.last_id = Some(id);
    }
}

/// The state dump `GetState` answers with: one `key: value` line per field,
/// in a fixed order, an absent last id rendered as `0`.
pub open spec fn state_text(ss: ScreenShotter) -> Seq<char> {
    "base_ticks: "@ + dec_str(ss.base_ticks as nat) + "\nticks: "@ + dec_str(ss.ticks as nat)
        + "\nticking: "@ + bool_text(ss.ticking) + "\nlast_id: "@ + dec_str(
        last_id_or_zero(ss) as nat,
    ) + "\npaused: "@ + bool_text(ss.paused)
}

pub open spec fn last_id_or_zero(ss: ScreenShotter) -> u64 {
    match ss.last_id {
        Some(i) => i,
        None => 0,
    }
}

/// The reply text of each message; a `Noop` answer is the empty text, sent
/// as a zero-length frame.
pub open spec fn message_text(m: TokioMessage) -> Seq<char> {
    match m {
        TokioMessage::Ping => "ping"@,
        TokioMessage::State(ss) => state_text(ss),
        TokioMessage::Noop => Seq::empty(),
    }
}

impl TokioMessage {
    pub fn to_string(&self) -> (r: String)
        ensures
            r@ == message_text(*self),
    {
        match self {
            TokioMessage::Ping => "ping".to_owned(),
            TokioMessage::Noop => {
                proof {
                    reveal_strlit("");
                }
                assert(""@ =~= Seq::<char>::empty());
                "".to_owned()
            },
            TokioMessage::State(ss) => {
                let mut s = "base_ticks: ".to_owned();
                let base = u64_to_string(ss.base_ticks as u64);
                s.append(base.as_str());
                s.append("\nticks: ");
                let ticks = u64_to_string(ss.ticks as u64);
                s.append(ticks.as_str());
                s.append("\nticking: ");
                s.append(bool_str(ss.ticking));
                s.append("\nlast_id: ");
                let id = match ss.last_id {
                    Some(i) => i,
                    None => 0u64,
                };
                let id_text = u64_to_string(id);
                s.append(id_text.as_str());
                s.append("\npaused: ");
                s.append(bool_str(ss.paused));
                assert(s@ =~= state_text(*ss));
                s
            },
        }
    }
}

/// The file name a capture with sequence id `id` is stored under, inside the
/// output directory.
pub open spec fn capture_file_text(id: u64) -> Seq<char> {
    "screen_"@ + dec_str(id as nat) + ".jpeg"@
}

pub fn capture_file_name(id: u64) -> (r: String)
    ensures
        r@ == capture_file_text(id),
{
    let mut s = "screen_".to_owned();
    let digits = u64_to_string(id);
    s.append(digits.as_str());
    s.append(".jpeg");
    assert(s@ =~= capture_file_text(id));
    s
}

/// Law: the last sequence id is `None` until the first capture and `Some`
/// ever after — no tick event and no operation forgets a known id.
pub proof fn lemma_last_id_persists(ss: ScreenShotter, cmd: DaemonCommand)
    requires
        ss.last_id is Some,
    ensures
        tick_next(ss).last_id is Some,
        apply_command(ss, cmd).last_id is Some,
{
}

/// The state after `n` consecutive tick events.
pub open spec fn run_state(ss: ScreenShotter, n: nat) -> ScreenShotter
    decreases n,
{
    if n == 0 {
        ss
    } else {
        run_state(tick_next(ss), (n - 1) as nat)
    }
}

/// How many captures `n` consecutive tick events fire.
pub open spec fn run_captures(ss: ScreenShotter, n: nat) -> nat
    decreases n,
{
    if n == 0 {
        0
    } else {
        (if tick_capture(ss) is NoCapture {
            0nat
        } else {
            1nat
        }) + run_captures(tick_next(ss), (n - 1) as nat)
    }
}

/// Runs of ticks compose.
proof fn lemma_run_split(ss: ScreenShotter, a: nat, b: nat)
    ensures
        run_state(ss, a + b) == run_state(run_state(ss, a), b),
        run_captures(ss, a + b) == run_captures(ss, a) + run_captures(run_state(ss, a), b),
    decreases a,
{
    if a > 0 {
        lemma_run_split(tick_next(ss), (a - 1) as nat, b);
    }
}

/// While the counter stays short of the interval, ticks only count.
proof fn lemma_run_quiet(ss: ScreenShotter, n: nat)
    requires
        ss.ticking,
        !ss.paused,
        ss.ticks + n < ss.base_ticks,
    ensures
        run_captures(ss, n) == 0,
        run_state(ss, n) == (ScreenShotter { ticks: (ss.ticks + n) as u16, ..ss }),
    decreases n,
{
    if n == 0 {
        assert(run_state(ss, 0) == ss);
        assert(ScreenShotter { ticks: (ss.ticks + 0) as u16, ..ss } == ss);
    } else {
        lemma_run_quiet(tick_next(ss), (n - 1) as nat);
    }
}

/// A ticker that is not Active ignores ticks altogether.
proof fn lemma_run_idle(ss: ScreenShotter, n: nat)
    requires
        !ss.ticking || ss.paused,
    ensures
        run_captures(ss, n) == 0,
        run_state(ss, n) == ss,
    decreases n,
{
    if n > 0 {
        lemma_run_idle(tick_next(ss), (n - 1) as nat);
    }
}

/// From anywhere inside an interval in the Active state, one full interval
/// of ticks fires exactly one capture.
proof fn lemma_one_capture_per_interval(ss: ScreenShotter)
    requires
        ss.wf(),
        ss.ticking,
        !ss.paused,
        ss.ticks < ss.base_ticks,
    ensures
        run_captures(ss, ss.base_ticks as nat) == 1,
{
    let base = ss.base_ticks as nat;
    let t = ss.ticks as nat;
    let quiet = (base - 1 - t) as nat;
    lemma_run_quiet(ss, quiet);
    let s1 = run_state(ss, quiet);
    assert(s1.ticks + 1 >= s1.base_ticks);
    let s2 = tick_next(s1);
    assert(!(tick_capture(s1) is NoCapture));
    assert(s2.ticks == 0 && s2.ticking && !s2.paused && s2.base_ticks == ss.base_ticks);
    lemma_run_split(ss, quiet, (t + 1) as nat);
    lemma_run_split(s1, 1, t);
    assert(run_captures(s2, 0) == 0);
    assert(run_state(s2, 0) == s2);
    assert(run_captures(s1, 1) == 1);
    assert(run_state(s1, 1) == s2);
    if t > 0 {
        lemma_run_quiet(s2, t);
    } else {
        assert(run_captures(s2, 0) == 0);
    }
}

/// Law: in the Active state, with the counter just reset by a capture or by
/// Start, fewer than `base_ticks` tick events fire no capture, while exactly
/// `base_ticks` of them fire exactly one and leave the counter at zero in
/// the Active state again — so exactly `base_ticks` tick events elapse
/// between consecutive captures.
pub proof fn lemma_ticks_between_captures(ss: ScreenShotter, n: nat)
    requires
        ss.wf(),
        ss.ticking,
        !ss.paused,
        ss.ticks == 0,
        ss.base_ticks >= 1,
        n < ss.base_ticks,
    ensures
        run_captures(ss, n) == 0,
        run_captures(ss, ss.base_ticks as nat) == 1,
        run_state(ss, ss.base_ticks as nat).ticks == 0,
        run_state(ss, ss.base_ticks as nat).ticking,
        !run_state(ss, ss.base_ticks as nat).paused,
        run_state(ss, ss.base_ticks as nat).base_ticks == ss.base_ticks,
{
    lemma_run_quiet(ss, n);
    lemma_one_capture_per_interval(ss);
    let base = ss.base_ticks as nat;
    lemma_run_quiet(ss, (base - 1) as nat);
    let s1 = run_state(ss, (base - 1) as nat);
    lemma_run_split(ss, (base - 1) as nat, 1);
    assert(run_state(tick_next(s1), 0) == tick_next(s1));
    assert(run_state(s1, 1) == tick_next(s1));
}

/// Law: Pause suspends the schedule — however many ticks then arrive, no
/// capture fires and nothing moves; a Resume that follows restores the
/// Active state with the counter where Pause left it, and one full interval
/// of ticks after the Resume fires exactly one capture.
pub proof fn lemma_pause_resume(ss: ScreenShotter, n: nat)
    requires
        ss.wf(),
        ss.ticking,
        !ss.paused,
        ss.ticks < ss.base_ticks,
    ensures
        run_captures(apply_command(ss, DaemonCommand::Pause), n) == 0,
        run_state(apply_command(ss, DaemonCommand::Pause), n) == apply_command(
            ss,
            DaemonCommand::Pause,
        ),
        apply_command(apply_command(ss, DaemonCommand::Pause), DaemonCommand::Resume) == ss,
        run_captures(ss, ss.base_ticks as nat) == 1,
{
    let paused = apply_command(ss, DaemonCommand::Pause);
    lemma_run_idle(paused, n);
    assert(apply_command(paused, DaemonCommand::Resume) == ss);
    lemma_one_capture_per_interval(ss);
}

} // verus!
