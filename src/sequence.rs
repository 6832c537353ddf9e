//! A poll-driven sequence engine: one interpreter for every multi-step
//! procedure, run once per tick over a declarative list of steps.
//!
//! The engine never talks to the host itself. Each tick its driver asks
//! [`SequenceEngine::query`] what to read, performs that read, hands the
//! outcome to [`SequenceEngine::advance`], and carries out the actuations it
//! gets back.
use vstd::prelude::*;
use crate::indication::{get_avionics_value, value_at};
use crate::timer::Timer;

verus! {

/// An input to a procedure besides the passing of time.
#[derive(Debug, Clone, Copy, PartialEq, Eq, Structural)]
pub enum FsmMessage {
    /// Begin the procedure.
    StartupAircraft,
    /// The user asked to stop; procedures here ignore it.
    InterruptAircraftStart,
    /// Nothing happened but a tick.
    Tick,
}

/// One write to the host. Values are in thousandths.
#[derive(Debug, Clone, Copy, PartialEq, Eq, Structural)]
pub enum Actuation {
    /// Perform a clickable action: `command` on `device_id` with `value`.
    Click { device_id: i32, command: i32, value: i32 },
    /// Send a simulator-wide command.
    Lockon { command: i32 },
    /// Make sure a two-position switch is on: read `argument` and toggle it
    /// through `command` on `device_id` only when it reads as off.
    SwitchOn { device_id: i32, command: i32, argument: i32 },
}

/// A switch whose argument reads above one half is on.
pub open spec fn reads_on(reading: int) -> bool {
    reading > 500
}

/// Whether a switch reading `reading` (in thousandths) is on.
pub fn is_switch_set(reading: i32) -> (r: bool)
    ensures
        r == reads_on(reading as int),
{
    reading > 500
}

/// Whether a switch reading `reading` must be toggled to end up in state
/// `on`: only when it is not there yet, so acting twice changes nothing.
pub fn needs_toggle(reading: i32, on: bool) -> (r: bool)
    ensures
        r == (reads_on(reading as int) != on),
{
    is_switch_set(reading) != on
}

/// How a readback is held against its threshold.
#[derive(Debug, Clone, Copy, PartialEq, Eq, Structural)]
pub enum Comparison {
    /// Exactly the threshold: for discrete switches.
    Equal,
    /// The threshold or more.
    AtLeast,
    /// The threshold or less.
    AtMost,
}

pub open spec fn compare_holds(cmp: Comparison, reading: int, threshold: int) -> bool {
    match cmp {
        Comparison::Equal => reading == threshold,
        Comparison::AtLeast => reading >= threshold,
        Comparison::AtMost => reading <= threshold,
    }
}

/// Whether `reading` meets `threshold` under `cmp`.
pub fn compare(cmp: Comparison, reading: i32, threshold: i32) -> (r: bool)
    ensures
        r == compare_holds(cmp, reading as int, threshold as int),
{
    match cmp {
        Comparison::Equal => reading == threshold,
        Comparison::AtLeast => reading >= threshold,
        Comparison::AtMost => reading <= threshold,
    }
}

/// What a text scan looks for in an indication dump.
#[derive(Debug, PartialEq, Eq)]
pub enum TextCheck {
    /// The value at the path is exactly these bytes.
    Equals(Vec<u8>),
    /// The dump holds no value at the path (a blank dump holds none).
    Absent,
    /// The dump is not empty at all.
    NonEmpty,
}

/// One step of a procedure.
#[derive(Debug, PartialEq, Eq)]
pub enum Step {
    /// Fire these actuations and go on at once; polling confirms them later.
    Actuate(Vec<Actuation>),
    /// Read an argument of a device each tick and go on once it meets the
    /// threshold.
    PollUntil { device_id: i32, argument: i32, cmp: Comparison, threshold: i32 },
    /// Read a named cockpit parameter each tick and go on once it meets the
    /// threshold.
    PollParam { name: Vec<u8>, cmp: Comparison, threshold: i32 },
    /// Wait this many milliseconds of simulation time from entering the step.
    Settle { duration: i64 },
    /// Read a device's indication dump each tick and go on once the check holds
    /// at the path.
    ScanText { device: i32, path: Vec<Vec<u8>>, check: TextCheck },
}

/// What the driver should read from the host this tick.
#[derive(Debug, PartialEq, Eq)]
pub enum Query {
    Nothing,
    /// An argument of a device, in thousandths.
    Argument { device_id: i32, argument: i32 },
    /// A named cockpit parameter, in thousandths.
    Param { name: Vec<u8> },
    /// A device's indication dump.
    Indication { device: i32 },
}

/// What the driver read from the host this tick.
#[derive(Debug, PartialEq, Eq)]
pub enum Reading {
    /// Nothing was read.
    Nothing,
    /// An argument's value, in thousandths.
    Value(i32),
    /// An indication dump.
    Text(Vec<u8>),
    /// The read failed; the step tries again next tick.
    Failed,
}

/// Where a procedure stands.
#[derive(Debug, Clone, Copy, PartialEq, Eq, Structural)]
pub enum Phase {
    /// Waiting for the start request.
    Idle,
    /// Working on the step at this index.
    Running(usize),
    /// Every step is done.
    Done,
}

/// What one tick of the engine asks of its driver.
#[derive(Debug, PartialEq, Eq)]
pub struct Output {
    /// Actuations to send to the host, in order.
    pub actions: Vec<Actuation>,
    /// The step just entered, for progress reporting.
    pub entered: Option<usize>,
    /// This tick completed the procedure.
    pub finished: bool,
}

pub open spec fn text_check_holds(check: &TextCheck, path: Seq<Seq<u8>>, dump: Seq<u8>) -> bool {
    match check {
        TextCheck::Equals(v) => value_at(dump, path) == Some(v@),
        TextCheck::Absent => value_at(dump, path).is_none(),
        TextCheck::NonEmpty => dump.len() > 0,
    }
}

/// Step `step` lets the procedure go on, given the timer, the clock and the
/// reading of this tick.
pub open spec fn step_ready(step: &Step, timer: Timer, now: int, reading: &Reading) -> bool {
    match step {
        Step::Actuate(_) => true,
        Step::PollUntil { cmp, threshold, .. } => match reading {
            Reading::Value(v) => compare_holds(*cmp, *v as int, *threshold as int),
            _ => false,
        },
        Step::PollParam { cmp, threshold, .. } => match reading {
            Reading::Value(v) => compare_holds(*cmp, *v as int, *threshold as int),
            _ => false,
        },
        Step::Settle { .. } => timer.expired(now),
        Step::ScanText { path, check, .. } => match reading {
            Reading::Text(d) => text_check_holds(check, path@.map_values(|v: Vec<u8>| v@), d@),
            _ => false,
        },
    }
}

/// A field path as plain byte strings.
pub open spec fn path_view(p: Seq<Vec<u8>>) -> Seq<Seq<u8>> {
    p.map_values(|v: Vec<u8>| v@)
}

/// A text check as plain values: 0 with the bytes for `Equals`, 1 for
/// `Absent`, 2 for `NonEmpty`.
pub open spec fn check_view(c: &TextCheck) -> (int, Seq<u8>) {
    match c {
        TextCheck::Equals(v) => (0, v@),
        TextCheck::Absent => (1, Seq::empty()),
        TextCheck::NonEmpty => (2, Seq::empty()),
    }
}

/// `s` is an actuation step firing exactly `acts`.
pub open spec fn is_actuate(s: Step, acts: Seq<Actuation>) -> bool {
    s matches Step::Actuate(a) && a@ == acts
}

/// `s` is a text scan of `device` at `path` with check `check`.
pub open spec fn is_scan(s: Step, device: i32, path: Seq<Seq<u8>>, check: (int, Seq<u8>)) -> bool {
    s matches Step::ScanText { device: d, path: p, check: c } && d == device && path_view(p@)
        == path && check_view(&c) == check
}

/// `s` polls the named parameter `name` against `threshold` under `cmp`.
pub open spec fn is_param_poll(s: Step, name: Seq<u8>, cmp: Comparison, threshold: i32) -> bool {
    s matches Step::PollParam { name: n, cmp: c, threshold: t } && n@ == name && c == cmp && t
        == threshold
}

/// `q` is the read that step `step` needs.
pub open spec fn query_for(step: &Step, q: &Query) -> bool {
    match step {
        Step::PollUntil { device_id, argument, .. } => *q == Query::Argument {
            device_id: *device_id,
            argument: *argument,
        },
        Step::PollParam { name, .. } => q matches Query::Param { name: n } && n@ == name@,
        Step::ScanText { device, .. } => *q == Query::Indication { device: *device },
        _ => *q == Query::Nothing,
    }
}

/// The engine driving one procedure.
#[derive(Debug)]
pub struct SequenceEngine {
    steps: Vec<Step>,
    phase: Phase,
    timer: Timer,
}

impl SequenceEngine {
    pub closed spec fn steps(&self) -> Seq<Step> {
        self.steps@
    }

    pub closed spec fn phase(&self) -> Phase {
        self.phase
    }

    /// The settle timer of the current step.
    pub closed spec fn timer(&self) -> Timer {
        self.timer
    }

    /// The engine never rests on an actuation step: it fires those as it
    /// reaches them.
    pub open spec fn wf(&self) -> bool {
        match self.phase() {
            Phase::Running(i) => i < self.steps().len() && !(self.steps()[i as int] is Actuate),
            _ => true,
        }
    }

    /// Progress as a number: 0 while idle, `i + 1` on step `i`, and one past
    /// the last step once done.
    pub open spec fn position(&self) -> nat {
        match self.phase() {
            Phase::Idle => 0,
            Phase::Running(i) => (i + 1) as nat,
            Phase::Done => self.steps().len() + 1,
        }
    }

    /// The engine would leave its current phase on this tick.
    pub open spec fn ready(&self, event: FsmMessage, now: int, reading: &Reading) -> bool {
        match self.phase() {
            Phase::Idle => event == FsmMessage::StartupAircraft,
            Phase::Running(i) => step_ready(&self.steps()[i as int], self.timer(), now, reading),
            Phase::Done => false,
        }
    }

    /// A new engine for `steps`, waiting for the start request.
    pub fn new(steps: Vec<Step>) -> (r: Self)
        ensures
            r.wf(),
            r.steps() == steps@,
            r.phase() == Phase::Idle,
    {
        SequenceEngine { steps, phase: Phase::Idle, timer: Timer::new(0, 0) }
    }

    /// Where the procedure stands.
    pub fn current_phase(&self) -> (r: Phase)
        ensures
            r == self.phase(),
    {
        self.phase
    }

    /// How many steps the procedure has.
    pub fn step_count(&self) -> (r: usize)
        ensures
            r == self.steps().len(),
    {
        self.steps.len()
    }

    /// What the driver should read from the host before the next tick.
    pub fn query(&self) -> (r: Query)
        requires
            self.wf(),
        ensures
            match self.phase() {
                Phase::Running(i) => query_for(&self.steps()[i as int], &r),
                _ => r == Query::Nothing,
            },
    {
        match self.phase {
            Phase::Running(i) => match &self.steps[i] {
                Step::PollUntil { device_id, argument, .. } => Query::Argument {
                    device_id: *device_id,
                    argument: *argument,
                },
                Step::PollParam { name, .. } => Query::Param { name: name.clone() },
                Step::ScanText { device, .. } => Query::Indication { device: *device },
                _ => Query::Nothing,
            },
            _ => Query::Nothing,
        }
    }
}

/// The timer a step starts with when it is entered at `now`.
pub open spec fn entry_timer(step: &Step, now: int, current: Timer) -> Timer {
    match step {
        Step::Settle { duration } => Timer { start_time: now as i64, expire: *duration },
        _ => current,
    }
}

/// The first step at or after `j` that is not an actuation step, or the
/// number of steps when there is none.
pub open spec fn rest_stop(steps: Seq<Step>, j: int) -> int
    decreases steps.len() - j,
{
    if j < 0 || j >= steps.len() {
        steps.len() as int
    } else if steps[j] is Actuate {
        rest_stop(steps, j + 1)
    } else {
        j
    }
}

/// The actuations of the run of actuation steps that starts at `j`, in
/// order.
pub open spec fn batch_from(steps: Seq<Step>, j: int) -> Seq<Actuation>
    decreases steps.len() - j,
{
    if j < 0 || j >= steps.len() {
        Seq::empty()
    } else {
        match &steps[j] {
            Step::Actuate(a) => a@ + batch_from(steps, j + 1),
            _ => Seq::empty(),
        }
    }
}

pub proof fn lemma_rest_stop_bounds(steps: Seq<Step>, j: int)
    requires
        0 <= j <= steps.len(),
    ensures
        j <= rest_stop(steps, j) <= steps.len(),
        rest_stop(steps, j) < steps.len() ==> !(steps[rest_stop(steps, j)] is Actuate),
    decreases steps.len() - j,
{
    if j < steps.len() && steps[j] is Actuate {
        lemma_rest_stop_bounds(steps, j + 1);
    }
}

/// The step the engine moves on from when its current phase is left.
pub open spec fn next_index(phase: Phase) -> int {
    match phase {
        Phase::Running(i) => i + 1,
        _ => 0,
    }
}

/// `after` and `out` are what one tick with `event`, `now` and `reading`
/// makes of `before`. When the current phase is ready the engine moves on:
/// it fires, in order, the actuations of every actuation step it reaches,
/// stops at the first step that waits (starting its timer if it is a settle
/// step) or at the end, and reports the step it stops at or the end.
/// Otherwise nothing changes and nothing is asked of the driver.
pub open spec fn advanced(
    before: SequenceEngine,
    after: SequenceEngine,
    event: FsmMessage,
    now: int,
    reading: &Reading,
    out: &Output,
) -> bool {
    let steps = before.steps();
    let j = next_index(before.phase());
    let k = rest_stop(steps, j);
    &&& after.steps() == before.steps()
    &&& after.wf()
    &&& if before.ready(event, now, reading) {
        &&& after.phase() == if k < steps.len() {
            Phase::Running(k as usize)
        } else {
            Phase::Done
        }
        &&& after.position() > before.position()
        &&& out.finished == (k >= steps.len())
        &&& out.entered == if k < steps.len() {
            Some(k as usize)
        } else {
            None
        }
        &&& out.actions@ == batch_from(steps, j)
        &&& after.timer() == if k < steps.len() {
            entry_timer(&steps[k], now, before.timer())
        } else {
            before.timer()
        }
    } else {
        &&& after.phase() == before.phase()
        &&& after.timer() == before.timer()
        &&& !out.finished
        &&& out.entered.is_none()
        &&& out.actions@.len() == 0
    }
}

impl SequenceEngine {
    /// Whether the current phase is ready to be left on this tick.
    pub fn is_ready(&self, event: FsmMessage, now: i64, reading: &Reading) -> (r: bool)
        requires
            self.wf(),
        ensures
            r == self.ready(event, now as int, reading),
    {
        match self.phase {
            Phase::Idle => event == FsmMessage::StartupAircraft,
            Phase::Done => false,
            Phase::Running(i) => match &self.steps[i] {
                Step::Actuate(_) => true,
                Step::PollUntil { cmp, threshold, .. } => match reading {
                    Reading::Value(v) => compare(*cmp, *v, *threshold),
                    _ => false,
                },
                Step::PollParam { cmp, threshold, .. } => match reading {
                    Reading::Value(v) => compare(*cmp, *v, *threshold),
                    _ => false,
                },
                Step::Settle { .. } => self.timer.is_expired(now),
                Step::ScanText { path, check, .. } => match reading {
                    Reading::Text(d) => match check {
                        TextCheck::Equals(want) => match get_avionics_value(d.as_slice(), path) {
                            Some(got) => crate::indication::bytes_eq(
                                got.as_slice(),
                                want.as_slice(),
                            ),
                            None => false,
                        },
                        TextCheck::Absent => get_avionics_value(d.as_slice(), path).is_none(),
                        TextCheck::NonEmpty => d.len() > 0,
                    },
                    _ => false,
                },
            },
        }
    }

    /// One tick of the procedure: see [`advanced`] for what it does.
    pub fn advance(&mut self, event: FsmMessage, now: i64, reading: &Reading) -> (out: Output)
        requires
            old(self).wf(),
        ensures
            advanced(*old(self), *final(self), event, now as int, reading, &out),
    {
        if !self.is_ready(event, now, reading) {
            return Output { actions: Vec::new(), entered: None, finished: false };
        }
        let ghost before = *self;
        let ghost steps = self.steps@;
        let n = self.steps.len();
        let start: usize = match self.phase {
            Phase::Running(i) => {
                assert(i < n);
                i + 1
            },
            _ => 0,
        };
        let mut j: usize = start;
        let mut actions: Vec<Actuation> = Vec::new();
        proof {
            assert(actions@ + batch_from(steps, j as int) =~= batch_from(steps, start as int));
        }
        while j < n && matches!(self.steps[j], Step::Actuate(_))
            invariant
                steps == self.steps@,
                n == steps.len(),
                start <= j <= n,
                rest_stop(steps, j as int) == rest_stop(steps, start as int),
                actions@ + batch_from(steps, j as int) == batch_from(steps, start as int),
            decreases n - j,
        {
            match &self.steps[j] {
                Step::Actuate(a) => {
                    let ghost prev = actions@;
                    let mut k: usize = 0;
                    while k < a.len()
                        invariant
                            0 <= k <= a@.len(),
                            actions@ == prev + a@.subrange(0, k as int),
                        decreases a@.len() - k,
                    {
                        actions.push(a[k]);
                        proof {
                            assert(actions@ =~= prev + a@.subrange(0, k + 1));
                        }
                        k = k + 1;
                    }
                    proof {
                        assert(a@.subrange(0, a@.len() as int) =~= a@);
                        assert(batch_from(steps, j as int) == a@ + batch_from(steps, j + 1));
                        assert(actions@ + batch_from(steps, j + 1) =~= prev + batch_from(
                            steps,
                            j as int,
                        ));
                    }
                },
                _ => {},
            }
            j = j + 1;
        }
        proof {
            lemma_rest_stop_bounds(steps, start as int);
            assert(rest_stop(steps, j as int) == j);
            if j < n {
                assert(batch_from(steps, j as int) =~= Seq::<Actuation>::empty());
            }
            assert(actions@ =~= actions@ + batch_from(steps, j as int));
        }
        if j >= n {
            self.phase = Phase::Done;
            Output { actions, entered: None, finished: true }
        } else {
            self.phase = Phase::Running(j);
            match &self.steps[j] {
                Step::Settle { duration } => {
                    self.timer = Timer::new(*duration, now);
                },
                _ => {},
            }
            Output { actions, entered: Some(j), finished: false }
        }
    }
}

/// Consecutive engines of `engines` are linked by ticks, with the inputs
/// and outputs given position by position.
pub open spec fn is_run(
    engines: Seq<SequenceEngine>,
    events: Seq<FsmMessage>,
    times: Seq<int>,
    readings: Seq<Reading>,
    outs: Seq<Output>,
) -> bool {
    &&& engines.len() == outs.len() + 1
    &&& events.len() == outs.len()
    &&& times.len() == outs.len()
    &&& readings.len() == outs.len()
    &&& forall|i: int|
        0 <= i < outs.len() ==> advanced(
            #[trigger] engines[i],
            engines[i + 1],
            events[i],
            times[i],
            &readings[i],
            &outs[i],
        )
}

proof fn lemma_forward_between(
    engines: Seq<SequenceEngine>,
    events: Seq<FsmMessage>,
    times: Seq<int>,
    readings: Seq<Reading>,
    outs: Seq<Output>,
    i: int,
    j: int,
)
    requires
        is_run(engines, events, times, readings, outs),
        0 <= i <= j < engines.len(),
    ensures
        engines[i].position() <= engines[j].position(),
        engines[j].steps() == engines[i].steps(),
    decreases j - i,
{
    if i < j {
        lemma_forward_between(engines, events, times, readings, outs, i, j - 1);
        assert(advanced(
            engines[j - 1],
            engines[j],
            events[j - 1],
            times[j - 1],
            &readings[j - 1],
            &outs[j - 1],
        ));
    }
}

proof fn lemma_stays_between(
    engines: Seq<SequenceEngine>,
    events: Seq<FsmMessage>,
    times: Seq<int>,
    readings: Seq<Reading>,
    outs: Seq<Output>,
    i: int,
    k: int,
    j: int,
)
    requires
        is_run(engines, events, times, readings, outs),
        0 <= i <= k <= j < engines.len(),
        engines[j].phase() == engines[i].phase(),
    ensures
        engines[k].phase() == engines[i].phase(),
{
    lemma_forward_between(engines, events, times, readings, outs, i, k);
    lemma_forward_between(engines, events, times, readings, outs, k, j);
    lemma_forward_between(engines, events, times, readings, outs, i, j);
    if k > i {
        assert(advanced(
            engines[k - 1],
            engines[k],
            events[k - 1],
            times[k - 1],
            &readings[k - 1],
            &outs[k - 1],
        ));
    }
}

proof fn lemma_no_second_finish(
    engines: Seq<SequenceEngine>,
    events: Seq<FsmMessage>,
    times: Seq<int>,
    readings: Seq<Reading>,
    outs: Seq<Output>,
    a: int,
    b: int,
)
    requires
        is_run(engines, events, times, readings, outs),
        0 <= a < b < outs.len(),
        outs[a].finished,
    ensures
        !outs[b].finished,
{
    assert(advanced(engines[a], engines[a + 1], events[a], times[a], &readings[a], &outs[a]));
    assert(advanced(engines[b], engines[b + 1], events[b], times[b], &readings[b], &outs[b]));
    assert(advanced(
        engines[b - 1],
        engines[b],
        events[b - 1],
        times[b - 1],
        &readings[b - 1],
        &outs[b - 1],
    ));
    lemma_forward_between(engines, events, times, readings, outs, a + 1, b);
}

/// Along any run of ticks a procedure only moves forward, never comes back
/// to a phase it has left, and reports its end at most once.
pub proof fn lemma_run_moves_forward(
    engines: Seq<SequenceEngine>,
    events: Seq<FsmMessage>,
    times: Seq<int>,
    readings: Seq<Reading>,
    outs: Seq<Output>,
)
    requires
        is_run(engines, events, times, readings, outs),
    ensures
        forall|i: int, j: int|
            0 <= i <= j < engines.len() ==> engines[i].position() <= engines[j].position(),
        forall|i: int, k: int, j: int|
            0 <= i <= k <= j < engines.len() && #[trigger] engines[j].phase() == #[trigger] engines[i].phase()
                ==> #[trigger] engines[k].phase() == engines[i].phase(),
        forall|i: int, j: int|
            0 <= i < outs.len() && 0 <= j < outs.len() && outs[i].finished && outs[j].finished
                ==> i == j,
{
    assert forall|i: int, j: int| 0 <= i <= j < engines.len() implies engines[i].position()
        <= engines[j].position() by {
        lemma_forward_between(engines, events, times, readings, outs, i, j);
    }
    assert forall|i: int, k: int, j: int|
        0 <= i <= k <= j < engines.len() && #[trigger] engines[j].phase() == #[trigger] engines[i].phase() implies #[trigger] engines[k].phase()
        == engines[i].phase() by {
        lemma_stays_between(engines, events, times, readings, outs, i, k, j);
    }
    assert forall|i: int, j: int|
        0 <= i < outs.len() && 0 <= j < outs.len() && outs[i].finished && outs[j].finished
            implies i == j by {
        if i < j {
            lemma_no_second_finish(engines, events, times, readings, outs, i, j);
        } else if j < i {
            lemma_no_second_finish(engines, events, times, readings, outs, j, i);
        }
    }
}

} // verus!
