//! Driving one script through the engine: a state machine that is told
//! what the engine did and answers with what to do next, while it keeps
//! the isolate's record in step.

use vstd::prelude::*;
use crate::manager::{result_on_wire, script_done};
use crate::protocol::{IsolateResponse, IsolateResponseView};
use crate::runtime::{ExecutionError, ExecutionResourceTable};
use crate::time::{Duration, Instant};

verus! {

/// Where the driver stands with the current script.
#[derive(Clone, Copy, Debug, PartialEq, Eq, Structural)]
pub enum Phase {
    /// No script is running.
    Idle,
    /// The engine is evaluating the submitted script.
    Entering,
    /// The engine's event loop is being polled.
    Polling,
    /// The event loop has nothing to do until the engine wakes the driver.
    Suspended,
}

impl Phase {
    /// Whether the worker is inside the engine in this phase.
    pub open spec fn inside_engine(self) -> bool {
        self is Entering || self is Polling
    }
}

/// A failure that the engine reported.
#[derive(Debug)]
pub struct EngineFailure {
    /// The engine's message.
    pub text: String,
    /// Whether the engine was terminated from outside.
    pub terminated: bool,
}

/// What the engine, or the clock, did.
#[derive(Debug)]
pub enum EngineEvent {
    /// The engine has evaluated the submitted script, or failed.
    Entered(Result<(), EngineFailure>),
    /// One poll of the event loop has returned: ready with the end of the
    /// script, or pending.
    Polled(Option<Result<(), EngineFailure>>),
    /// The engine has woken the driver.
    Woken,
    /// The wall-clock budget of the script has run out.
    DeadlineElapsed,
}

/// What the worker does next.
#[derive(Debug)]
pub enum DriveAction {
    /// Submit the script to the engine and arm a timer for the wall-clock
    /// budget, if there is one.
    Enter { deadline: Option<Duration> },
    /// Poll the engine's event loop once.
    Poll,
    /// Sleep until the engine wakes the driver.
    AwaitWake,
    /// Report the end of the script to the client; close the session
    /// afterwards where the engine was terminated.
    Done { message: IsolateResponse, close: bool },
    /// The event does not belong to this phase and is passed over.
    Nothing,
}

/// How the script ends where the engine returned `result`, judged on the
/// record after the wakeup was closed: a failure of an engine whose CPU
/// budget is used up is the end of that budget; any other failure of a
/// terminated engine is a termination; the rest is the script's.
pub open spec fn engine_verdict(
    table: ExecutionResourceTable,
    result: Result<(), EngineFailure>,
) -> Result<(), ExecutionError> {
    match result {
        Ok(()) => Ok(()),
        Err(failure) => if table.out_of_cpu_time() {
            Err(ExecutionError::CpuTimeout)
        } else if failure.terminated {
            Err(ExecutionError::Terminated(failure.text))
        } else {
            Err(ExecutionError::Script(failure.text))
        },
    }
}

/// How the script ends with `event`, if it ends with it.
pub open spec fn verdict_of(
    phase: Phase,
    table: ExecutionResourceTable,
    event: EngineEvent,
    now: Instant,
) -> Option<Result<(), ExecutionError>> {
    let closed = table.after_cleanup_wakeup(now);
    match (phase, event) {
        (Phase::Idle, _) => None,
        (_, EngineEvent::DeadlineElapsed) => Some(Err(ExecutionError::ExecutionTimeout)),
        (Phase::Entering, EngineEvent::Entered(Err(failure))) => Some(
            engine_verdict(closed, Err(failure)),
        ),
        (Phase::Entering, EngineEvent::Entered(Ok(()))) => match closed.wakeup_refusal(now) {
            Some(e) => Some(Err(e)),
            None => None,
        },
        (Phase::Polling, EngineEvent::Polled(Some(result))) => Some(engine_verdict(closed, result)),
        (Phase::Suspended, EngineEvent::Woken) => match closed.wakeup_refusal(now) {
            Some(e) => Some(Err(e)),
            None => None,
        },
        _ => None,
    }
}

/// The phase after `event`.
pub open spec fn phase_after(
    phase: Phase,
    table: ExecutionResourceTable,
    event: EngineEvent,
    now: Instant,
) -> Phase {
    if verdict_of(phase, table, event, now) is Some {
        Phase::Idle
    } else {
        match (phase, event) {
            (Phase::Entering, EngineEvent::Entered(Ok(()))) => Phase::Polling,
            (Phase::Polling, EngineEvent::Polled(None)) => Phase::Suspended,
            (Phase::Suspended, EngineEvent::Woken) => Phase::Polling,
            _ => phase,
        }
    }
}

/// The isolate's record after `event`.
pub open spec fn table_after(
    phase: Phase,
    table: ExecutionResourceTable,
    event: EngineEvent,
    now: Instant,
) -> ExecutionResourceTable {
    let closed = table.after_cleanup_wakeup(now);
    if verdict_of(phase, table, event, now) is Some {
        closed.after_finish_script()
    } else {
        match (phase, event) {
            (Phase::Entering, EngineEvent::Entered(Ok(()))) => closed.after_prepare_wakeup(now),
            (Phase::Polling, EngineEvent::Polled(None)) => closed,
            (Phase::Suspended, EngineEvent::Woken) => closed.after_prepare_wakeup(now),
            _ => table,
        }
    }
}

/// Whether driver and record agree: a wakeup is open exactly while the
/// worker is inside the engine.
pub open spec fn in_step(phase: Phase, table: ExecutionResourceTable) -> bool {
    table.current_wakeup is Some <==> phase.inside_engine()
}

/// The driver of one isolate.
#[derive(Debug)]
pub struct Execution {
    phase: Phase,
    nonce: String,
}

impl Execution {
    /// Where the driver stands.
    pub closed spec fn phase(&self) -> Phase {
        self.phase
    }

    /// The nonce under which the running script was scheduled.
    pub closed spec fn nonce(&self) -> Seq<char> {
        self.nonce@
    }

    /// The driver together with `table` as one value.
    pub open spec fn with(&self, table: ExecutionResourceTable) -> DriveState {
        DriveState { phase: self.phase(), nonce: self.nonce(), table }
    }

    /// A driver with no script to run.
    pub fn new() -> (execution: Self)
        ensures
            execution.phase() is Idle,
    {
        Execution { phase: Phase::Idle, nonce: String::new() }
    }

    /// Where the driver stands.
    pub fn current_phase(&self) -> (phase: Phase)
        ensures
            phase == self.phase(),
    {
        self.phase
    }

    /// Starts the script that was scheduled under `nonce`: its accounting
    /// begins at `now`, the first wakeup is opened, and the worker is told
    /// to submit the script, with the wall-clock budget to arm a timer
    /// for. While a script is running nothing is started.
    pub fn schedule(
        &mut self,
        table: &mut ExecutionResourceTable,
        nonce: String,
        now: Instant,
    ) -> (action: DriveAction)
        ensures
            old(self).phase() is Idle ==> {
                &&& final(self).phase() is Entering
                &&& final(self).nonce() == nonce@
                &&& *final(table) == old(table).after_begin_script(now).after_prepare_wakeup(now)
                &&& final(table).current_wakeup == Some(now)
                &&& action == (DriveAction::Enter { deadline: old(table).execution_time_limit })
                &&& in_step(final(self).phase(), *final(table))
                &&& final(table).consistent_at(now@)
            },
            !(old(self).phase() is Idle) ==> {
                &&& *final(self) == *old(self)
                &&& *final(table) == *old(table)
                &&& action is Nothing
            },
            final(self).with(*final(table)) == old(self).with(*old(table)).after(
                DriveInput::Schedule { nonce: nonce@ },
                now,
            ),
            final(table).resource_requests_count == old(table).resource_requests_count,
    {
        match self.phase {
            Phase::Idle => {
                table.begin_script(now);
                table.current_wakeup = Some(now);
                self.phase = Phase::Entering;
                self.nonce = nonce;
                DriveAction::Enter { deadline: table.execution_time_limit }
            },
            _ => DriveAction::Nothing,
        }
    }

    /// Ends the running script with `verdict`.
    fn finish(
        &mut self,
        table: &mut ExecutionResourceTable,
        verdict: Result<(), ExecutionError>,
    ) -> (action: DriveAction)
        ensures
            final(self).phase() is Idle,
            final(self).nonce() == Seq::<char>::empty(),
            *final(table) == old(table).after_finish_script(),
            action matches DriveAction::Done { message, close },
            action->message@ == (IsolateResponseView::ScriptDoneMessage {
                nonce: old(self).nonce(),
                result: result_on_wire(verdict),
            }),
            action->close == (verdict is Err && verdict->Err_0.terminates_engine()),
    {
        let close: bool = match &verdict {
            Ok(()) => false,
            Err(e) => e.closes_session(),
        };
        let mut nonce = String::new();
        core::mem::swap(&mut self.nonce, &mut nonce);
        self.phase = Phase::Idle;
        table.finish_script();
        DriveAction::Done { message: script_done(nonce, verdict), close }
    }

    /// Judges what the engine returned at the end of a wakeup.
    fn judge(table: &ExecutionResourceTable, result: Result<(), EngineFailure>) -> (verdict: Result<
        (),
        ExecutionError,
    >)
        ensures
            verdict == engine_verdict(*table, result),
    {
        match result {
            Ok(()) => Ok(()),
            Err(failure) => {
                let over: bool = match table.cpu_time_limit {
                    Some(limit) => table.cpu_time.exceeds(&limit),
                    None => false,
                };
                if over {
                    Err(ExecutionError::CpuTimeout)
                } else if failure.terminated {
                    Err(ExecutionError::Terminated(failure.text))
                } else {
                    Err(ExecutionError::Script(failure.text))
                }
            },
        }
    }

    /// Takes the driver one step on: closes the wakeup that `event` ends,
    /// decides whether the script is over, and opens the next wakeup
    /// before the worker is sent back into the engine. The script ends
    /// when the engine says so, when a budget is used up before a wakeup,
    /// and when the wall-clock budget runs out, whatever the engine is
    /// doing then. An event that does not belong to the phase changes
    /// nothing.
    pub fn on_engine_event(
        &mut self,
        table: &mut ExecutionResourceTable,
        event: EngineEvent,
        now: Instant,
    ) -> (action: DriveAction)
        ensures
            final(self).phase() == phase_after(old(self).phase(), *old(table), event, now),
            *final(table) == table_after(old(self).phase(), *old(table), event, now),
            final(self).with(*final(table)) == old(self).with(*old(table)).after(
                DriveInput::Engine(event),
                now,
            ),
            match verdict_of(old(self).phase(), *old(table), event, now) {
                Some(verdict) => {
                    &&& action matches DriveAction::Done { message, close }
                    &&& message@ == (IsolateResponseView::ScriptDoneMessage {
                        nonce: old(self).nonce(),
                        result: result_on_wire(verdict),
                    })
                    &&& close == (verdict is Err && verdict->Err_0.terminates_engine())
                },
                None => {
                    &&& final(self).nonce() == old(self).nonce()
                    &&& action == match (old(self).phase(), final(self).phase()) {
                        (Phase::Entering, Phase::Polling) => DriveAction::Poll,
                        (Phase::Suspended, Phase::Polling) => DriveAction::Poll,
                        (Phase::Polling, Phase::Suspended) => DriveAction::AwaitWake,
                        _ => DriveAction::Nothing,
                    }
                },
            },
            in_step(old(self).phase(), *old(table)) ==> in_step(final(self).phase(), *final(table)),
            final(table).resource_requests_count == old(table).resource_requests_count,
            forall|prev: nat|
                #[trigger] old(table).consistent_at(prev) && prev <= now@
                    ==> final(table).consistent_at(now@),
    {
        match (self.phase, event) {
            (Phase::Idle, _) => DriveAction::Nothing,
            (_, EngineEvent::DeadlineElapsed) => {
                table.cleanup_wakeup(now);
                self.finish(table, Err(ExecutionError::ExecutionTimeout))
            },
            (Phase::Entering, EngineEvent::Entered(Err(failure))) => {
                table.cleanup_wakeup(now);
                let verdict = Self::judge(table, Err(failure));
                self.finish(table, verdict)
            },
            (Phase::Entering, EngineEvent::Entered(Ok(()))) => {
                table.cleanup_wakeup(now);
                match table.prepare_wakeup(now) {
                    Ok(()) => {
                        self.phase = Phase::Polling;
                        DriveAction::Poll
                    },
                    Err(e) => self.finish(table, Err(e)),
                }
            },
            (Phase::Polling, EngineEvent::Polled(Some(result))) => {
                table.cleanup_wakeup(now);
                let verdict = Self::judge(table, result);
                self.finish(table, verdict)
            },
            (Phase::Polling, EngineEvent::Polled(None)) => {
                table.cleanup_wakeup(now);
                self.phase = Phase::Suspended;
                DriveAction::AwaitWake
            },
            (Phase::Suspended, EngineEvent::Woken) => {
                table.cleanup_wakeup(now);
                match table.prepare_wakeup(now) {
                    Ok(()) => {
                        self.phase = Phase::Polling;
                        DriveAction::Poll
                    },
                    Err(e) => self.finish(table, Err(e)),
                }
            },
            _ => DriveAction::Nothing,
        }
    }
}


/// No script ends before one was scheduled: while the driver is idle no
/// event makes it report the end of a script.
pub proof fn lemma_no_done_while_idle(table: ExecutionResourceTable, event: EngineEvent, now: Instant)
    ensures
        verdict_of(Phase::Idle, table, event, now) is None,
        phase_after(Phase::Idle, table, event, now) is Idle,
        table_after(Phase::Idle, table, event, now) == table,
{
}

/// When the wall-clock budget runs out the script ends with that error,
/// in whatever phase it is and whatever the engine does, and the record
/// shows no wakeup and no running script afterwards.
pub proof fn lemma_deadline_ends_script(phase: Phase, table: ExecutionResourceTable, now: Instant)
    requires
        !(phase is Idle),
    ensures
        verdict_of(phase, table, EngineEvent::DeadlineElapsed, now) == Some(
            Err::<(), ExecutionError>(ExecutionError::ExecutionTimeout),
        ),
        phase_after(phase, table, EngineEvent::DeadlineElapsed, now) is Idle,
        table_after(phase, table, EngineEvent::DeadlineElapsed, now).current_wakeup is None,
        table_after(phase, table, EngineEvent::DeadlineElapsed, now).started_at is None,
{
}

/// Driver and record stay in step: if a wakeup was open exactly while the
/// worker was inside the engine before an event, the same holds after it.
pub proof fn lemma_event_keeps_in_step(
    phase: Phase,
    table: ExecutionResourceTable,
    event: EngineEvent,
    now: Instant,
)
    requires
        in_step(phase, table),
    ensures
        in_step(phase_after(phase, table, event, now), table_after(phase, table, event, now)),
{
}

/// The driver and the record of its isolate, as one value.
pub ghost struct DriveState {
    pub phase: Phase,
    pub nonce: Seq<char>,
    pub table: ExecutionResourceTable,
}

/// What the worker hands to the driver.
pub ghost enum DriveInput {
    /// A script to run, with the nonce under which it was scheduled.
    Schedule { nonce: Seq<char> },
    /// What the engine, or the clock, did.
    Engine(EngineEvent),
}

/// An input together with the time on the clock at which it arrives.
pub ghost struct TimedInput {
    pub at: Instant,
    pub input: DriveInput,
}

impl DriveState {
    /// The state after `input` at `now`. This is what `schedule` and
    /// `on_engine_event` do to driver and record.
    pub open spec fn after(self, input: DriveInput, now: Instant) -> DriveState {
        match input {
            DriveInput::Schedule { nonce } => if self.phase is Idle {
                DriveState {
                    phase: Phase::Entering,
                    nonce,
                    table: self.table.after_begin_script(now).after_prepare_wakeup(now),
                }
            } else {
                self
            },
            DriveInput::Engine(event) => DriveState {
                phase: phase_after(self.phase, self.table, event, now),
                nonce: if verdict_of(self.phase, self.table, event, now) is Some {
                    Seq::empty()
                } else {
                    self.nonce
                },
                table: table_after(self.phase, self.table, event, now),
            },
        }
    }

    /// The nonce in the report of a script's end that `input` brings
    /// about, if it brings one about.
    pub open spec fn reports(self, input: DriveInput, now: Instant) -> Option<Seq<char>> {
        match input {
            DriveInput::Schedule { .. } => None,
            DriveInput::Engine(event) => if verdict_of(self.phase, self.table, event, now) is Some {
                Some(self.nonce)
            } else {
                None
            },
        }
    }

    /// The state after the first `k` of `inputs`.
    pub open spec fn after_first(self, inputs: Seq<TimedInput>, k: nat) -> DriveState
        decreases k,
    {
        if k == 0 {
            self
        } else {
            self.after_first(inputs, (k - 1) as nat).after(inputs[k - 1].input, inputs[k - 1].at)
        }
    }

    /// Whether the driver and its record agree on being inside the engine.
    pub open spec fn in_step(self) -> bool {
        in_step(self.phase, self.table)
    }
}

/// Whether the clock never runs backwards along `inputs`.
pub open spec fn inputs_in_time(inputs: Seq<TimedInput>) -> bool {
    forall|i: int, j: int| 0 <= i <= j < inputs.len() ==> inputs[i].at@ <= inputs[j].at@
}

/// Whether a script was scheduled under `nonce` among the first `k` of
/// `inputs`.
pub open spec fn scheduled_before(inputs: Seq<TimedInput>, k: int, nonce: Seq<char>) -> bool {
    exists|j: int|
        0 <= j < k && j < inputs.len() && #[trigger] inputs[j].input == (DriveInput::Schedule {
            nonce,
        })
}

/// Along any run of inputs, a wakeup is open exactly while the worker is
/// inside the engine, provided that this held at the start.
pub proof fn lemma_run_keeps_in_step(start: DriveState, inputs: Seq<TimedInput>, k: nat)
    requires
        start.in_step(),
        k <= inputs.len(),
    ensures
        start.after_first(inputs, k).in_step(),
    decreases k,
{
    if k > 0 {
        lemma_run_keeps_in_step(start, inputs, (k - 1) as nat);
    }
}

/// Along any run of inputs from an idle driver, the script that is
/// running was scheduled, earlier in the run, under the nonce that the
/// driver holds.
pub proof fn lemma_running_script_was_scheduled(start: DriveState, inputs: Seq<TimedInput>, k: nat)
    requires
        start.phase is Idle,
        k <= inputs.len(),
    ensures
        !(start.after_first(inputs, k).phase is Idle) ==> scheduled_before(
            inputs,
            k as int,
            start.after_first(inputs, k).nonce,
        ),
    decreases k,
{
    if k > 0 {
        let before = start.after_first(inputs, (k - 1) as nat);
        let after = start.after_first(inputs, k);
        lemma_running_script_was_scheduled(start, inputs, (k - 1) as nat);
        if !(after.phase is Idle) {
            if before.phase is Idle {
                assert(inputs[k - 1].input == (DriveInput::Schedule { nonce: after.nonce }));
            } else {
                assert(after.nonce == before.nonce);
                let j = choose|j: int|
                    0 <= j < k - 1 && j < inputs.len() && #[trigger] inputs[j].input == (
                    DriveInput::Schedule { nonce: before.nonce });
                assert(inputs[j].input == (DriveInput::Schedule { nonce: after.nonce }));
            }
        }
    }
}

/// No end of a script is reported before the script was scheduled: along
/// any run of inputs from an idle driver, every report carries the nonce
/// of a schedule that came earlier in the run.
pub proof fn lemma_done_follows_schedule(
    start: DriveState,
    inputs: Seq<TimedInput>,
    k: nat,
    nonce: Seq<char>,
)
    requires
        start.phase is Idle,
        k < inputs.len(),
        start.after_first(inputs, k).reports(inputs[k as int].input, inputs[k as int].at) == Some(
            nonce,
        ),
    ensures
        scheduled_before(inputs, k as int, nonce),
{
    lemma_running_script_was_scheduled(start, inputs, k);
}

/// Every input keeps a sound record sound, as long as the clock does not
/// run backwards.
pub proof fn lemma_input_keeps_record_sound(
    state: DriveState,
    prev: nat,
    input: DriveInput,
    now: Instant,
)
    requires
        state.table.consistent_at(prev),
        prev <= now@,
    ensures
        state.after(input, now).table.consistent_at(now@),
{
}

/// Along any run of inputs on a clock that does not run backwards, the
/// record stays sound: its CPU time is within the time that has passed
/// since the script began.
pub proof fn lemma_run_keeps_record_sound(
    start: DriveState,
    began: nat,
    inputs: Seq<TimedInput>,
    k: nat,
)
    requires
        start.table.consistent_at(began),
        inputs_in_time(inputs),
        inputs.len() > 0 ==> began <= inputs[0].at@,
        1 <= k <= inputs.len(),
    ensures
        start.after_first(inputs, k).table.consistent_at(inputs[k - 1].at@),
    decreases k,
{
    let before = start.after_first(inputs, (k - 1) as nat);
    if k > 1 {
        lemma_run_keeps_record_sound(start, began, inputs, (k - 1) as nat);
        assert(inputs[k - 2].at@ <= inputs[k - 1].at@);
        lemma_input_keeps_record_sound(
            before,
            inputs[k - 2].at@,
            inputs[k - 1].input,
            inputs[k - 1].at,
        );
    } else {
        assert(before == start);
        lemma_input_keeps_record_sound(before, began, inputs[0].input, inputs[0].at);
    }
}

/// The driver never touches the count of resource requests.
pub proof fn lemma_run_keeps_request_count(start: DriveState, inputs: Seq<TimedInput>, k: nat)
    requires
        k <= inputs.len(),
    ensures
        start.after_first(inputs, k).table.resource_requests_count
            == start.table.resource_requests_count,
    decreases k,
{
    if k > 0 {
        lemma_run_keeps_request_count(start, inputs, (k - 1) as nat);
    }
}

} // verus!
