//! Per-isolate accounting: the limits of the running script and the
//! counters that are held against them.

use vstd::prelude::*;
use crate::time::{Duration, Instant, saturating_sum, span_between};

verus! {

/// Why a script did not run to completion.
#[derive(Debug)]
pub enum ExecutionError {
    /// The wall-clock budget of the script is used up.
    ExecutionTimeout,
    /// The CPU budget of the script is used up.
    CpuTimeout,
    /// The engine was terminated from outside while its CPU budget still
    /// held: it had run into its heap limit.
    Terminated(String),
    /// The guest threw, or the engine failed to evaluate the script.
    Script(String),
}

/// The text shown to the client for a used-up wall-clock budget.
pub open spec fn execution_timeout_text() -> Seq<char> {
    "Isolate has run out of execution time"@
}

/// The text shown to the client for a used-up CPU budget.
pub open spec fn cpu_timeout_text() -> Seq<char> {
    "Isolate has run out of CPU time"@
}

impl ExecutionError {
    /// The text shown to the client for this error.
    pub open spec fn text(&self) -> Seq<char> {
        match self {
            ExecutionError::ExecutionTimeout => execution_timeout_text(),
            ExecutionError::CpuTimeout => cpu_timeout_text(),
            ExecutionError::Terminated(text) => text@,
            ExecutionError::Script(text) => text@,
        }
    }

    /// Whether the engine was terminated from outside, which leaves it
    /// unusable for further scripts.
    pub open spec fn terminates_engine(&self) -> bool {
        self is CpuTimeout || self is Terminated
    }

    /// The text shown to the client for this error.
    pub fn message(&self) -> (text: String)
        ensures
            text@ == self.text(),
    {
        match self {
            ExecutionError::ExecutionTimeout => "Isolate has run out of execution time".to_owned(),
            ExecutionError::CpuTimeout => "Isolate has run out of CPU time".to_owned(),
            ExecutionError::Terminated(text) => text.clone(),
            ExecutionError::Script(text) => text.clone(),
        }
    }

    /// Whether the session has to close after this error.
    pub fn closes_session(&self) -> (closes: bool)
        ensures
            closes == self.terminates_engine(),
    {
        match self {
            ExecutionError::CpuTimeout => true,
            ExecutionError::Terminated(_) => true,
            _ => false,
        }
    }
}

/// A guest asked for more resources than its session allows.
#[derive(Clone, Copy, Debug, PartialEq, Eq, Structural)]
pub struct RequestLimitExceeded {
    /// The cap that was reached.
    pub limit: u32,
}

/// The time budget that a limit in milliseconds stands for: none for zero.
pub open spec fn time_limit_of(millis: u64) -> Option<Duration> {
    if millis == 0 {
        None
    } else {
        Some(Duration { nanos: (millis * 1_000_000) as u128 })
    }
}

/// The request cap that a wire value stands for: none for zero.
pub open spec fn request_limit_of(limit: u32) -> Option<u32> {
    if limit == 0 {
        None
    } else {
        Some(limit)
    }
}

/// The accounting record of one isolate.
#[derive(Clone, Copy, Debug)]
pub struct ExecutionResourceTable {
    /// Wall-clock budget of the current script.
    pub execution_time_limit: Option<Duration>,
    /// On-CPU budget of the current script.
    pub cpu_time_limit: Option<Duration>,
    /// Cap on the resource requests of the session.
    pub resource_requests_limit: Option<u32>,
    /// When the current script began.
    pub started_at: Option<Instant>,
    /// When the wakeup in progress began; set only while the engine runs.
    pub current_wakeup: Option<Instant>,
    /// CPU time of the completed wakeups of the current script.
    pub cpu_time: Duration,
    /// How many resource requests were admitted.
    pub resource_requests_count: u32,
}

impl ExecutionResourceTable {
    /// The record of a fresh isolate: no limits, nothing running, nothing
    /// counted.
    pub open spec fn empty() -> Self {
        ExecutionResourceTable {
            execution_time_limit: None,
            cpu_time_limit: None,
            resource_requests_limit: None,
            started_at: None,
            current_wakeup: None,
            cpu_time: Duration { nanos: 0 },
            resource_requests_count: 0,
        }
    }

    /// The record with the three limits replaced; zero lifts a limit.
    pub open spec fn after_initialize(
        self,
        execution_time_limit_ms: u64,
        cpu_time_limit_ms: u64,
        resource_requests_limit: u32,
    ) -> Self {
        ExecutionResourceTable {
            execution_time_limit: time_limit_of(execution_time_limit_ms),
            cpu_time_limit: time_limit_of(cpu_time_limit_ms),
            resource_requests_limit: request_limit_of(resource_requests_limit),
            ..self
        }
    }

    /// The record at the start of a script.
    pub open spec fn after_begin_script(self, now: Instant) -> Self {
        ExecutionResourceTable {
            started_at: Some(now),
            current_wakeup: None,
            cpu_time: Duration { nanos: 0 },
            ..self
        }
    }

    /// The record once the script is done.
    pub open spec fn after_finish_script(self) -> Self {
        ExecutionResourceTable { started_at: None, current_wakeup: None, ..self }
    }

    /// Whether the wall-clock budget is used up at `now`.
    pub open spec fn out_of_execution_time(self, now: Instant) -> bool {
        self.started_at is Some && self.execution_time_limit is Some && span_between(
            self.started_at->0@,
            now@,
        ) > self.execution_time_limit->0@
    }

    /// Whether the completed wakeups alone have used up the CPU budget.
    pub open spec fn out_of_cpu_time(self) -> bool {
        self.cpu_time_limit is Some && self.cpu_time@ > self.cpu_time_limit->0@
    }

    /// What stops a new wakeup at `now`, if anything does. The wall-clock
    /// budget is looked at first.
    pub open spec fn wakeup_refusal(self, now: Instant) -> Option<ExecutionError> {
        if self.out_of_execution_time(now) {
            Some(ExecutionError::ExecutionTimeout)
        } else if self.out_of_cpu_time() {
            Some(ExecutionError::CpuTimeout)
        } else {
            None
        }
    }

    /// The record after an attempt to open a wakeup at `now`.
    pub open spec fn after_prepare_wakeup(self, now: Instant) -> Self {
        if self.wakeup_refusal(now) is Some {
            self
        } else {
            ExecutionResourceTable { current_wakeup: Some(now), ..self }
        }
    }

    /// The record after the wakeup in progress, if any, is closed at `now`.
    pub open spec fn after_cleanup_wakeup(self, now: Instant) -> Self {
        match self.current_wakeup {
            Some(began) => ExecutionResourceTable {
                cpu_time: Duration {
                    nanos: saturating_sum(self.cpu_time@, span_between(began@, now@)) as u128,
                },
                current_wakeup: None,
                ..self
            },
            None => self,
        }
    }

    /// CPU time used by the current script up to `now`: the completed
    /// wakeups and the part of the wakeup in progress that lies behind.
    pub open spec fn cpu_spent(self, now: Instant) -> nat {
        match self.current_wakeup {
            Some(began) => self.cpu_time@ + span_between(began@, now@),
            None => self.cpu_time@,
        }
    }

    /// Whether the script is on the CPU at `now` and over its CPU budget.
    pub open spec fn over_cpu_budget(self, now: Instant) -> bool {
        self.current_wakeup is Some && self.cpu_time_limit is Some && self.cpu_spent(now)
            > self.cpu_time_limit->0@
    }

    /// Whether one more resource request fits under the cap.
    pub open spec fn admits_request(self) -> bool {
        match self.resource_requests_limit {
            Some(limit) => self.resource_requests_count < limit,
            None => true,
        }
    }

    /// The record after a resource request was asked for.
    pub open spec fn after_resource_request(self) -> Self {
        if self.admits_request() && self.resource_requests_count < u32::MAX {
            ExecutionResourceTable {
                resource_requests_count: (self.resource_requests_count + 1) as u32,
                ..self
            }
        } else {
            self
        }
    }

    /// Whether the count of resource requests respects the cap.
    pub open spec fn within_request_limit(self) -> bool {
        match self.resource_requests_limit {
            Some(limit) => self.resource_requests_count <= limit,
            None => true,
        }
    }

    /// Whether the record is sound at time `t`: the script began no later
    /// than `t`, a wakeup in progress began in between, and the CPU time of
    /// the completed wakeups fits into the time that had passed when the
    /// last of them could have ended.
    pub open spec fn consistent_at(self, t: nat) -> bool {
        match self.started_at {
            None => true,
            Some(started) => started@ <= t && match self.current_wakeup {
                Some(began) => started@ <= began@ <= t && self.cpu_time@ <= began@ - started@,
                None => self.cpu_time@ <= t - started@,
            },
        }
    }

    /// A record with no limits, nothing running and nothing counted.
    pub fn new() -> (table: Self)
        ensures
            table == Self::empty(),
    {
        ExecutionResourceTable {
            execution_time_limit: None,
            cpu_time_limit: None,
            resource_requests_limit: None,
            started_at: None,
            current_wakeup: None,
            cpu_time: Duration::zero(),
            resource_requests_count: 0,
        }
    }

    /// Replaces the three limits. A value of zero lifts the limit; the
    /// time limits are in milliseconds.
    pub fn initialize(
        &mut self,
        execution_time_limit_ms: u64,
        cpu_time_limit_ms: u64,
        resource_requests_limit: u32,
    )
        ensures
            *final(self) == old(self).after_initialize(
                execution_time_limit_ms,
                cpu_time_limit_ms,
                resource_requests_limit,
            ),
    {
        if cpu_time_limit_ms == 0 {
            self.cpu_time_limit = None;
        } else {
            self.cpu_time_limit = Some(Duration::from_millis(cpu_time_limit_ms));
        }
        if execution_time_limit_ms == 0 {
            self.execution_time_limit = None;
        } else {
            self.execution_time_limit = Some(Duration::from_millis(execution_time_limit_ms));
        }
        if resource_requests_limit == 0 {
            self.resource_requests_limit = None;
        } else {
            self.resource_requests_limit = Some(resource_requests_limit);
        }
    }

    /// Starts the accounting of a new script at `now`.
    pub fn begin_script(&mut self, now: Instant)
        ensures
            *final(self) == old(self).after_begin_script(now),
            final(self).consistent_at(now@),
    {
        self.started_at = Some(now);
        self.current_wakeup = None;
        self.cpu_time = Duration::zero();
    }

    /// Ends the accounting of the current script.
    pub fn finish_script(&mut self)
        ensures
            *final(self) == old(self).after_finish_script(),
    {
        self.started_at = None;
        self.current_wakeup = None;
    }

    /// Opens a wakeup at `now`, unless the script is already over one of
    /// its time budgets: then the record stays as it is and the error
    /// names the budget.
    pub fn prepare_wakeup(&mut self, now: Instant) -> (outcome: Result<(), ExecutionError>)
        ensures
            *final(self) == old(self).after_prepare_wakeup(now),
            match outcome {
                Ok(()) => old(self).wakeup_refusal(now) is None,
                Err(e) => old(self).wakeup_refusal(now) == Some(e),
            },
            outcome is Ok ==> final(self).current_wakeup == Some(now),
            forall|prev: nat|
                #[trigger] old(self).consistent_at(prev) && prev <= now@
                    ==> final(self).consistent_at(now@),
    {
        if let Some(started_at) = self.started_at {
            if let Some(execution_time_limit) = self.execution_time_limit {
                if started_at.elapsed(now).exceeds(&execution_time_limit) {
                    return Err(ExecutionError::ExecutionTimeout);
                }
            }
        }
        if let Some(cpu_time_limit) = self.cpu_time_limit {
            if self.cpu_time.exceeds(&cpu_time_limit) {
                return Err(ExecutionError::CpuTimeout);
            }
        }
        self.current_wakeup = Some(now);
        Ok(())
    }

    /// Closes the wakeup in progress at `now` and adds its length to the
    /// CPU time. Without a wakeup in progress nothing changes.
    pub fn cleanup_wakeup(&mut self, now: Instant)
        ensures
            *final(self) == old(self).after_cleanup_wakeup(now),
            final(self).current_wakeup is None,
            forall|prev: nat|
                #[trigger] old(self).consistent_at(prev) && prev <= now@
                    ==> final(self).consistent_at(now@),
    {
        if let Some(current_wakeup) = self.current_wakeup {
            self.cpu_time = self.cpu_time.saturating_add(current_wakeup.elapsed(now));
            self.current_wakeup = None;
        }
    }

    /// Whether the engine has to be terminated at `now`: the script is
    /// inside a wakeup and has spent more CPU time than its budget.
    pub fn cpu_budget_exceeded(&self, now: Instant) -> (exceeded: bool)
        ensures
            exceeded == self.over_cpu_budget(now),
    {
        match (self.current_wakeup, self.cpu_time_limit) {
            (Some(current_wakeup), Some(cpu_time_limit)) => {
                let running: Duration = current_wakeup.elapsed(now);
                match self.cpu_time.as_nanos().checked_add(running.as_nanos()) {
                    Some(spent) => spent > cpu_time_limit.as_nanos(),
                    None => true,
                }
            },
            _ => false,
        }
    }

    /// Counts one resource request of the guest, unless the cap is
    /// reached: then nothing is counted and the request is refused.
    pub fn admit_resource_request(&mut self) -> (outcome: Result<(), RequestLimitExceeded>)
        ensures
            *final(self) == old(self).after_resource_request(),
            match outcome {
                Ok(()) => old(self).admits_request(),
                Err(e) => !old(self).admits_request()
                    && Some(e.limit) == old(self).resource_requests_limit,
            },
    {
        if let Some(limit) = self.resource_requests_limit {
            if self.resource_requests_count >= limit {
                return Err(RequestLimitExceeded { limit });
            }
        }
        if self.resource_requests_count < u32::MAX {
            self.resource_requests_count = self.resource_requests_count + 1;
        }
        Ok(())
    }
}

impl Default for ExecutionResourceTable {
    fn default() -> (table: Self)
        ensures
            table == Self::empty(),
    {
        ExecutionResourceTable::new()
    }
}

/// The heap limit that the engine is told after it ran into the current
/// one: unchanged once a hard limit is reached, else grown by the initial
/// limit.
pub open spec fn heap_limit_after_pressure(
    current: usize,
    initial: usize,
    hard_heap_limit: Option<usize>,
) -> int {
    if hard_heap_limit is Some && current >= hard_heap_limit->0 {
        current as int
    } else {
        current + initial
    }
}

/// Whether the heap limit after pressure fits the machine, so that
/// `near_heap_limit` can be asked for it.
pub fn heap_limit_fits(current: usize, initial: usize, hard_heap_limit: Option<usize>) -> (fits:
    bool)
    ensures
        fits == (heap_limit_after_pressure(current, initial, hard_heap_limit) <= usize::MAX),
{
    if let Some(hard_limit) = hard_heap_limit {
        if current >= hard_limit {
            return true;
        }
    }
    current <= usize::MAX - initial
}

/// Answers the engine's near-heap-limit callback. The caller terminates
/// the running script first; the growth granted here only leaves the
/// script room to unwind. Without a hard limit the heap always grows by
/// `initial`.
pub fn near_heap_limit(current: usize, initial: usize, hard_heap_limit: Option<usize>) -> (new_limit:
    usize)
    requires
        heap_limit_after_pressure(current, initial, hard_heap_limit) <= usize::MAX,
    ensures
        new_limit == heap_limit_after_pressure(current, initial, hard_heap_limit),
        hard_heap_limit is None ==> new_limit == current + initial,
{
    if let Some(hard_limit) = hard_heap_limit {
        if current >= hard_limit {
            return current;
        }
    }
    current + initial
}


/// A script that is run as it stands.
#[derive(Debug)]
pub struct DefaultScriptContext {
    pub name: String,
    pub content: String,
}

/// A script that is loaded as the root of a module graph.
#[derive(Debug)]
pub struct ModuleScriptContext {
    pub name: String,
    pub content: String,
}

/// A script together with the way in which it is to be run.
#[derive(Debug)]
pub enum ScriptContext {
    Default(DefaultScriptContext),
    Module(ModuleScriptContext),
}

impl ScriptContext {
    /// The name under which the engine knows the script.
    pub open spec fn name(&self) -> Seq<char> {
        match self {
            ScriptContext::Default(c) => c.name@,
            ScriptContext::Module(c) => c.name@,
        }
    }

    /// The source text of the script.
    pub open spec fn content(&self) -> Seq<char> {
        match self {
            ScriptContext::Default(c) => c.content@,
            ScriptContext::Module(c) => c.content@,
        }
    }
}


/// One thing that can happen to the record of an isolate.
pub ghost enum TableStep {
    Initialize { execution_time_limit_ms: u64, cpu_time_limit_ms: u64, resource_requests_limit: u32 },
    BeginScript,
    PrepareWakeup,
    CleanupWakeup,
    FinishScript,
    ResourceRequest,
}

/// A step together with the time on the clock at which it happens.
pub ghost struct TimedStep {
    pub at: Instant,
    pub step: TableStep,
}

/// Whether the clock never runs backwards along `steps`.
pub open spec fn clock_monotone(steps: Seq<TimedStep>) -> bool {
    forall|i: int, j: int| 0 <= i <= j < steps.len() ==> steps[i].at@ <= steps[j].at@
}

impl ExecutionResourceTable {
    /// The record after `step` at `now`.
    pub open spec fn after_step(self, step: TableStep, now: Instant) -> Self {
        match step {
            TableStep::Initialize {
                execution_time_limit_ms,
                cpu_time_limit_ms,
                resource_requests_limit,
            } => self.after_initialize(
                execution_time_limit_ms,
                cpu_time_limit_ms,
                resource_requests_limit,
            ),
            TableStep::BeginScript => self.after_begin_script(now),
            TableStep::PrepareWakeup => self.after_prepare_wakeup(now),
            TableStep::CleanupWakeup => self.after_cleanup_wakeup(now),
            TableStep::FinishScript => self.after_finish_script(),
            TableStep::ResourceRequest => self.after_resource_request(),
        }
    }

    /// The record after all of `steps`, first to last.
    pub open spec fn after_steps(self, steps: Seq<TimedStep>) -> Self
        decreases steps.len(),
    {
        if steps.len() == 0 {
            self
        } else {
            self.after_steps(steps.drop_last()).after_step(steps.last().step, steps.last().at)
        }
    }

    /// A sound record never shows more CPU time than the time that has
    /// passed since the script began, the wakeup in progress included.
    pub proof fn lemma_cpu_time_within_elapsed(self, now: Instant)
        requires
            self.started_at is Some,
            self.consistent_at(now@),
        ensures
            self.cpu_spent(now) <= now@ - self.started_at->0@,
            self.cpu_time@ <= now@ - self.started_at->0@,
    {
    }

    /// A record that is sound at one time is sound at every later time.
    pub proof fn lemma_consistent_later(self, t: nat, later: nat)
        requires
            self.consistent_at(t),
            t <= later,
        ensures
            self.consistent_at(later),
    {
    }

    /// Every step keeps a sound record sound, as long as the clock does
    /// not run backwards.
    pub proof fn lemma_step_keeps_consistent(self, prev: nat, step: TableStep, now: Instant)
        requires
            self.consistent_at(prev),
            prev <= now@,
        ensures
            self.after_step(step, now).consistent_at(now@),
    {
    }

    /// Along any run of steps on a clock that does not run backwards, the
    /// record stays sound: at the time of the last step the CPU time is
    /// within the time that has passed since the script began.
    pub proof fn lemma_run_keeps_consistent(self, start: nat, steps: Seq<TimedStep>)
        requires
            self.consistent_at(start),
            clock_monotone(steps),
            steps.len() > 0 ==> start <= steps[0].at@,
        ensures
            steps.len() > 0 ==> self.after_steps(steps).consistent_at(steps.last().at@),
            steps.len() == 0 ==> self.after_steps(steps).consistent_at(start),
        decreases steps.len(),
    {
        if steps.len() > 0 {
            let init = steps.drop_last();
            assert forall|i: int, j: int| 0 <= i <= j < init.len() implies init[i].at@
                <= init[j].at@ by {
                assert(init[i] == steps[i] && init[j] == steps[j]);
            }
            if init.len() > 0 {
                assert(init[0] == steps[0]);
                assert(init.last() == steps[init.len() - 1]);
            }
            self.lemma_run_keeps_consistent(start, init);
            let prev = if init.len() > 0 {
                init.last().at@
            } else {
                start
            };
            self.after_steps(init).lemma_step_keeps_consistent(
                prev,
                steps.last().step,
                steps.last().at,
            );
        }
    }

    /// No step lowers the count of resource requests.
    pub proof fn lemma_step_keeps_count(self, step: TableStep, now: Instant)
        ensures
            self.after_step(step, now).resource_requests_count >= self.resource_requests_count,
    {
    }

    /// Along any run of steps the count of resource requests never goes
    /// down.
    pub proof fn lemma_requests_monotone(self, steps: Seq<TimedStep>)
        ensures
            self.after_steps(steps).resource_requests_count >= self.resource_requests_count,
        decreases steps.len(),
    {
        if steps.len() > 0 {
            self.lemma_requests_monotone(steps.drop_last());
            self.after_steps(steps.drop_last()).lemma_step_keeps_count(
                steps.last().step,
                steps.last().at,
            );
        }
    }

    /// A request that is admitted keeps the count within the cap.
    pub proof fn lemma_request_keeps_cap(self)
        requires
            self.within_request_limit(),
        ensures
            self.after_resource_request().within_request_limit(),
    {
    }

    /// A limit of zero is no limit, and any other value is the limit
    /// itself, for each of the three limits.
    pub proof fn lemma_zero_is_unlimited(self, execution_ms: u64, cpu_ms: u64, requests: u32)
        ensures
            self.after_initialize(execution_ms, cpu_ms, requests).execution_time_limit is None
                <==> execution_ms == 0,
            self.after_initialize(execution_ms, cpu_ms, requests).cpu_time_limit is None <==> cpu_ms
                == 0,
            self.after_initialize(execution_ms, cpu_ms, requests).resource_requests_limit is None
                <==> requests == 0,
            execution_ms != 0 ==> self.after_initialize(
                execution_ms,
                cpu_ms,
                requests,
            ).execution_time_limit->0@ == execution_ms * 1_000_000,
            cpu_ms != 0 ==> self.after_initialize(execution_ms, cpu_ms, requests).cpu_time_limit->0@
                == cpu_ms * 1_000_000,
            requests != 0 ==> self.after_initialize(
                execution_ms,
                cpu_ms,
                requests,
            ).resource_requests_limit == Some(requests),
    {
        assert(execution_ms * 1_000_000 <= u128::MAX) by (nonlinear_arith)
            requires
                execution_ms <= u64::MAX,
        ;
        assert(cpu_ms * 1_000_000 <= u128::MAX) by (nonlinear_arith)
            requires
                cpu_ms <= u64::MAX,
        ;
    }

    /// Without limits no wakeup is refused and the supervisor never finds
    /// the isolate over its budget.
    pub proof fn lemma_unlimited_never_stops(self, now: Instant)
        requires
            self.execution_time_limit is None,
            self.cpu_time_limit is None,
        ensures
            self.wakeup_refusal(now) is None,
            !self.over_cpu_budget(now),
    {
    }
}

} // verus!
