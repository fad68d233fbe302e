//! The main scheduler: sample, scale, push, wait, forever.
//!
//! The scheduler does no work on the hardware itself. It names the next
//! action, the firmware performs it and reports what came of it, and the
//! scheduler moves on. One iteration converts the accelerator channel
//! `READ_V_COUNT` times, then the brake channel as often, pushes the report of
//! those conversions, and waits. The outcome of a push is not looked at; only
//! a failed conversion ends the cycle, for good.

use crate::pedals::{report_of, PedalReport, Pedals};
use crate::sampler::READ_V_COUNT;
use crate::transport::PushOutcome;
use vstd::prelude::*;

verus! {

/// Milliseconds the scheduler holds between a push and the next conversion.
pub const REPORT_UPDATE_MS: u32 = 5;

/// Conversions in one iteration: one window for each of the two channels.
pub const CONVERSIONS_PER_REPORT: usize = 6;

/// The two analog channels, in the order in which they are converted.
#[derive(Clone, Copy, Debug, PartialEq, Eq, Structural)]
pub enum Channel {
    Accelerator,
    Brake,
}

/// What the firmware is to do next.
#[derive(Clone, Copy, Debug, PartialEq, Eq, Structural)]
pub enum Action {
    /// Run one blocking conversion on the channel.
    Convert(Channel),
    /// Offer the report to the HID endpoint, with interrupts masked.
    Push(PedalReport),
    /// Hold for this many milliseconds.
    Wait(u32),
    /// A conversion has failed: stop.
    Halt,
}

/// What came of the action that the scheduler named last.
#[derive(Clone, Copy, Debug, PartialEq, Eq)]
pub enum Event {
    /// The conversion delivered this raw sample.
    Sample(u16),
    /// The conversion failed.
    ConversionFailed,
    /// The push ended with this outcome.
    Pushed(PushOutcome),
    /// The wait is over.
    Waited,
}

/// Where the scheduler stands in its cycle.
pub enum Phase {
    /// Converting; the samples of this iteration so far, accelerator first.
    Sampling(Seq<u16>),
    /// All conversions are in and this report is to be pushed.
    Pushing(PedalReport),
    /// The push is over and the wait is running.
    Waiting,
    /// A conversion failed. Nothing follows.
    Halted,
}

impl Phase {
    /// The phase in which every iteration begins: converting, nothing taken.
    pub open spec fn start() -> Phase {
        Phase::Sampling(Seq::empty())
    }

    /// While converting, at least one conversion is still missing.
    pub open spec fn wf(self) -> bool {
        self matches Phase::Sampling(taken) ==> taken.len() < CONVERSIONS_PER_REPORT
    }
}

/// The channel of the conversion that follows `taken` earlier ones: the
/// accelerator until its window is full, then the brake.
pub open spec fn channel_after(taken: nat) -> Channel {
    if taken < READ_V_COUNT {
        Channel::Accelerator
    } else {
        Channel::Brake
    }
}

/// The report of one complete pass of conversions: the first window is the
/// accelerator's, the rest the brake's.
pub open spec fn report_of_pass(samples: Seq<u16>) -> PedalReport {
    report_of(samples.take(READ_V_COUNT as int), samples.skip(READ_V_COUNT as int))
}

/// The action that a phase asks for.
pub open spec fn pending_action(phase: Phase) -> Action {
    match phase {
        Phase::Sampling(taken) => Action::Convert(channel_after(taken.len())),
        Phase::Pushing(report) => Action::Push(report),
        Phase::Waiting => Action::Wait(REPORT_UPDATE_MS),
        Phase::Halted => Action::Halt,
    }
}

/// The phase that follows `phase` on `event`. An event that does not answer
/// the pending action changes nothing.
pub open spec fn next_phase(phase: Phase, event: Event) -> Phase {
    match (phase, event) {
        (Phase::Sampling(taken), Event::Sample(v)) => {
            if taken.len() + 1 < CONVERSIONS_PER_REPORT {
                Phase::Sampling(taken.push(v))
            } else {
                Phase::Pushing(report_of_pass(taken.push(v)))
            }
        },
        (Phase::Sampling(_), Event::ConversionFailed) => Phase::Halted,
        (Phase::Pushing(_), Event::Pushed(_)) => Phase::Waiting,
        (Phase::Waiting, Event::Waited) => Phase::start(),
        _ => phase,
    }
}

#[derive(Clone, Copy, Debug)]
enum Stage {
    Sampling,
    Pushing,
    Waiting,
    Halted,
}

/// The scheduler's state between two events.
#[derive(Clone, Copy, Debug)]
pub struct Scheduler {
    stage: Stage,
    /// The conversions of this iteration; the first `taken` are filled.
    samples: [u16; CONVERSIONS_PER_REPORT],
    taken: usize,
    /// The report to push; it counts while pushing.
    report: PedalReport,
}

impl View for Scheduler {
    type V = Phase;

    closed spec fn view(&self) -> Phase {
        match self.stage {
            Stage::Sampling => Phase::Sampling(self.samples@.take(self.taken as int)),
            Stage::Pushing => Phase::Pushing(self.report),
            Stage::Waiting => Phase::Waiting,
            Stage::Halted => Phase::Halted,
        }
    }
}

impl Default for Scheduler {
    fn default() -> (scheduler: Self)
        ensures
            scheduler@ == Phase::start(),
    {
        Scheduler::new()
    }
}

impl Scheduler {
    #[verifier::type_invariant]
    spec fn inv(self) -> bool {
        self.stage is Sampling ==> self.taken < CONVERSIONS_PER_REPORT
    }

    /// A scheduler at the start of its first iteration.
    pub fn new() -> (scheduler: Self)
        ensures
            scheduler@ == Phase::start(),
    {
        let scheduler = Scheduler {
            stage: Stage::Sampling,
            samples: [0; CONVERSIONS_PER_REPORT],
            taken: 0,
            report: PedalReport { x: 0, y: 0 },
        };
        assert(scheduler.samples@.take(0) =~= Seq::<u16>::empty());
        scheduler
    }

    /// The action that the scheduler is waiting on. While it converts, at least
    /// one conversion of the pass is still missing.
    pub fn action(&self) -> (action: Action)
        ensures
            action == pending_action(self@),
            self@.wf(),
    {
        proof {
            use_type_invariant(self);
        }
        match self.stage {
            Stage::Sampling => {
                if self.taken < READ_V_COUNT {
                    Action::Convert(Channel::Accelerator)
                } else {
                    Action::Convert(Channel::Brake)
                }
            },
            Stage::Pushing => Action::Push(self.report),
            Stage::Waiting => Action::Wait(REPORT_UPDATE_MS),
            Stage::Halted => Action::Halt,
        }
    }

    /// Takes in what came of the pending action and names the next one.
    pub fn step(&mut self, event: Event) -> (action: Action)
        ensures
            final(self)@ == next_phase(old(self)@, event),
            action == pending_action(final(self)@),
            final(self)@.wf(),
    {
        proof {
            use_type_invariant(&*self);
        }
        match (self.stage, event) {
            (Stage::Sampling, Event::Sample(v)) => {
                let ghost before = self.samples@.take(self.taken as int);
                let mut samples = self.samples;
                samples[self.taken] = v;
                let taken: usize = self.taken + 1;
                assert(samples@.take(taken as int) =~= before.push(v));
                if taken < CONVERSIONS_PER_REPORT {
                    *self = Scheduler { stage: Stage::Sampling, samples, taken, report: self.report };
                } else {
                    let accel: [u16; READ_V_COUNT] = [samples[0], samples[1], samples[2]];
                    let brake: [u16; READ_V_COUNT] = [samples[3], samples[4], samples[5]];
                    assert(accel@ =~= before.push(v).take(READ_V_COUNT as int));
                    assert(brake@ =~= before.push(v).skip(READ_V_COUNT as int));
                    let report = Pedals::new(accel, brake).report();
                    *self = Scheduler { stage: Stage::Pushing, samples, taken: 0, report };
                }
            },
            (Stage::Sampling, Event::ConversionFailed) => {
                *self = Scheduler { stage: Stage::Halted, samples: self.samples, taken: 0, report: self.report };
            },
            (Stage::Pushing, Event::Pushed(_)) => {
                *self = Scheduler { stage: Stage::Waiting, samples: self.samples, taken: 0, report: self.report };
            },
            (Stage::Waiting, Event::Waited) => {
                *self = Scheduler { stage: Stage::Sampling, samples: self.samples, taken: 0, report: self.report };
                assert(self.samples@.take(0) =~= Seq::<u16>::empty());
            },
            _ => {},
        }
        self.action()
    }
}

/// The phase reached from `phase` when the events arrive in order.
pub open spec fn run(phase: Phase, events: Seq<Event>) -> Phase
    decreases events.len(),
{
    if events.len() == 0 {
        phase
    } else {
        next_phase(run(phase, events.drop_last()), events.last())
    }
}

/// The events of successful conversions that deliver `samples` in order.
pub open spec fn conversions(samples: Seq<u16>) -> Seq<Event> {
    samples.map_values(|v: u16| Event::Sample(v))
}

/// The events of one whole iteration: the conversions of the accelerator
/// window, those of the brake window, the outcome of the push, and the end of
/// the wait.
pub open spec fn iteration(accel: Seq<u16>, brake: Seq<u16>, outcome: PushOutcome) -> Seq<Event> {
    conversions(accel + brake).push(Event::Pushed(outcome)).push(Event::Waited)
}

/// No event leads out of the phases that `wf` admits.
pub proof fn lemma_next_phase_wf(phase: Phase, event: Event)
    requires
        phase.wf(),
    ensures
        next_phase(phase, event).wf(),
{
}

/// Events that arrive one after the other can be taken in two runs.
pub proof fn lemma_run_concat(phase: Phase, first: Seq<Event>, second: Seq<Event>)
    ensures
        run(phase, first + second) == run(run(phase, first), second),
    decreases second.len(),
{
    if second.len() > 0 {
        lemma_run_concat(phase, first, second.drop_last());
        assert((first + second).drop_last() =~= first + second.drop_last());
    }
}

/// While a pass is incomplete, the scheduler holds exactly the samples that
/// were delivered, in their order, and asks for the accelerator until its
/// window is full and for the brake after that.
pub proof fn lemma_sampling(samples: Seq<u16>)
    requires
        samples.len() < CONVERSIONS_PER_REPORT,
    ensures
        run(Phase::start(), conversions(samples)) == Phase::Sampling(samples),
        pending_action(run(Phase::start(), conversions(samples))) == Action::Convert(
            channel_after(samples.len()),
        ),
    decreases samples.len(),
{
    if samples.len() == 0 {
        assert(samples =~= Seq::<u16>::empty());
    } else {
        let earlier = samples.drop_last();
        lemma_sampling(earlier);
        assert(conversions(samples).drop_last() =~= conversions(earlier));
        assert(earlier.push(samples.last()) =~= samples);
    }
}

/// A complete pass ends in the push of the report of its conversions: the
/// accelerator axis from the mean of the first window, the brake axis from
/// the mean of the second.
pub proof fn lemma_pass(accel: Seq<u16>, brake: Seq<u16>)
    requires
        accel.len() == READ_V_COUNT,
        brake.len() == READ_V_COUNT,
    ensures
        run(Phase::start(), conversions(accel + brake)) == Phase::Pushing(report_of(accel, brake)),
        pending_action(run(Phase::start(), conversions(accel + brake))) == Action::Push(
            report_of(accel, brake),
        ),
{
    let samples = accel + brake;
    let earlier = samples.drop_last();
    lemma_sampling(earlier);
    assert(conversions(samples).drop_last() =~= conversions(earlier));
    assert(earlier.push(samples.last()) =~= samples);
    assert(samples.take(READ_V_COUNT as int) =~= accel);
    assert(samples.skip(READ_V_COUNT as int) =~= brake);
}

/// Whatever the push came to, the scheduler goes on in the same way: a
/// failed push leaves it where a successful one leaves it.
pub proof fn lemma_push_outcome_ignored(phase: Phase, one: PushOutcome, other: PushOutcome)
    ensures
        next_phase(phase, Event::Pushed(one)) == next_phase(phase, Event::Pushed(other)),
        phase is Pushing ==> next_phase(phase, Event::Pushed(one)) == Phase::Waiting,
{
}

/// The outcome of a push leaves no trace: had the push ended otherwise, every
/// later phase, and so every later action and report, would be the same.
pub proof fn lemma_push_outcome_leaves_no_trace(
    phase: Phase,
    before: Seq<Event>,
    one: PushOutcome,
    other: PushOutcome,
    after: Seq<Event>,
)
    ensures
        run(phase, before.push(Event::Pushed(one)) + after) == run(
            phase,
            before.push(Event::Pushed(other)) + after,
        ),
{
    let with_one = before.push(Event::Pushed(one));
    let with_other = before.push(Event::Pushed(other));
    assert(with_one.drop_last() =~= before);
    assert(with_other.drop_last() =~= before);
    lemma_push_outcome_ignored(run(phase, before), one, other);
    lemma_run_concat(phase, with_one, after);
    lemma_run_concat(phase, with_other, after);
}

/// One whole iteration brings the scheduler back to where it began, whatever
/// was converted and whatever the push came to. Nothing of an iteration is
/// left for the next.
pub proof fn lemma_iteration_returns(accel: Seq<u16>, brake: Seq<u16>, outcome: PushOutcome)
    requires
        accel.len() == READ_V_COUNT,
        brake.len() == READ_V_COUNT,
    ensures
        run(Phase::start(), iteration(accel, brake, outcome)) == Phase::start(),
{
    lemma_pass(accel, brake);
    let pass = conversions(accel + brake);
    let pushed = pass.push(Event::Pushed(outcome));
    assert(pushed.drop_last() =~= pass);
    assert(run(Phase::start(), pushed) == Phase::Waiting);
    let whole = pushed.push(Event::Waited);
    assert(whole.drop_last() =~= pushed);
}

/// The report of an iteration is that of its own conversions, whatever went
/// before: the conversions and the push outcome of the iteration before it,
/// a failed push among them, have no part in it.
pub proof fn lemma_report_independent(
    accel_before: Seq<u16>,
    brake_before: Seq<u16>,
    outcome_before: PushOutcome,
    accel: Seq<u16>,
    brake: Seq<u16>,
)
    requires
        accel_before.len() == READ_V_COUNT,
        brake_before.len() == READ_V_COUNT,
        accel.len() == READ_V_COUNT,
        brake.len() == READ_V_COUNT,
    ensures
        run(
            Phase::start(),
            iteration(accel_before, brake_before, outcome_before) + conversions(accel + brake),
        ) == Phase::Pushing(report_of(accel, brake)),
{
    lemma_run_concat(
        Phase::start(),
        iteration(accel_before, brake_before, outcome_before),
        conversions(accel + brake),
    );
    lemma_iteration_returns(accel_before, brake_before, outcome_before);
    lemma_pass(accel, brake);
}

/// Two iterations in succession that convert the same samples push the same
/// report, whatever the first push came to.
pub proof fn lemma_report_idempotent(accel: Seq<u16>, brake: Seq<u16>, outcome: PushOutcome)
    requires
        accel.len() == READ_V_COUNT,
        brake.len() == READ_V_COUNT,
    ensures
        run(Phase::start(), iteration(accel, brake, outcome) + conversions(accel + brake)) == run(
            Phase::start(),
            conversions(accel + brake),
        ),
        pending_action(
            run(Phase::start(), iteration(accel, brake, outcome) + conversions(accel + brake)),
        ) == Action::Push(report_of(accel, brake)),
{
    lemma_report_independent(accel, brake, outcome, accel, brake);
    lemma_pass(accel, brake);
}

/// A failed conversion halts the scheduler, and no event starts it again.
pub proof fn lemma_halt_is_final(taken: Seq<u16>, events: Seq<Event>)
    ensures
        next_phase(Phase::Sampling(taken), Event::ConversionFailed) == Phase::Halted,
        run(Phase::Halted, events) == Phase::Halted,
        pending_action(Phase::Halted) == Action::Halt,
    decreases events.len(),
{
    if events.len() > 0 {
        lemma_halt_is_final(taken, events.drop_last());
    }
}

} // verus!
