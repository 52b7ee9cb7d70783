//! The schedule of a training run. The caller does the work on tensors: it
//! computes the loss, lets the optimizer step, and reports. This module
//! decides what comes next, and counts.

use vstd::prelude::*;

verus! {

/// The number of epochs of a training run.
pub const EPOCHS: u32 = 100;

/// What the caller is to do next within an epoch, or that the run is over.
#[derive(Clone, Copy, Debug, PartialEq, Eq, Structural)]
pub enum Phase {
    /// The loss on the training set is to be computed.
    Loss,
    /// The loss is to be propagated back and the optimizer is to step once.
    Step,
    /// The loss of the epoch is to be reported.
    Report,
    /// All epochs are done.
    Done,
}

/// What the caller has just done.
#[derive(Clone, Copy, Debug, PartialEq, Eq, Structural)]
pub enum TrainingEvent {
    /// The loss on the training set has been computed.
    LossComputed,
    /// The loss has been propagated back and the optimizer has stepped.
    StepApplied,
    /// The loss of the epoch has been reported.
    LossReported,
}

/// What the caller is asked to do, with the number of the epoch, from 0.
#[derive(Clone, Copy, Debug, PartialEq, Eq, Structural)]
pub enum TrainingAction {
    /// Compute the loss on the training set.
    ComputeLoss(u32),
    /// Propagate the loss back and let the optimizer step once.
    BackwardStep(u32),
    /// Report the loss of the epoch.
    ReportLoss(u32),
    /// Nothing more: all epochs are done.
    Stop,
}

/// The state of a training run as plain numbers.
pub struct TrainingState {
    /// Epochs that are done, the report included.
    pub epoch: nat,
    /// Steps that the optimizer has made.
    pub optimizer_steps: nat,
    /// What is due next.
    pub phase: Phase,
}

impl TrainingState {
    /// The state before the first epoch.
    pub open spec fn start() -> TrainingState {
        TrainingState { epoch: 0, optimizer_steps: 0, phase: Phase::Loss }
    }

    /// Every epoch that is done had one step of the optimizer, the epoch
    /// under way has had its step once the report is due, and the run is over
    /// after `EPOCHS` epochs and not before.
    pub open spec fn wf(self) -> bool {
        &&& self.epoch <= EPOCHS
        &&& self.phase == Phase::Done <==> self.epoch == EPOCHS
        &&& self.optimizer_steps == self.epoch + if self.phase == Phase::Report {
            1nat
        } else {
            0nat
        }
    }

    /// The event that the state waits for, if any.
    pub open spec fn awaits(self, event: TrainingEvent) -> bool {
        match (self.phase, event) {
            (Phase::Loss, TrainingEvent::LossComputed) => true,
            (Phase::Step, TrainingEvent::StepApplied) => true,
            (Phase::Report, TrainingEvent::LossReported) => true,
            _ => false,
        }
    }

    /// The state after `event`. An event that the state does not wait for
    /// changes nothing.
    pub open spec fn after(self, event: TrainingEvent) -> TrainingState {
        if !self.awaits(event) {
            self
        } else {
            match self.phase {
                Phase::Loss => TrainingState { phase: Phase::Step, ..self },
                Phase::Step => TrainingState {
                    phase: Phase::Report,
                    optimizer_steps: self.optimizer_steps + 1,
                    ..self
                },
                _ => TrainingState {
                    epoch: self.epoch + 1,
                    phase: if self.epoch + 1 < EPOCHS {
                        Phase::Loss
                    } else {
                        Phase::Done
                    },
                    ..self
                },
            }
        }
    }

    /// What the caller is to do in this state.
    pub open spec fn pending(self) -> TrainingAction {
        match self.phase {
            Phase::Loss => TrainingAction::ComputeLoss(self.epoch as u32),
            Phase::Step => TrainingAction::BackwardStep(self.epoch as u32),
            Phase::Report => TrainingAction::ReportLoss(self.epoch as u32),
            Phase::Done => TrainingAction::Stop,
        }
    }

    /// The state after one whole epoch: loss, step and report, in this order.
    pub open spec fn after_epoch(self) -> TrainingState {
        self.after(TrainingEvent::LossComputed).after(TrainingEvent::StepApplied).after(
            TrainingEvent::LossReported,
        )
    }

    /// The state after `n` whole epochs.
    pub open spec fn after_epochs(self, n: nat) -> TrainingState
        decreases n,
    {
        if n == 0 {
            self
        } else {
            self.after_epochs((n - 1) as nat).after_epoch()
        }
    }
}

/// A training run in progress.
pub struct TrainingLoop {
    epoch: u32,
    optimizer_steps: u32,
    phase: Phase,
}

impl View for TrainingLoop {
    type V = TrainingState;

    closed spec fn view(&self) -> TrainingState {
        TrainingState {
            epoch: self.epoch as nat,
            optimizer_steps: self.optimizer_steps as nat,
            phase: self.phase,
        }
    }
}

impl TrainingLoop {
    #[verifier::type_invariant]
    spec fn inv(self) -> bool {
        self@.wf()
    }

    /// A run before its first epoch.
    pub fn new() -> (run: Self)
        ensures
            run@ == TrainingState::start(),
    {
        TrainingLoop { epoch: 0, optimizer_steps: 0, phase: Phase::Loss }
    }

    /// What the caller is to do now.
    pub fn pending(&self) -> (action: TrainingAction)
        ensures
            self@.wf(),
            action == self@.pending(),
    {
        proof {
            use_type_invariant(self);
        }
        match self.phase {
            Phase::Loss => TrainingAction::ComputeLoss(self.epoch),
            Phase::Step => TrainingAction::BackwardStep(self.epoch),
            Phase::Report => TrainingAction::ReportLoss(self.epoch),
            Phase::Done => TrainingAction::Stop,
        }
    }

    /// Takes note of what the caller has done and says what it is to do next.
    pub fn advance(&mut self, event: TrainingEvent) -> (action: TrainingAction)
        ensures
            final(self)@ == old(self)@.after(event),
            final(self)@.wf(),
            action == final(self)@.pending(),
    {
        proof {
            use_type_invariant(&*self);
        }
        match (self.phase, event) {
            (Phase::Loss, TrainingEvent::LossComputed) => {
                *self = TrainingLoop {
                    epoch: self.epoch,
                    optimizer_steps: self.optimizer_steps,
                    phase: Phase::Step,
                };
            },
            (Phase::Step, TrainingEvent::StepApplied) => {
                *self = TrainingLoop {
                    epoch: self.epoch,
                    optimizer_steps: self.optimizer_steps + 1,
                    phase: Phase::Report,
                };
            },
            (Phase::Report, TrainingEvent::LossReported) => {
                let epoch: u32 = self.epoch + 1;
                *self = TrainingLoop {
                    epoch,
                    optimizer_steps: self.optimizer_steps,
                    phase: if epoch < EPOCHS {
                        Phase::Loss
                    } else {
                        Phase::Done
                    },
                };
            },
            _ => {},
        }
        self.pending()
    }

    /// The number of epochs that are done.
    pub fn epoch(&self) -> (epoch: u32)
        ensures
            epoch == self@.epoch,
    {
        self.epoch
    }

    /// The number of steps that the optimizer has made.
    pub fn optimizer_steps(&self) -> (steps: u32)
        ensures
            steps == self@.optimizer_steps,
    {
        self.optimizer_steps
    }

    /// Whether all epochs are done.
    pub fn is_finished(&self) -> (done: bool)
        ensures
            done == (self@.phase == Phase::Done),
            done == (self@.epoch == EPOCHS),
    {
        proof {
            use_type_invariant(self);
        }
        self.phase == Phase::Done
    }
}

/// No event leads out of the well-formed states.
pub proof fn lemma_after_keeps_wf(state: TrainingState, event: TrainingEvent)
    requires
        state.wf(),
    ensures
        state.after(event).wf(),
{
}

/// One whole epoch, begun where the loss is due, adds one to the epochs done
/// and one to the steps of the optimizer.
pub proof fn lemma_epoch_counts_one_step(state: TrainingState)
    requires
        state.wf(),
        state.phase == Phase::Loss,
    ensures
        state.after_epoch().epoch == state.epoch + 1,
        state.after_epoch().optimizer_steps == state.optimizer_steps + 1,
        state.after_epoch().wf(),
{
}

/// After `n` whole epochs from the start, `n` epochs are done and the
/// optimizer has made `n` steps.
pub proof fn lemma_steps_equal_epochs(n: nat)
    requires
        n <= EPOCHS,
    ensures
        TrainingState::start().after_epochs(n).wf(),
        TrainingState::start().after_epochs(n).epoch == n,
        TrainingState::start().after_epochs(n).optimizer_steps == n,
    decreases n,
{
    if n > 0 {
        lemma_steps_equal_epochs((n - 1) as nat);
        lemma_epoch_counts_one_step(TrainingState::start().after_epochs((n - 1) as nat));
    }
}

/// After `EPOCHS` whole epochs from the start the run is over, and the
/// optimizer has made as many steps as there were epochs.
pub proof fn lemma_training_completes()
    ensures
        TrainingState::start().after_epochs(EPOCHS as nat).phase == Phase::Done,
        TrainingState::start().after_epochs(EPOCHS as nat).pending() == TrainingAction::Stop,
        TrainingState::start().after_epochs(EPOCHS as nat).optimizer_steps == EPOCHS,
{
    lemma_steps_equal_epochs(EPOCHS as nat);
}

} // verus!
