use candle_srcnn::training::{Phase, TrainingAction, TrainingEvent, TrainingLoop, EPOCHS};

#[test]
fn run_starts_with_the_loss_of_epoch_zero() {
    let run = TrainingLoop::new();
    assert_eq!(run.pending(), TrainingAction::ComputeLoss(0));
    assert_eq!(run.epoch(), 0);
    assert_eq!(run.optimizer_steps(), 0);
    assert!(!run.is_finished());
}

#[test]
fn epoch_is_loss_then_step_then_report() {
    let mut run = TrainingLoop::new();
    assert_eq!(run.advance(TrainingEvent::LossComputed), TrainingAction::BackwardStep(0));
    assert_eq!(run.optimizer_steps(), 0);
    assert_eq!(run.advance(TrainingEvent::StepApplied), TrainingAction::ReportLoss(0));
    assert_eq!(run.optimizer_steps(), 1);
    assert_eq!(run.epoch(), 0);
    assert_eq!(run.advance(TrainingEvent::LossReported), TrainingAction::ComputeLoss(1));
    assert_eq!(run.epoch(), 1);
    assert_eq!(run.optimizer_steps(), 1);
}

#[test]
fn event_out_of_turn_changes_nothing() {
    let mut run = TrainingLoop::new();
    assert_eq!(run.advance(TrainingEvent::StepApplied), TrainingAction::ComputeLoss(0));
    assert_eq!(run.advance(TrainingEvent::LossReported), TrainingAction::ComputeLoss(0));
    assert_eq!(run.optimizer_steps(), 0);
    assert_eq!(run.advance(TrainingEvent::LossComputed), TrainingAction::BackwardStep(0));
    assert_eq!(run.advance(TrainingEvent::LossComputed), TrainingAction::BackwardStep(0));
    assert_eq!(run.advance(TrainingEvent::LossReported), TrainingAction::BackwardStep(0));
    assert_eq!(run.advance(TrainingEvent::StepApplied), TrainingAction::ReportLoss(0));
    assert_eq!(run.advance(TrainingEvent::StepApplied), TrainingAction::ReportLoss(0));
    assert_eq!(run.optimizer_steps(), 1);
    assert_eq!(run.epoch(), 0);
}

#[test]
fn run_has_one_hundred_epochs() {
    assert_eq!(EPOCHS, 100);
}

#[test]
fn run_takes_one_optimizer_step_per_epoch() {
    let mut run = TrainingLoop::new();
    let mut losses = 0;
    let mut steps = 0;
    let mut reports = Vec::new();
    let mut action = run.pending();
    loop {
        action = match action {
            TrainingAction::ComputeLoss(epoch) => {
                assert_eq!(epoch, losses);
                losses += 1;
                run.advance(TrainingEvent::LossComputed)
            }
            TrainingAction::BackwardStep(epoch) => {
                assert_eq!(epoch, steps);
                steps += 1;
                run.advance(TrainingEvent::StepApplied)
            }
            TrainingAction::ReportLoss(epoch) => {
                reports.push(epoch);
                run.advance(TrainingEvent::LossReported)
            }
            TrainingAction::Stop => break,
        };
        assert_eq!(run.optimizer_steps(), steps);
    }
    assert_eq!(losses, 100);
    assert_eq!(steps, 100);
    assert_eq!(reports, (0..100).collect::<Vec<u32>>());
    assert_eq!(run.epoch(), 100);
    assert_eq!(run.optimizer_steps(), 100);
    assert!(run.is_finished());
}

#[test]
fn finished_run_stays_finished() {
    let mut run = TrainingLoop::new();
    while !run.is_finished() {
        run.advance(TrainingEvent::LossComputed);
        run.advance(TrainingEvent::StepApplied);
        run.advance(TrainingEvent::LossReported);
    }
    assert_eq!(run.pending(), TrainingAction::Stop);
    assert_eq!(run.advance(TrainingEvent::LossComputed), TrainingAction::Stop);
    assert_eq!(run.advance(TrainingEvent::StepApplied), TrainingAction::Stop);
    assert_eq!(run.advance(TrainingEvent::LossReported), TrainingAction::Stop);
    assert_eq!(run.epoch(), 100);
    assert_eq!(run.optimizer_steps(), 100);
}

#[test]
fn phases_are_told_apart() {
    assert_ne!(Phase::Loss, Phase::Step);
    assert_ne!(Phase::Report, Phase::Done);
    assert_eq!(Phase::Done, Phase::Done);
}
