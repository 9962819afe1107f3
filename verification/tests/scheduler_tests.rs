use autoshooter::scheduler::{ClickInjectionError, ClickScheduler, SchedulerAction, SchedulerPhase};
use autoshooter::trigger::{ConditionMode, TriggerCondition};

#[test]
fn unconditional_loop_clicks_every_iteration_while_active() {
    let mut sched = ClickScheduler::new(16_666_666, TriggerCondition::always());
    assert_eq!(sched.phase, SchedulerPhase::Running);
    for _ in 0..3 {
        assert_eq!(sched.step(true, &vec![]), SchedulerAction::Click);
        assert_eq!(sched.phase, SchedulerPhase::Running);
    }
}

#[test]
fn conditional_loop_clicks_exactly_when_the_condition_fires() {
    let cond = TriggerCondition { key: Some(4), mode: ConditionMode::OnPressed };
    let mut sched = ClickScheduler::new(1_000_000, cond);
    assert_eq!(sched.step(true, &vec![4]), SchedulerAction::Click);
    assert_eq!(sched.step(true, &vec![]), SchedulerAction::Skip);
    assert_eq!(sched.step(true, &vec![3, 4, 5]), SchedulerAction::Click);
    assert_eq!(sched.phase, SchedulerPhase::Running);
}

#[test]
fn cleared_flag_exits_on_the_very_next_iteration() {
    let mut sched = ClickScheduler::new(1_000_000, TriggerCondition::always());
    assert_eq!(sched.step(true, &vec![]), SchedulerAction::Click);
    assert_eq!(sched.step(false, &vec![]), SchedulerAction::Exit);
    assert_eq!(sched.phase, SchedulerPhase::Stopping);
    sched.exit_complete();
    assert_eq!(sched.phase, SchedulerPhase::Stopped);
}

#[test]
fn cleared_flag_exits_even_when_the_condition_fires() {
    let cond = TriggerCondition { key: Some(9), mode: ConditionMode::OnPressed };
    let mut sched = ClickScheduler::new(1_000_000, cond);
    assert_eq!(sched.step(false, &vec![9]), SchedulerAction::Exit);
}

#[test]
fn click_failure_stops_the_run_gracefully() {
    let mut sched = ClickScheduler::new(1_000_000, TriggerCondition::always());
    assert_eq!(sched.step(true, &vec![]), SchedulerAction::Click);
    let err = sched.report_click_failure();
    assert_eq!(err, ClickInjectionError);
    assert_eq!(sched.phase, SchedulerPhase::Stopping);
    sched.exit_complete();
    assert_eq!(sched.phase, SchedulerPhase::Stopped);
}

#[test]
fn snapshot_is_captured_at_spawn_time() {
    let cond = TriggerCondition { key: Some(2), mode: ConditionMode::OnReleased };
    let mut sched = ClickScheduler::new(42, cond);
    sched.step(true, &vec![2]);
    assert_eq!(sched.wait_ns, 42);
    assert_eq!(sched.condition, cond);
}
