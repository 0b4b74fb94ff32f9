use ribbon_cv::control::{plan_iteration, LoopAction, LoopEvents};

#[test]
fn quiet_pass_does_nothing() {
    let e = LoopEvents { received: None, slow_elapsed: false, fast_elapsed: false, output_elapsed: false };
    assert!(plan_iteration(&e).is_empty());
}

#[test]
fn busy_pass_runs_in_priority_order() {
    let e = LoopEvents { received: Some(0x90), slow_elapsed: true, fast_elapsed: true, output_elapsed: true };
    assert_eq!(
        plan_iteration(&e),
        vec![
            LoopAction::FeedNoteStream(0x90),
            LoopAction::RefreshUi,
            LoopAction::SampleRibbon,
            LoopAction::EmitOutputs,
        ]
    );
}

#[test]
fn only_elapsed_timers_act() {
    let e = LoopEvents { received: Some(7), slow_elapsed: false, fast_elapsed: true, output_elapsed: false };
    assert_eq!(plan_iteration(&e), vec![LoopAction::FeedNoteStream(7), LoopAction::SampleRibbon]);
    let e = LoopEvents { received: None, slow_elapsed: false, fast_elapsed: false, output_elapsed: true };
    assert_eq!(plan_iteration(&e), vec![LoopAction::EmitOutputs]);
}
