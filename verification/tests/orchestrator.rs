use hotreload::error::{
    BindError, ConstructError, FrameError, LoadError, LoadFailure, RestoreError, SaveError,
};
use hotreload::orchestrator::{
    next_generation, Action, Event, InstanceHandle, Orchestrator, Phase, ReloadOutcome, StateLost,
    Unexpected,
};

fn handle(generation: u64) -> InstanceHandle {
    InstanceHandle { generation }
}

fn frame_ok(changed: bool) -> Event {
    Event::FrameEnded { frame: Ok(()), changed }
}

fn frame_failed(changed: bool) -> Event {
    Event::FrameEnded { frame: Err(FrameError { message: String::from("trap") }), changed }
}

fn save_failed() -> Event {
    Event::Saved(Err(SaveError { message: String::from("unsupported") }))
}

fn restore_failed() -> Event {
    Event::Restored(Err(RestoreError { message: String::from("version mismatch") }))
}

fn running() -> Orchestrator {
    let (mut orchestrator, first) = Orchestrator::start();
    assert_eq!(first, Action::Load { generation: 0 });
    assert_eq!(
        orchestrator.step(Event::Loaded(Ok(()))),
        Ok(Action::RunFrame { handle: handle(0) })
    );
    orchestrator
}

#[test]
fn start_asks_for_the_first_generation() {
    let (orchestrator, first) = Orchestrator::start();
    assert_eq!(first, Action::Load { generation: 0 });
    assert_eq!(orchestrator.phase(), Phase::Starting);
    assert_eq!(orchestrator.active(), None);
    assert_eq!(*orchestrator.last_reload(), ReloadOutcome::NotYet);
    assert!(!orchestrator.is_live(handle(0)));
}

#[test]
fn first_load_leads_to_the_first_frame() {
    let orchestrator = running();
    assert_eq!(orchestrator.phase(), Phase::Running);
    assert_eq!(orchestrator.active(), Some(handle(0)));
    assert!(orchestrator.is_live(handle(0)));
    assert!(!orchestrator.is_live(handle(1)));
}

#[test]
fn failure_of_the_first_load_halts() {
    for failure in [
        LoadFailure::Load(LoadError { message: String::from("malformed") }),
        LoadFailure::Bind(BindError {
            export: String::from("[method]game-instance.save"),
            message: String::from("no save"),
        }),
        LoadFailure::Construct(ConstructError { message: String::from("trap") }),
    ] {
        let (mut orchestrator, _) = Orchestrator::start();
        assert_eq!(
            orchestrator.step(Event::Loaded(Err(failure.clone()))),
            Ok(Action::Halt { failure })
        );
        assert_eq!(orchestrator.phase(), Phase::Halted);
        assert_eq!(orchestrator.active(), None);
        assert_eq!(
            orchestrator.step(Event::Loaded(Ok(()))),
            Err(Unexpected { phase: Phase::Halted })
        );
        assert_eq!(orchestrator.step(frame_ok(true)), Err(Unexpected { phase: Phase::Halted }));
    }
}

#[test]
fn no_change_for_many_polls_keeps_the_active_instance() {
    let mut orchestrator = running();
    for _ in 0..50 {
        assert_eq!(
            orchestrator.step(frame_ok(false)),
            Ok(Action::RunFrame { handle: handle(0) })
        );
        assert_eq!(orchestrator.phase(), Phase::Running);
        assert_eq!(orchestrator.active(), Some(handle(0)));
    }
    assert_eq!(*orchestrator.last_reload(), ReloadOutcome::NotYet);
}

#[test]
fn failed_frame_is_followed_by_a_frame_on_the_same_instance() {
    let mut orchestrator = running();
    assert_eq!(orchestrator.step(frame_ok(false)), Ok(Action::RunFrame { handle: handle(0) }));
    assert_eq!(
        orchestrator.step(frame_failed(false)),
        Ok(Action::RunFrame { handle: handle(0) })
    );
    assert_eq!(orchestrator.phase(), Phase::Running);
    assert_eq!(orchestrator.step(frame_ok(false)), Ok(Action::RunFrame { handle: handle(0) }));
    assert_eq!(*orchestrator.last_reload(), ReloadOutcome::NotYet);
}

#[test]
fn change_between_two_frames_reloads_and_moves_the_frames() {
    let mut orchestrator = running();
    assert_eq!(orchestrator.step(frame_ok(false)), Ok(Action::RunFrame { handle: handle(0) }));
    assert_eq!(orchestrator.step(frame_ok(true)), Ok(Action::Save { handle: handle(0) }));
    assert_eq!(orchestrator.phase(), Phase::Saving);
    assert_eq!(
        orchestrator.step(Event::Saved(Ok(vec![1, 2, 3]))),
        Ok(Action::Load { generation: 1 })
    );
    assert_eq!(orchestrator.phase(), Phase::Loading);
    assert!(orchestrator.is_live(handle(0)));
    assert!(!orchestrator.is_live(handle(1)));
    assert_eq!(
        orchestrator.step(Event::Loaded(Ok(()))),
        Ok(Action::Restore { handle: handle(1), blob: vec![1, 2, 3] })
    );
    assert_eq!(orchestrator.phase(), Phase::Restoring);
    assert!(orchestrator.is_live(handle(0)));
    assert!(orchestrator.is_live(handle(1)));
    assert_eq!(
        orchestrator.step(Event::Restored(Ok(()))),
        Ok(Action::Swap { retired: handle(0), activated: handle(1) })
    );
    assert_eq!(orchestrator.phase(), Phase::Swapping);
    assert_eq!(orchestrator.active(), Some(handle(0)));
    assert_eq!(orchestrator.step(Event::Swapped), Ok(Action::RunFrame { handle: handle(1) }));
    assert_eq!(orchestrator.phase(), Phase::Running);
    assert_eq!(orchestrator.active(), Some(handle(1)));
    assert!(!orchestrator.is_live(handle(0)));
    assert!(orchestrator.is_live(handle(1)));
    assert_eq!(*orchestrator.last_reload(), ReloadOutcome::Restored);
    assert_eq!(orchestrator.step(frame_ok(false)), Ok(Action::RunFrame { handle: handle(1) }));
}

#[test]
fn change_seen_after_a_failed_frame_still_reloads() {
    let mut orchestrator = running();
    assert_eq!(orchestrator.step(frame_failed(true)), Ok(Action::Save { handle: handle(0) }));
}

#[test]
fn failed_save_carries_nothing_forward() {
    let mut orchestrator = running();
    assert_eq!(orchestrator.step(frame_ok(true)), Ok(Action::Save { handle: handle(0) }));
    assert_eq!(orchestrator.step(save_failed()), Ok(Action::Load { generation: 1 }));
    assert_eq!(
        orchestrator.step(Event::Loaded(Ok(()))),
        Ok(Action::Swap { retired: handle(0), activated: handle(1) })
    );
    assert_eq!(*orchestrator.last_reload(), ReloadOutcome::Reset(StateLost::SaveFailed));
    assert_eq!(orchestrator.step(Event::Swapped), Ok(Action::RunFrame { handle: handle(1) }));
    assert_eq!(orchestrator.active(), Some(handle(1)));
}

#[test]
fn empty_blob_is_still_a_blob() {
    let mut orchestrator = running();
    assert_eq!(orchestrator.step(frame_ok(true)), Ok(Action::Save { handle: handle(0) }));
    assert_eq!(orchestrator.step(Event::Saved(Ok(vec![]))), Ok(Action::Load { generation: 1 }));
    assert_eq!(
        orchestrator.step(Event::Loaded(Ok(()))),
        Ok(Action::Restore { handle: handle(1), blob: vec![] })
    );
}

#[test]
fn failed_restore_is_ignored_and_the_fresh_instance_takes_the_frames() {
    let mut orchestrator = running();
    assert_eq!(orchestrator.step(frame_ok(true)), Ok(Action::Save { handle: handle(0) }));
    assert_eq!(orchestrator.step(Event::Saved(Ok(vec![9]))), Ok(Action::Load { generation: 1 }));
    assert_eq!(
        orchestrator.step(Event::Loaded(Ok(()))),
        Ok(Action::Restore { handle: handle(1), blob: vec![9] })
    );
    assert_eq!(
        orchestrator.step(restore_failed()),
        Ok(Action::Swap { retired: handle(0), activated: handle(1) })
    );
    assert_eq!(orchestrator.phase(), Phase::Swapping);
    assert!(orchestrator.is_live(handle(0)));
    assert!(orchestrator.is_live(handle(1)));
    assert_eq!(*orchestrator.last_reload(), ReloadOutcome::Reset(StateLost::RestoreFailed));
    assert_eq!(orchestrator.step(Event::Swapped), Ok(Action::RunFrame { handle: handle(1) }));
    assert_eq!(orchestrator.phase(), Phase::Running);
    assert_eq!(orchestrator.active(), Some(handle(1)));
    assert!(!orchestrator.is_live(handle(0)));
    assert_eq!(*orchestrator.last_reload(), ReloadOutcome::Reset(StateLost::RestoreFailed));
    assert_eq!(orchestrator.step(frame_ok(false)), Ok(Action::RunFrame { handle: handle(1) }));
}

#[test]
fn no_load_is_asked_after_a_restore() {
    let mut orchestrator = running();
    assert_eq!(orchestrator.step(frame_ok(true)), Ok(Action::Save { handle: handle(0) }));
    assert_eq!(orchestrator.step(Event::Saved(Ok(vec![9]))), Ok(Action::Load { generation: 1 }));
    assert_eq!(
        orchestrator.step(Event::Loaded(Ok(()))),
        Ok(Action::Restore { handle: handle(1), blob: vec![9] })
    );
    assert_eq!(
        orchestrator.step(restore_failed()),
        Ok(Action::Swap { retired: handle(0), activated: handle(1) })
    );
    assert_eq!(
        orchestrator.step(Event::Loaded(Ok(()))),
        Err(Unexpected { phase: Phase::Swapping })
    );
}

#[test]
fn failed_reload_keeps_the_previous_generation_and_is_retried() {
    let mut orchestrator = running();
    let failure = LoadFailure::Load(LoadError { message: String::from("truncated") });
    assert_eq!(orchestrator.step(frame_ok(true)), Ok(Action::Save { handle: handle(0) }));
    assert_eq!(orchestrator.step(Event::Saved(Ok(vec![4]))), Ok(Action::Load { generation: 1 }));
    assert_eq!(
        orchestrator.step(Event::Loaded(Err(failure.clone()))),
        Ok(Action::RunFrame { handle: handle(0) })
    );
    assert_eq!(orchestrator.phase(), Phase::Running);
    assert_eq!(orchestrator.active(), Some(handle(0)));
    assert!(orchestrator.is_live(handle(0)));
    assert_eq!(*orchestrator.last_reload(), ReloadOutcome::Abandoned(failure));
    assert_eq!(orchestrator.step(frame_ok(false)), Ok(Action::RunFrame { handle: handle(0) }));
    assert_eq!(orchestrator.step(frame_ok(true)), Ok(Action::Save { handle: handle(0) }));
    assert_eq!(orchestrator.step(Event::Saved(Ok(vec![5]))), Ok(Action::Load { generation: 1 }));
    assert_eq!(
        orchestrator.step(Event::Loaded(Ok(()))),
        Ok(Action::Restore { handle: handle(1), blob: vec![5] })
    );
}

#[test]
fn event_that_answers_no_outstanding_call_is_turned_away() {
    let (mut orchestrator, _) = Orchestrator::start();
    assert_eq!(orchestrator.step(frame_ok(false)), Err(Unexpected { phase: Phase::Starting }));
    assert_eq!(orchestrator.step(Event::Swapped), Err(Unexpected { phase: Phase::Starting }));
    assert_eq!(orchestrator.phase(), Phase::Starting);
    let mut orchestrator = running();
    assert_eq!(
        orchestrator.step(Event::Loaded(Ok(()))),
        Err(Unexpected { phase: Phase::Running })
    );
    assert_eq!(
        orchestrator.step(Event::Saved(Ok(vec![1]))),
        Err(Unexpected { phase: Phase::Running })
    );
    assert_eq!(orchestrator.step(restore_failed()), Err(Unexpected { phase: Phase::Running }));
    assert_eq!(orchestrator.active(), Some(handle(0)));
    assert_eq!(orchestrator.step(frame_ok(true)), Ok(Action::Save { handle: handle(0) }));
    assert_eq!(orchestrator.step(frame_ok(true)), Err(Unexpected { phase: Phase::Saving }));
    assert_eq!(orchestrator.step(Event::Saved(Ok(vec![1]))), Ok(Action::Load { generation: 1 }));
    assert_eq!(orchestrator.step(Event::Swapped), Err(Unexpected { phase: Phase::Loading }));
    assert_eq!(
        orchestrator.step(Event::Loaded(Ok(()))),
        Ok(Action::Restore { handle: handle(1), blob: vec![1] })
    );
    assert_eq!(
        orchestrator.step(Event::Loaded(Ok(()))),
        Err(Unexpected { phase: Phase::Restoring })
    );
    assert_eq!(
        orchestrator.step(Event::Restored(Ok(()))),
        Ok(Action::Swap { retired: handle(0), activated: handle(1) })
    );
    assert_eq!(
        orchestrator.step(Event::Restored(Ok(()))),
        Err(Unexpected { phase: Phase::Swapping })
    );
}

#[test]
fn generations_count_up_and_wrap() {
    assert_eq!(next_generation(0), 1);
    assert_eq!(next_generation(41), 42);
    assert_eq!(next_generation(u64::MAX - 1), u64::MAX);
    assert_eq!(next_generation(u64::MAX), 0);
}

#[test]
fn each_reload_moves_to_the_next_generation() {
    let mut orchestrator = running();
    for generation in 0..5u64 {
        assert_eq!(
            orchestrator.step(frame_ok(true)),
            Ok(Action::Save { handle: handle(generation) })
        );
        assert_eq!(
            orchestrator.step(save_failed()),
            Ok(Action::Load { generation: generation + 1 })
        );
        assert_eq!(
            orchestrator.step(Event::Loaded(Ok(()))),
            Ok(Action::Swap { retired: handle(generation), activated: handle(generation + 1) })
        );
        assert_eq!(
            orchestrator.step(Event::Swapped),
            Ok(Action::RunFrame { handle: handle(generation + 1) })
        );
    }
    assert_eq!(orchestrator.active(), Some(handle(5)));
}
