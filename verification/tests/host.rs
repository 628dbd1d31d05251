use hotreload::environment::{GameInstance, Reservation};
use hotreload::error::{ConstructError, FrameError, LoadError, LoadFailure};
use hotreload::host::Host;
use hotreload::orchestrator::{InstanceHandle, ReloadOutcome, StateLost};
use hotreload::watcher::FileWatcher;
use wasmtime::component::Val;

/// The text of a guest that counts the frames it has run.
///
/// A frame answers with three commands: the count, the mouse value and
/// `version`. It traps on mouse value 666. The saved state is the count in
/// one byte. `restore` reads the count back from a blob of one byte where
/// `restores` is set, and traps otherwise; `save` traps where `saves` is not
/// set; the constructor traps where `constructs` is not set.
fn guest(version: u32, constructs: bool, saves: bool, restores: bool) -> String {
    let text = r#"
(component
  (type $game (resource (rep i32)))
  (core func $new (canon resource.new $game))
  (core module $m
    (import "host" "new" (func $new (param i32) (result i32)))
    (memory (export "memory") 1)
    (global $count (mut i32) (i32.const 0))
    (global $next (mut i32) (i32.const 1024))
    (func (export "realloc") (param i32 i32 i32 i32) (result i32)
      (local $p i32)
      (local.set $p (global.get $next))
      (global.set $next (i32.add (global.get $next) (local.get 3)))
      (local.get $p))
    (func (export "ctor") (result i32)
      (if (i32.eqz (i32.const CONSTRUCTS)) (then (unreachable)))
      (call $new (i32.const 1)))
    (func (export "run-frame") (param i32 i32 i32) (result i32)
      (if (i32.eq (local.get 1) (i32.const 666)) (then (unreachable)))
      (global.set $count (i32.add (global.get $count) (i32.const 1)))
      (i32.store (i32.const 16) (global.get $count))
      (i32.store (i32.const 20) (local.get 1))
      (i32.store (i32.const 24) (i32.const VERSION))
      (i32.store (i32.const 0) (i32.const 16))
      (i32.store (i32.const 4) (i32.const 3))
      (i32.const 0))
    (func (export "save") (param i32) (result i32)
      (if (i32.eqz (i32.const SAVES)) (then (unreachable)))
      (i32.store8 (i32.const 32) (global.get $count))
      (i32.store (i32.const 8) (i32.const 32))
      (i32.store (i32.const 12) (i32.const 1))
      (i32.const 8))
    (func (export "restore") (param i32 i32 i32)
      (if (i32.eqz (i32.const RESTORES)) (then (unreachable)))
      (if (i32.ne (local.get 2) (i32.const 1)) (then (unreachable)))
      (global.set $count (i32.load8_u (local.get 1))))
  )
  (core instance $host (export "new" (func $new)))
  (core instance $i (instantiate $m (with "host" (instance $host))))
  (alias core export $i "memory" (core memory $mem))
  (alias core export $i "realloc" (core func $realloc))
  (func $ctor (result (own $game)) (canon lift (core func $i "ctor")))
  (func $run (param "self" (borrow $game)) (param "mouse" u32) (param "key" u32)
    (result (list u32))
    (canon lift (core func $i "run-frame") (memory $mem)))
  (func $save (param "self" (borrow $game)) (result (list u8))
    (canon lift (core func $i "save") (memory $mem)))
  (func $restore (param "self" (borrow $game)) (param "data" (list u8))
    (canon lift (core func $i "restore") (memory $mem) (realloc $realloc)))
  (component $shim
    (import "import-type-game" (type $g (sub resource)))
    (import "import-ctor" (func $ctor (result (own $g))))
    (import "import-run" (func $run (param "self" (borrow $g)) (param "mouse" u32)
      (param "key" u32) (result (list u32))))
    (import "import-save" (func $save (param "self" (borrow $g)) (result (list u8))))
    (import "import-restore" (func $restore (param "self" (borrow $g))
      (param "data" (list u8))))
    (export $game "game-instance" (type $g))
    (export "[constructor]game-instance" (func $ctor) (func (result (own $game))))
    (export "[method]game-instance.run-frame" (func $run)
      (func (param "self" (borrow $game)) (param "mouse" u32) (param "key" u32)
        (result (list u32))))
    (export "[method]game-instance.save" (func $save)
      (func (param "self" (borrow $game)) (result (list u8))))
    (export "[method]game-instance.restore" (func $restore)
      (func (param "self" (borrow $game)) (param "data" (list u8))))
  )
  (instance $api (instantiate $shim
    (with "import-type-game" (type $game))
    (with "import-ctor" (func $ctor))
    (with "import-run" (func $run))
    (with "import-save" (func $save))
    (with "import-restore" (func $restore))))
  (export "example:host/game-api" (instance $api))
)
"#;
    text.replace("VERSION", &format!("{version}"))
        .replace("CONSTRUCTS", &format!("{}", constructs as u32))
        .replace("SAVES", &format!("{}", saves as u32))
        .replace("RESTORES", &format!("{}", restores as u32))
}

fn compact() -> Reservation {
    Reservation::Compact { growth: 65536 }
}

fn start(artifact: &str) -> Host {
    Host::start(artifact.as_bytes(), compact()).expect("a valid artifact")
}

fn frame(count: u32, mouse: u32, version: u32) -> Vec<Val> {
    vec![Val::U32(count), Val::U32(mouse), Val::U32(version)]
}

fn play(host: &mut Host, mouse: u32) -> Vec<Val> {
    host.run_frame(Val::U32(mouse), Val::U32(0))
}

#[test]
fn host_starts_on_generation_zero_and_runs() {
    let mut host = start(&guest(1, true, true, true));
    assert_eq!(host.active(), InstanceHandle { generation: 0 });
    assert_eq!(*host.last_reload(), ReloadOutcome::NotYet);
    assert_eq!(play(&mut host, 9), frame(1, 9, 1));
    assert_eq!(*host.last_failure(), None);
}

#[test]
fn first_load_failure_is_fatal() {
    assert!(matches!(
        Host::start(b"no artifact at all", compact()),
        Err(LoadFailure::Load(_))
    ));
    assert!(matches!(Host::start(b"(component)", compact()), Err(LoadFailure::Bind(_))));
    assert!(matches!(
        Host::start(guest(1, false, true, true).as_bytes(), compact()),
        Err(LoadFailure::Construct(_))
    ));
}

#[test]
fn quiet_watcher_keeps_the_instance_across_frames() {
    let mut host = start(&guest(1, true, true, true));
    let mut watcher = FileWatcher::new(Some(100));
    for n in 1..=20u32 {
        assert_eq!(play(&mut host, n), frame(n, n, 1));
        assert!(!watcher.changed(Some(100)));
        host.end_frame(None);
        assert_eq!(host.active(), InstanceHandle { generation: 0 });
        assert_eq!(*host.last_reload(), ReloadOutcome::NotYet);
    }
}

#[test]
fn modified_artifact_is_reloaded_once_and_takes_the_frames() {
    let mut host = start(&guest(1, true, true, true));
    let mut watcher = FileWatcher::new(Some(100));
    let second = guest(2, true, true, true);
    let mut stamp = 100;
    for n in 1..=6u32 {
        let version = if n <= 3 { 1 } else { 2 };
        assert_eq!(play(&mut host, n), frame(n, n, version));
        if n == 3 {
            stamp = 101;
        }
        let changed = watcher.changed(Some(stamp));
        assert_eq!(changed, n == 3);
        if changed {
            host.end_frame(Some(Ok(second.as_bytes())));
            assert_eq!(*host.last_reload(), ReloadOutcome::Restored);
        } else {
            host.end_frame(None);
        }
        let generation = if n < 3 { 0 } else { 1 };
        assert_eq!(host.active(), InstanceHandle { generation });
    }
}

#[test]
fn failed_restore_is_ignored_and_the_instance_that_got_the_blob_takes_over() {
    let mut host = start(&guest(1, true, true, true));
    assert_eq!(play(&mut host, 1), frame(1, 1, 1));
    assert_eq!(play(&mut host, 2), frame(2, 2, 1));
    host.end_frame(Some(Ok(guest(2, true, true, false).as_bytes())));
    assert_eq!(*host.last_reload(), ReloadOutcome::Reset(StateLost::RestoreFailed));
    assert_eq!(host.active(), InstanceHandle { generation: 1 });
    assert_eq!(*host.last_failure(), None);
    assert!(host.is_running());
    // The guest refused the blob by trapping, and the runtime lets nobody
    // into an instance that has trapped: the host goes on, frame by frame,
    // and paints nothing until the next reload.
    assert_eq!(play(&mut host, 3), Vec::<Val>::new());
    assert!(host.last_failure().is_some());
    host.end_frame(None);
    assert_eq!(host.active(), InstanceHandle { generation: 1 });
    host.end_frame(Some(Ok(guest(3, true, true, true).as_bytes())));
    assert_eq!(host.active(), InstanceHandle { generation: 2 });
    assert_eq!(play(&mut host, 4), frame(1, 4, 3));
}

#[test]
fn blob_of_the_wrong_shape_is_a_failed_restore() {
    let old = guest(1, true, true, true).replace(
        "(i32.store (i32.const 12) (i32.const 1))",
        "(i32.store (i32.const 12) (i32.const 2))",
    );
    let mut host = start(&old);
    assert_eq!(play(&mut host, 1), frame(1, 1, 1));
    host.end_frame(Some(Ok(guest(2, true, true, true).as_bytes())));
    assert_eq!(*host.last_reload(), ReloadOutcome::Reset(StateLost::RestoreFailed));
    assert_eq!(host.active(), InstanceHandle { generation: 1 });
}

#[test]
fn failed_save_leaves_a_fresh_instance_with_default_state() {
    let mut host = start(&guest(1, true, false, true));
    assert_eq!(play(&mut host, 1), frame(1, 1, 1));
    host.end_frame(Some(Ok(guest(2, true, true, true).as_bytes())));
    assert_eq!(*host.last_reload(), ReloadOutcome::Reset(StateLost::SaveFailed));
    assert_eq!(host.active(), InstanceHandle { generation: 1 });
    assert_eq!(play(&mut host, 2), frame(1, 2, 2));
}

#[test]
fn abandoned_reload_keeps_the_old_instance_and_its_state() {
    let mut host = start(&guest(1, true, true, true));
    assert_eq!(play(&mut host, 1), frame(1, 1, 1));
    host.end_frame(Some(Ok(b"truncated")));
    assert!(matches!(host.last_reload(), ReloadOutcome::Abandoned(LoadFailure::Load(_))));
    assert_eq!(host.active(), InstanceHandle { generation: 0 });
    assert_eq!(play(&mut host, 2), frame(2, 2, 1));
    host.end_frame(Some(Ok(guest(2, false, true, true).as_bytes())));
    assert!(matches!(host.last_reload(), ReloadOutcome::Abandoned(LoadFailure::Construct(_))));
    assert_eq!(host.active(), InstanceHandle { generation: 0 });
    assert_eq!(play(&mut host, 3), frame(3, 3, 1));
}

#[test]
fn unreadable_artifact_abandons_the_reload_with_its_error() {
    let mut host = start(&guest(1, true, true, true));
    let error = LoadError { message: String::from("permission denied") };
    host.end_frame(Some(Err(error.clone())));
    assert_eq!(*host.last_reload(), ReloadOutcome::Abandoned(LoadFailure::Load(error)));
    assert_eq!(host.active(), InstanceHandle { generation: 0 });
    assert_eq!(play(&mut host, 1), frame(1, 1, 1));
}

#[test]
fn abandoned_reload_is_retried_at_the_next_change() {
    let mut host = start(&guest(1, true, true, true));
    assert_eq!(play(&mut host, 1), frame(1, 1, 1));
    host.end_frame(Some(Ok(b"half written")));
    assert_eq!(host.active(), InstanceHandle { generation: 0 });
    host.end_frame(Some(Ok(guest(3, true, true, true).as_bytes())));
    assert_eq!(*host.last_reload(), ReloadOutcome::Restored);
    assert_eq!(host.active(), InstanceHandle { generation: 1 });
    assert_eq!(play(&mut host, 2), frame(2, 2, 3));
}

#[test]
fn state_is_carried_through_several_generations() {
    let mut host = start(&guest(1, true, true, true));
    let mut count = 0;
    for generation in 0..4u64 {
        let version = generation as u32 + 1;
        for _ in 0..3 {
            count += 1;
            assert_eq!(play(&mut host, 0), frame(count, 0, version));
            assert_eq!(host.active(), InstanceHandle { generation });
        }
        host.end_frame(Some(Ok(guest(version + 1, true, true, true).as_bytes())));
        assert_eq!(*host.last_reload(), ReloadOutcome::Restored);
    }
}

#[test]
fn trapping_frame_paints_nothing_and_forces_no_reload() {
    let mut host = start(&guest(1, true, true, true));
    assert_eq!(play(&mut host, 1), frame(1, 1, 1));
    host.end_frame(None);
    assert_eq!(play(&mut host, 666), Vec::<Val>::new());
    assert!(host.last_failure().is_some());
    host.end_frame(None);
    assert_eq!(*host.last_failure(), None);
    assert_eq!(host.active(), InstanceHandle { generation: 0 });
    assert_eq!(*host.last_reload(), ReloadOutcome::NotYet);
    let _ = play(&mut host, 2);
    assert_eq!(host.active(), InstanceHandle { generation: 0 });
}

#[test]
fn reload_after_a_trap_brings_back_a_running_instance() {
    let mut host = start(&guest(1, true, true, true));
    assert_eq!(play(&mut host, 666), Vec::<Val>::new());
    host.end_frame(Some(Ok(guest(2, true, true, true).as_bytes())));
    assert_eq!(host.active(), InstanceHandle { generation: 1 });
    assert_eq!(*host.last_failure(), None);
    let painted = play(&mut host, 4);
    assert_eq!(painted.len(), 3);
    assert_eq!(painted[2], Val::U32(2));
}

#[test]
fn host_begins_on_the_instance_it_is_given() {
    let mut game = GameInstance::construct(guest(5, true, true, true).as_bytes(), compact())
        .expect("a valid artifact");
    assert_eq!(game.run_frame(Val::U32(1), Val::U32(0)).expect("frame"), frame(1, 1, 5));
    let mut host = match Host::begin(Ok(game)) {
        Ok(host) => host,
        Err(failure) => panic!("{failure:?}"),
    };
    assert!(host.is_running());
    assert_eq!(host.active(), InstanceHandle { generation: 0 });
    assert_eq!(*host.last_reload(), ReloadOutcome::NotYet);
    assert_eq!(*host.last_failure(), None);
    assert_eq!(play(&mut host, 2), frame(2, 2, 5));
}

#[test]
fn host_does_not_begin_without_an_instance() {
    let failure = LoadFailure::Construct(ConstructError { message: String::from("trap") });
    match Host::begin(Err(failure.clone())) {
        Err(handed) => assert_eq!(handed, failure),
        Ok(_) => panic!("a host began without an instance"),
    }
}

#[test]
fn recorded_frame_is_painted_and_its_failure_kept() {
    let mut host = start(&guest(1, true, true, true));
    assert_eq!(host.record_frame(Ok(frame(7, 8, 9))), frame(7, 8, 9));
    assert_eq!(*host.last_failure(), None);
    let error = FrameError { message: String::from("wasm trap: unreachable") };
    assert_eq!(host.record_frame(Err(error.clone())), Vec::<Val>::new());
    assert_eq!(*host.last_failure(), Some(error));
    assert!(host.is_running());
    assert_eq!(host.active(), InstanceHandle { generation: 0 });
    assert_eq!(host.record_frame(Ok(vec![])), Vec::<Val>::new());
    assert_eq!(*host.last_failure(), None);
    assert_eq!(play(&mut host, 3), frame(1, 3, 1));
}

#[test]
fn reload_keeps_the_reservation_of_the_first_generation() {
    let mut host = Host::start(
        guest(1, true, true, true).as_bytes(),
        Reservation::Compact { growth: 1 << 16 },
    )
    .expect("a valid artifact");
    host.end_frame(Some(Ok(guest(2, true, true, true).as_bytes())));
    assert_eq!(*host.last_reload(), ReloadOutcome::Restored);
    assert_eq!(play(&mut host, 1), frame(1, 1, 2));
}
