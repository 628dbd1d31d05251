//! What holds of the orchestrator over whole runs of events.

use crate::error::{FrameError, LoadFailure, RestoreError, SaveError};
use crate::orchestrator::{
    handle_of, successor, ActionView, EventView, InstanceHandle, Machine, Phase, ReloadOutcome,
    StateLost,
};
use vstd::prelude::*;

verus! {

/// The machine after one event: moved on where the event answers the
/// outstanding call, untouched where it does not.
pub open spec fn stepped(machine: Machine, event: EventView) -> Machine {
    if machine.accepts(event) {
        machine.after(event)
    } else {
        machine
    }
}

/// The machine after each of `events` in turn.
pub open spec fn run(machine: Machine, events: Seq<EventView>) -> Machine
    decreases events.len(),
{
    if events.len() == 0 {
        machine
    } else {
        stepped(run(machine, events.drop_last()), events.last())
    }
}

/// How the guest calls of one reload attempt went: the save on the active
/// instance, the construction of the fresh one, and the restore on it.
pub struct Attempt {
    pub saved: Result<Seq<u8>, SaveError>,
    pub loaded: Result<(), LoadFailure>,
    pub restored: Result<(), RestoreError>,
}

impl Attempt {
    /// The events of the attempt, from the poll that saw the change on. A
    /// failed construction ends the attempt; a failed save leaves nothing
    /// to restore; a restore, however it goes, is followed by the swap.
    pub open spec fn events(self, frame: Result<(), FrameError>) -> Seq<EventView> {
        let begun = seq![
            EventView::FrameEnded { frame, changed: true },
            EventView::Saved(self.saved),
            EventView::Loaded(self.loaded),
        ];
        if self.loaded is Err {
            begun
        } else if self.saved is Err {
            begun.push(EventView::Swapped)
        } else {
            begun.push(EventView::Restored(self.restored)).push(EventView::Swapped)
        }
    }

    /// Whether the attempt ends with a fresh generation in place.
    pub open spec fn succeeds(self) -> bool {
        self.loaded is Ok
    }

    /// How the attempt ends.
    pub open spec fn outcome(self) -> ReloadOutcome {
        match self.loaded {
            Err(failure) => ReloadOutcome::Abandoned(failure),
            Ok(_) => if self.saved is Err {
                ReloadOutcome::Reset(StateLost::SaveFailed)
            } else if self.restored is Ok {
                ReloadOutcome::Restored
            } else {
                ReloadOutcome::Reset(StateLost::RestoreFailed)
            },
        }
    }

    /// The machine that `machine` has become when the attempt is over.
    pub open spec fn settled(self, machine: Machine) -> Machine {
        Machine {
            phase: Phase::Running,
            active: if self.succeeds() {
                successor(machine.active)
            } else {
                machine.active
            },
            carried: None,
            last_reload: self.outcome(),
        }
    }
}

/// A blob is held only while the fresh generation is being loaded, whatever
/// events arrive.
pub proof fn lemma_blob_is_transient(machine: Machine, events: Seq<EventView>)
    requires
        machine.wf(),
    ensures
        Machine::initial().wf(),
        run(machine, events).wf(),
    decreases events.len(),
{
    if events.len() > 0 {
        lemma_blob_is_transient(machine, events.drop_last());
    }
}

/// Once the first load has succeeded, the first frame is asked of the
/// instance it constructed, and that instance is live.
pub proof fn lemma_first_load_leads_to_first_frame()
    ensures
        Machine::initial().accepts(EventView::Loaded(Ok(()))),
        Machine::initial().answer(EventView::Loaded(Ok(()))) == (ActionView::RunFrame {
            handle: handle_of(0),
        }),
        Machine::initial().after(EventView::Loaded(Ok(()))).phase == Phase::Running,
        Machine::initial().after(EventView::Loaded(Ok(()))).live(handle_of(0)),
{
}

/// Only a failure of the very first load halts the host: from any later
/// phase no event leads to a halt.
pub proof fn lemma_only_first_load_is_fatal(machine: Machine, event: EventView)
    requires
        machine.accepts(event),
    ensures
        machine.after(event).phase == Phase::Halted <==> machine.phase == Phase::Starting
            && event matches EventView::Loaded(Err(_)),
        machine.answer(event) is Halt <==> machine.after(event).phase == Phase::Halted,
{
}

/// While the watcher reports no change, the active instance stays the same
/// and takes every frame, however many frames pass and however they end.
pub proof fn lemma_quiet_frames_keep_the_instance(machine: Machine, events: Seq<EventView>)
    requires
        machine.phase == Phase::Running,
        forall|i: int|
            0 <= i < events.len() ==> (#[trigger] events[i] matches EventView::FrameEnded {
                changed,
                ..
            } && !changed),
    ensures
        run(machine, events) == machine,
        forall|i: int|
            0 <= i < events.len() ==> machine.answer(#[trigger] events[i]) == (
            ActionView::RunFrame { handle: handle_of(machine.active) }),
    decreases events.len(),
{
    if events.len() > 0 {
        let earlier = events.drop_last();
        assert forall|i: int| 0 <= i < earlier.len() implies (#[trigger] earlier[i]
            matches EventView::FrameEnded { changed, .. } && !changed) by {
            assert(earlier[i] == events[i]);
        }
        lemma_quiet_frames_keep_the_instance(machine, earlier);
        assert(events.last() == events[events.len() - 1]);
    }
}

/// A frame that fails is skipped and nothing else: the machine moves exactly
/// as it would after a frame that succeeded, so the next frame goes to the
/// same instance unless the watcher reported a change.
pub proof fn lemma_failed_frame_forces_no_reload(
    machine: Machine,
    error: FrameError,
    changed: bool,
)
    requires
        machine.phase == Phase::Running,
    ensures
        machine.after(EventView::FrameEnded { frame: Err(error), changed }) == machine.after(
            EventView::FrameEnded { frame: Ok(()), changed },
        ),
        machine.answer(EventView::FrameEnded { frame: Err(error), changed }) == machine.answer(
            EventView::FrameEnded { frame: Ok(()), changed },
        ),
        !changed ==> machine.after(EventView::FrameEnded { frame: Err(error), changed })
            == machine && machine.answer(EventView::FrameEnded { frame: Err(error), changed })
            == (ActionView::RunFrame { handle: handle_of(machine.active) }),
{
}

/// The active generation changes at the swap and nowhere else.
pub proof fn lemma_active_changes_only_at_swap(machine: Machine, event: EventView)
    ensures
        stepped(machine, event).active == if machine.phase == Phase::Swapping && event
            is Swapped {
            successor(machine.active)
        } else {
            machine.active
        },
        successor(machine.active) != machine.active,
{
}

/// Every handle that an answer names is live once the answer is given; frames
/// go to the active instance only; and a blob is handed to the instance of
/// the fresh generation, never to the one that produced it.
pub proof fn lemma_answers_name_live_handles(machine: Machine, event: EventView)
    requires
        machine.accepts(event),
    ensures
        match machine.answer(event) {
            ActionView::RunFrame { handle } => machine.after(event).live(handle)
                && handle.generation == machine.after(event).active,
            ActionView::Save { handle } => machine.after(event).live(handle) && handle.generation
                == machine.active,
            ActionView::Restore { handle, blob } => machine.after(event).live(handle)
                && handle.generation != machine.active && machine.after(event).live(
                handle_of(machine.active),
            ),
            ActionView::Swap { retired, activated } => machine.after(event).live(retired)
                && machine.after(event).live(activated) && retired.generation == machine.active
                && activated.generation == successor(machine.active),
            ActionView::Load { generation } => generation == successor(machine.active)
                && machine.after(event).live(handle_of(machine.active)),
            ActionView::Halt { failure } => true,
        },
{
}

/// After the swap the retired handle is dead and the activated one is the
/// only live handle.
pub proof fn lemma_swap_retires_the_old_handle(machine: Machine, handle: InstanceHandle)
    requires
        machine.phase == Phase::Swapping,
    ensures
        machine.after(EventView::Swapped).live(handle) <==> handle == handle_of(
            successor(machine.active),
        ),
        !machine.after(EventView::Swapped).live(handle_of(machine.active)),
{
}

/// The blob that reaches the fresh instance is the blob that the old one
/// produced, byte for byte.
pub proof fn lemma_blob_is_carried_untouched(machine: Machine, blob: Seq<u8>)
    requires
        machine.phase == Phase::Saving,
    ensures
        machine.after(EventView::Saved(Ok(blob))).answer(EventView::Loaded(Ok(())))
            == (ActionView::Restore { handle: handle_of(successor(machine.active)), blob }),
{
}

/// A failed restore holds nothing up: the fresh instance, the one that was
/// handed the blob, is swapped in and takes the next frame, and the outcome
/// says that it runs without the carried state.
pub proof fn lemma_failed_restore_still_runs(machine: Machine, error: RestoreError)
    requires
        machine.phase == Phase::Restoring,
    ensures
        ({
            let fresh = handle_of(successor(machine.active));
            let failed = EventView::Restored(Err(error));
            let swapping = machine.after(failed);
            let running = swapping.after(EventView::Swapped);
            &&& machine.accepts(failed)
            &&& machine.answer(failed) == (ActionView::Swap {
                retired: handle_of(machine.active),
                activated: fresh,
            })
            &&& swapping.live(fresh)
            &&& swapping.accepts(EventView::Swapped)
            &&& swapping.answer(EventView::Swapped) == (ActionView::RunFrame { handle: fresh })
            &&& running.phase == Phase::Running
            &&& running.active == fresh.generation
            &&& running.live(fresh)
            &&& !running.live(handle_of(machine.active))
            &&& running.last_reload == ReloadOutcome::Reset(StateLost::RestoreFailed)
        }),
{
}

/// Whatever the guest calls of a reload attempt do, the attempt ends with
/// the host running: on the fresh generation where one could be put in
/// place, on the previous one where not. The outcome records which, and no
/// blob is left behind.
pub proof fn lemma_reload_always_ends_running(
    machine: Machine,
    frame: Result<(), FrameError>,
    attempt: Attempt,
)
    requires
        machine.phase == Phase::Running,
    ensures
        run(machine, attempt.events(frame)) == attempt.settled(machine),
        attempt.settled(machine).live(handle_of(attempt.settled(machine).active)),
        attempt.settled(machine).wf(),
{
    let events = attempt.events(frame);
    let e0 = EventView::FrameEnded { frame, changed: true };
    let e1 = EventView::Saved(attempt.saved);
    let e2 = EventView::Loaded(attempt.loaded);
    let s0: Seq<EventView> = seq![];
    let s1 = seq![e0];
    let s2 = seq![e0, e1];
    let s3 = seq![e0, e1, e2];
    assert(s1.drop_last() =~= s0);
    assert(s2.drop_last() =~= s1);
    assert(s3.drop_last() =~= s2);
    assert(run(machine, s0) == machine);
    let m1 = stepped(machine, e0);
    assert(run(machine, s1) == m1);
    let m2 = stepped(m1, e1);
    assert(run(machine, s2) == m2);
    let m3 = stepped(m2, e2);
    assert(run(machine, s3) == m3);
    if attempt.loaded is Err {
        assert(events =~= s3);
    } else if attempt.saved is Err {
        let s4 = s3.push(EventView::Swapped);
        assert(s4.drop_last() =~= s3);
        assert(run(machine, s4) == stepped(m3, EventView::Swapped));
        assert(events =~= s4);
    } else {
        let e3 = EventView::Restored(attempt.restored);
        let s4 = s3.push(e3);
        assert(s4.drop_last() =~= s3);
        let m4 = stepped(m3, e3);
        assert(run(machine, s4) == m4);
        let s5 = s4.push(EventView::Swapped);
        assert(s5.drop_last() =~= s4);
        assert(run(machine, s5) == stepped(m4, EventView::Swapped));
        assert(events =~= s5);
    }
}

} // verus!
