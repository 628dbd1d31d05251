//! The host: one live guest instance, run frame by frame and replaced when
//! the artifact changes.
//!
//! The host makes the guest calls and leaves every decision to the
//! orchestrator. Between two calls of its own it is always running: a
//! reload, however it goes, is over when `end_frame` returns.

use crate::environment::{
    contract_name, painted, settle_frame, GameInstance, Reservation, Resident,
};
use crate::error::{FrameError, LoadError, LoadFailure, RestoreError, SaveError};
use crate::orchestrator::{
    handle_of, successor, Action, Event, EventView, InstanceHandle, Machine, Orchestrator, Phase,
    ReloadOutcome,
};
use crate::trace::Attempt;
use vstd::pervasive::unreached;
use vstd::prelude::*;
use wasmtime::component::Val;

verus! {

/// The active generation and the orchestrator that decides about it.
/// What comes after the construction of a fresh generation.
enum Next {
    /// Nothing: there is no fresh instance, the active one stays.
    Stay,
    /// The fresh instance takes over as it is.
    Swap(GameInstance),
    /// The fresh instance is handed the blob, then takes over.
    Restore(GameInstance, Vec<u8>),
}

pub struct Host {
    orchestrator: Orchestrator,
    active: GameInstance,
    failed: Option<FrameError>,
}

impl View for Host {
    type V = Machine;

    closed spec fn view(&self) -> Machine {
        self.orchestrator@
    }
}

impl Host {
    /// The host is running and carries no blob, and its instance can be
    /// called.
    pub closed spec fn wf(&self) -> bool {
        &&& self.orchestrator@.phase == Phase::Running
        &&& self.orchestrator@.carried is None
        &&& self.sound()
    }

    /// The active instance can be called.
    pub closed spec fn sound(&self) -> bool {
        self.active.wf()
    }

    /// The error of the last frame, where that frame failed and
    /// `end_frame` has not been called since.
    pub closed spec fn failure(&self) -> Option<FrameError> {
        self.failed
    }

    /// The guest object that takes the frames, and the environment it
    /// lives in.
    pub closed spec fn instance(&self) -> Resident {
        self.active@
    }

    /// What `wf` says, for callers.
    pub proof fn lemma_running(&self)
        requires
            self.wf(),
        ensures
            self@.phase == Phase::Running,
            self@.carried is None,
            self@.wf(),
            self@.live(handle_of(self@.active)),
    {
    }

    /// Whether the host is running, as it is between any two calls made
    /// on it.
    pub fn is_running(&self) -> (running: bool)
        ensures
            running == (self@.phase == Phase::Running && self@.carried is None),
            self.wf() ==> running,
    {
        match self.orchestrator.phase() {
            Phase::Running => !self.orchestrator.carries(),
            _ => false,
        }
    }

    /// A host around the outcome of the first construction: running on the
    /// instance where there is one, and the failure handed on where not.
    pub fn begin(first: Result<GameInstance, LoadFailure>) -> (started: Result<Host, LoadFailure>)
        ensures
            match first {
                Ok(game) => started matches Ok(host) && host@ == Machine::initial().after(
                    EventView::Loaded(Ok(())),
                ) && host.failure() is None && host.instance() == game@ && (game.wf()
                    ==> host.wf()),
                Err(failure) => started matches Err(handed) && handed == failure,
            },
    {
        let (mut orchestrator, _first) = Orchestrator::start();
        match first {
            Ok(active) => {
                let _asked = orchestrator.step(Event::Loaded(Ok(())));
                Ok(Host { orchestrator, active, failed: None })
            },
            Err(failure) => {
                match orchestrator.step(Event::Loaded(Err(failure))) {
                    Ok(Action::Halt { failure }) => Err(failure),
                    _ => unreached(),
                }
            },
        }
    }

    /// Brings up the first generation from `artifact`, in an environment
    /// that reserves guest memory as `reservation` says. Where that fails
    /// there is no host: this is the one failure that is not absorbed.
    pub fn start(artifact: &[u8], reservation: Reservation) -> (started: Result<
        Host,
        LoadFailure,
    >)
        ensures
            started matches Ok(host) ==> host.wf() && host@ == Machine::initial().after(
                EventView::Loaded(Ok(())),
            ) && host.failure() is None && host.instance().environment.reservation
                == reservation,
            started matches Err(LoadFailure::Bind(e)) ==> contract_name(e.export@),
    {
        Host::begin(GameInstance::construct(artifact, reservation))
    }

    /// The handle of the instance that takes the frames.
    pub fn active(&self) -> (handle: InstanceHandle)
        ensures
            handle == handle_of(self@.active),
    {
        InstanceHandle { generation: self.orchestrator.generation() }
    }

    /// How the most recent reload ended.
    pub fn last_reload(&self) -> (outcome: &ReloadOutcome)
        ensures
            *outcome == self@.last_reload,
    {
        self.orchestrator.last_reload()
    }

    /// The error of the last frame, where that frame failed.
    pub fn last_failure(&self) -> (failure: &Option<FrameError>)
        ensures
            *failure == self.failure(),
    {
        &self.failed
    }

    /// Puts `fresh` in the place of the active instance, which is dropped
    /// with its environment, and tells the orchestrator that the swap is
    /// done.
    fn swap(&mut self, fresh: GameInstance)
        requires
            old(self)@.phase == Phase::Swapping,
            old(self)@.carried is None,
            fresh.wf(),
        ensures
            final(self).wf(),
            final(self).instance() == fresh@,
            final(self)@ == old(self)@.after(EventView::Swapped),
            final(self).failure() == old(self).failure(),
    {
        self.active = fresh;
        let _asked = self.orchestrator.step(Event::Swapped);
    }

    /// Takes the outcome of a frame on the active instance: returns what is
    /// to be painted, the commands in their order or nothing where the
    /// frame failed, and keeps the failure for `last_failure`. Nothing else
    /// changes.
    pub fn record_frame(&mut self, frame: Result<Vec<Val>, FrameError>) -> (commands: Vec<Val>)
        ensures
            commands@ == painted(
                match frame {
                    Ok(ran) => Ok(ran@),
                    Err(error) => Err(error),
                },
            ),
            final(self).failure() == match frame {
                Ok(_) => None::<FrameError>,
                Err(error) => Some(error),
            },
            final(self)@ == old(self)@,
            final(self).instance() == old(self).instance(),
            final(self).wf() == old(self).wf(),
    {
        let (commands, report) = settle_frame(frame);
        self.failed = match report {
            Ok(_) => None,
            Err(error) => Some(error),
        };
        commands
    }

    /// Runs one frame on the active instance and returns what is to be
    /// painted: the guest's commands in paint order, or nothing where the
    /// guest failed. A failure is kept for `last_failure`; it changes
    /// nothing else, and the next frame goes to the same instance.
    pub fn run_frame(&mut self, mouse: Val, key: Val) -> (commands: Vec<Val>)
        requires
            old(self).wf(),
        ensures
            final(self).wf(),
            final(self)@ == old(self)@,
            final(self).instance() == old(self).instance(),
            final(self).failure() is Some ==> commands@ == Seq::<Val>::empty(),
    {
        let frame = self.active.run_frame(mouse, key);
        self.record_frame(frame)
    }

    /// Tells the orchestrator what the save on the active instance came
    /// to, as it came.
    fn take_save(&mut self, saved: Result<Vec<u8>, SaveError>)
        requires
            old(self)@.phase == Phase::Saving,
        ensures
            final(self)@ == old(self)@.after(Event::Saved(saved)@),
            final(self).instance() == old(self).instance(),
            final(self).sound() == old(self).sound(),
            final(self).failure() == old(self).failure(),
    {
        let _asked = self.orchestrator.step(Event::Saved(saved));
    }

    /// Tells the orchestrator what the construction of the fresh generation
    /// came to, and hands back what it asks for next: nothing where there is
    /// no fresh instance; the fresh instance with the carried blob where
    /// there is one; the fresh instance alone where not.
    fn take_construction(&mut self, constructed: Result<GameInstance, LoadFailure>) -> (next:
        Next)
        requires
            old(self)@.phase == Phase::Loading,
        ensures
            match constructed {
                Ok(fresh) => final(self)@ == old(self)@.after(EventView::Loaded(Ok(())))
                    && match old(self)@.carried {
                    Some(carried) => next matches Next::Restore(instance, blob) && instance
                        == fresh && blob@ == carried,
                    None => next matches Next::Swap(instance) && instance == fresh,
                },
                Err(failure) => final(self)@ == old(self)@.after(
                    EventView::Loaded(Err(failure)),
                ) && next is Stay,
            },
            final(self).instance() == old(self).instance(),
            final(self).sound() == old(self).sound(),
            final(self).failure() == old(self).failure(),
    {
        match constructed {
            Ok(fresh) => match self.orchestrator.step(Event::Loaded(Ok(()))) {
                Ok(Action::Restore { handle: _, blob }) => Next::Restore(fresh, blob),
                Ok(Action::Swap { retired: _, activated: _ }) => Next::Swap(fresh),
                _ => unreached(),
            },
            Err(failure) => {
                let _asked = self.orchestrator.step(Event::Loaded(Err(failure)));
                Next::Stay
            },
        }
    }

    /// Tells the orchestrator what the restore on the fresh instance came
    /// to, as it came.
    fn take_restore(&mut self, restored: Result<(), RestoreError>)
        requires
            old(self)@.phase == Phase::Restoring,
        ensures
            final(self)@ == old(self)@.after(EventView::Restored(restored)),
            final(self).instance() == old(self).instance(),
            final(self).sound() == old(self).sound(),
            final(self).failure() == old(self).failure(),
    {
        let _asked = self.orchestrator.step(Event::Restored(restored));
    }

    /// Ends the frame. `change` is `None` where the watcher saw no change;
    /// otherwise it holds the artifact as it now is, or the reason why it
    /// could not be read.
    ///
    /// On a change the active instance is asked for its state, a fresh
    /// generation is brought up from the artifact, the state is handed to
    /// it, and it takes over. Where no fresh generation can be brought up
    /// the active one stays. Where the active instance gives no state, or
    /// the fresh one does not accept it, the fresh one takes over all the
    /// same, as the guest left it. `last_reload` tells which.
    pub fn end_frame(&mut self, change: Option<Result<&[u8], LoadError>>)
        requires
            old(self).wf(),
        ensures
            final(self).wf(),
            final(self).failure() is None,
            change is None ==> final(self)@ == old(self)@,
            change is None || final(self)@.last_reload is Abandoned ==> final(self).instance()
                == old(self).instance(),
            final(self).instance().environment.reservation
                == old(self).instance().environment.reservation,
            change is Some ==> exists|attempt: Attempt| #[trigger]
                attempt.settled(old(self)@) == final(self)@,
            change is Some ==> !(final(self)@.last_reload is NotYet) && final(self)@.active == (
            if final(self)@.last_reload is Abandoned {
                old(self)@.active
            } else {
                successor(old(self)@.active)
            }),
            change matches Some(Err(error)) ==> final(self)@.last_reload
                == ReloadOutcome::Abandoned(LoadFailure::Load(error)),
    {
        let ghost before = self@;
        let frame = match self.failed.take() {
            Some(error) => Err(error),
            None => Ok(()),
        };
        let artifact = match change {
            None => {
                let _asked = self.orchestrator.step(Event::FrameEnded { frame, changed: false });
                return ;
            },
            Some(artifact) => artifact,
        };
        let _asked = self.orchestrator.step(Event::FrameEnded { frame, changed: true });
        let saved = self.active.save();
        self.take_save(saved);
        let ghost saved: Result<Seq<u8>, SaveError> = match self@.carried {
            Some(blob) => Ok(blob),
            None => Err(arbitrary()),
        };
        let constructed = match LoadFailure::loading(artifact) {
            Ok(bytes) => GameInstance::construct(bytes, self.active.reservation()),
            Err(failure) => Err(failure),
        };
        match self.take_construction(constructed) {
            Next::Stay => {
                let ghost attempt = Attempt {
                    saved,
                    loaded: Err(self@.last_reload->Abandoned_0),
                    restored: Ok(()),
                };
                assert(attempt.settled(before) == self@);
            },
            Next::Swap(fresh) => {
                self.swap(fresh);
                let ghost attempt = Attempt { saved, loaded: Ok(()), restored: Ok(()) };
                assert(attempt.settled(before) == self@);
            },
            Next::Restore(fresh, blob) => {
                let mut fresh = fresh;
                let restored = fresh.load(blob);
                self.take_restore(restored);
                self.swap(fresh);
                let ghost attempt = Attempt {
                    saved,
                    loaded: Ok(()),
                    restored: if self@.last_reload is Restored {
                        Ok(())
                    } else {
                        Err(arbitrary())
                    },
                };
                assert(attempt.settled(before) == self@);
            },
        }
    }
}

} // verus!
