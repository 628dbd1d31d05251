//! The reload orchestrator: which guest call comes next.
//!
//! The orchestrator performs no guest call itself. It is told how the last
//! call went and answers with the next one to make, so that whoever drives it
//! only carries calls out and never decides. At every moment it names exactly
//! one generation as active; a second one exists only between its
//! construction and the swap that retires its predecessor.
//!
//! A blob that the fresh instance does not accept is no reason to hold the
//! reload up: the failure is noted and the fresh instance takes the frames
//! as the guest left it.

use crate::error::{FrameError, LoadFailure, RestoreError, SaveError};
use vstd::prelude::*;

verus! {

/// Names the guest instance of one generation.
#[derive(Clone, Copy, Debug, PartialEq, Eq, Structural)]
pub struct InstanceHandle {
    pub generation: u64,
}

/// What the orchestrator is waiting for.
#[derive(Clone, Copy, Debug, PartialEq, Eq, Structural)]
pub enum Phase {
    /// The first generation is being loaded.
    Starting,
    /// The active instance is running a frame.
    Running,
    /// The active instance is serializing its state.
    Saving,
    /// A fresh generation is being loaded beside the active one.
    Loading,
    /// The fresh instance is reading the carried state.
    Restoring,
    /// The fresh generation is taking over from the active one.
    Swapping,
    /// The first generation could not be loaded; nothing more will happen.
    Halted,
}

/// Why a fresh generation runs from its default state.
#[derive(Clone, Copy, Debug, PartialEq, Eq, Structural)]
pub enum StateLost {
    /// The old instance produced no blob.
    SaveFailed,
    /// The fresh instance did not accept the blob.
    RestoreFailed,
}

/// How the most recent reload ended.
#[derive(Clone, Debug, PartialEq, Eq)]
pub enum ReloadOutcome {
    /// No reload has ended yet.
    NotYet,
    /// The fresh instance took over the state of its predecessor.
    Restored,
    /// The fresh instance runs from its default state.
    Reset(StateLost),
    /// No fresh instance could be made; the previous generation stays active.
    Abandoned(LoadFailure),
}

/// How the last call went.
#[derive(Debug, PartialEq, Eq)]
pub enum Event {
    /// A load, instantiate and construct of the artifact has ended.
    Loaded(Result<(), LoadFailure>),
    /// The frame has ended, and the watcher was polled at its boundary.
    FrameEnded { frame: Result<(), FrameError>, changed: bool },
    /// The active instance was asked for its state.
    Saved(Result<Vec<u8>, SaveError>),
    /// The fresh instance was handed the carried state.
    Restored(Result<(), RestoreError>),
    /// The retired generation is gone and the fresh one is in its place.
    Swapped,
}

/// The next call to make.
#[derive(Clone, Debug, PartialEq, Eq)]
pub enum Action {
    /// Load the artifact into a new environment, instantiate it and construct
    /// its instance, to be known by `generation`. The active pair stays.
    Load { generation: u64 },
    /// Run one frame on `handle`, then poll the watcher.
    RunFrame { handle: InstanceHandle },
    /// Ask `handle` to serialize its state.
    Save { handle: InstanceHandle },
    /// Hand `blob` to `handle`.
    Restore { handle: InstanceHandle, blob: Vec<u8> },
    /// Drop the environment of `retired`; `activated` takes the frames from
    /// now on.
    Swap { retired: InstanceHandle, activated: InstanceHandle },
    /// Give up: there is no instance to run.
    Halt { failure: LoadFailure },
}

/// An event that does not answer the call that is outstanding.
#[derive(Clone, Copy, Debug, PartialEq, Eq, Structural)]
pub struct Unexpected {
    /// The phase in which the event arrived.
    pub phase: Phase,
}

/// `Event` with its blob as a sequence of bytes.
pub enum EventView {
    Loaded(Result<(), LoadFailure>),
    FrameEnded { frame: Result<(), FrameError>, changed: bool },
    Saved(Result<Seq<u8>, SaveError>),
    Restored(Result<(), RestoreError>),
    Swapped,
}

/// `Action` with its blob as a sequence of bytes.
pub enum ActionView {
    Load { generation: u64 },
    RunFrame { handle: InstanceHandle },
    Save { handle: InstanceHandle },
    Restore { handle: InstanceHandle, blob: Seq<u8> },
    Swap { retired: InstanceHandle, activated: InstanceHandle },
    Halt { failure: LoadFailure },
}

impl View for Event {
    type V = EventView;

    open spec fn view(&self) -> EventView {
        match *self {
            Event::Loaded(r) => EventView::Loaded(r),
            Event::FrameEnded { frame, changed } => EventView::FrameEnded { frame, changed },
            Event::Saved(Ok(blob)) => EventView::Saved(Ok(blob@)),
            Event::Saved(Err(e)) => EventView::Saved(Err(e)),
            Event::Restored(r) => EventView::Restored(r),
            Event::Swapped => EventView::Swapped,
        }
    }
}

impl View for Action {
    type V = ActionView;

    open spec fn view(&self) -> ActionView {
        match *self {
            Action::Load { generation } => ActionView::Load { generation },
            Action::RunFrame { handle } => ActionView::RunFrame { handle },
            Action::Save { handle } => ActionView::Save { handle },
            Action::Restore { handle, blob } => ActionView::Restore { handle, blob: blob@ },
            Action::Swap { retired, activated } => ActionView::Swap { retired, activated },
            Action::Halt { failure } => ActionView::Halt { failure },
        }
    }
}

/// The orchestrator as a value: its phase, the active generation, the blob it
/// carries towards the fresh instance, and how the last reload ended.
pub struct Machine {
    pub phase: Phase,
    /// The generation that takes the frames; while `Starting`, the one that
    /// is being loaded.
    pub active: u64,
    /// The state saved by the active instance, held until the fresh one has
    /// been constructed.
    pub carried: Option<Seq<u8>>,
    pub last_reload: ReloadOutcome,
}

/// The generation that follows `generation`. Numbers are reused after
/// `u64::MAX` generations; two neighbours always differ.
pub open spec fn successor(generation: u64) -> u64 {
    if generation == u64::MAX {
        0
    } else {
        (generation + 1) as u64
    }
}

/// The handle of the instance of `generation`.
pub open spec fn handle_of(generation: u64) -> InstanceHandle {
    InstanceHandle { generation }
}

impl Machine {
    /// The machine before anything was loaded.
    pub open spec fn initial() -> Machine {
        Machine {
            phase: Phase::Starting,
            active: 0,
            carried: None,
            last_reload: ReloadOutcome::NotYet,
        }
    }

    /// A blob is carried only while the fresh generation is being loaded.
    pub open spec fn wf(self) -> bool {
        self.carried is Some ==> self.phase == Phase::Loading
    }

    /// Whether `event` answers the call that is outstanding.
    pub open spec fn accepts(self, event: EventView) -> bool {
        match self.phase {
            Phase::Starting => event is Loaded,
            Phase::Running => event is FrameEnded,
            Phase::Saving => event is Saved,
            Phase::Loading => event is Loaded,
            Phase::Restoring => event is Restored,
            Phase::Swapping => event is Swapped,
            Phase::Halted => false,
        }
    }

    /// The machine in `phase`, all else as it was.
    pub open spec fn in_phase(self, phase: Phase) -> Machine {
        Machine { phase, ..self }
    }

    /// The machine after `event`. Meaningful where `accepts` holds.
    pub open spec fn after(self, event: EventView) -> Machine {
        match event {
            EventView::Loaded(Ok(_)) => if self.phase == Phase::Starting {
                self.in_phase(Phase::Running)
            } else if self.carried is Some {
                Machine { phase: Phase::Restoring, carried: None, ..self }
            } else {
                Machine {
                    phase: Phase::Swapping,
                    last_reload: ReloadOutcome::Reset(StateLost::SaveFailed),
                    ..self
                }
            },
            EventView::Loaded(Err(failure)) => if self.phase == Phase::Starting {
                self.in_phase(Phase::Halted)
            } else {
                Machine {
                    phase: Phase::Running,
                    carried: None,
                    last_reload: ReloadOutcome::Abandoned(failure),
                    ..self
                }
            },
            EventView::FrameEnded { frame, changed } => if changed {
                self.in_phase(Phase::Saving)
            } else {
                self
            },
            EventView::Saved(Ok(blob)) => Machine {
                phase: Phase::Loading,
                carried: Some(blob),
                ..self
            },
            EventView::Saved(Err(_)) => Machine { phase: Phase::Loading, carried: None, ..self },
            EventView::Restored(Ok(_)) => Machine {
                phase: Phase::Swapping,
                last_reload: ReloadOutcome::Restored,
                ..self
            },
            EventView::Restored(Err(_)) => Machine {
                phase: Phase::Swapping,
                last_reload: ReloadOutcome::Reset(StateLost::RestoreFailed),
                ..self
            },
            EventView::Swapped => Machine {
                phase: Phase::Running,
                active: successor(self.active),
                ..self
            },
        }
    }

    /// The call that `event` leads to. Meaningful where `accepts` holds.
    pub open spec fn answer(self, event: EventView) -> ActionView {
        let active = handle_of(self.active);
        let fresh = handle_of(successor(self.active));
        match event {
            EventView::Loaded(Ok(_)) => if self.phase == Phase::Starting {
                ActionView::RunFrame { handle: active }
            } else if self.carried is Some {
                ActionView::Restore { handle: fresh, blob: self.carried->0 }
            } else {
                ActionView::Swap { retired: active, activated: fresh }
            },
            EventView::Loaded(Err(failure)) => if self.phase == Phase::Starting {
                ActionView::Halt { failure }
            } else {
                ActionView::RunFrame { handle: active }
            },
            EventView::FrameEnded { frame, changed } => if changed {
                ActionView::Save { handle: active }
            } else {
                ActionView::RunFrame { handle: active }
            },
            EventView::Saved(_) => ActionView::Load { generation: fresh.generation },
            EventView::Restored(_) => ActionView::Swap { retired: active, activated: fresh },
            EventView::Swapped => ActionView::RunFrame { handle: fresh },
        }
    }

    /// Whether `handle` names an instance whose environment exists and has
    /// not been superseded.
    pub open spec fn live(self, handle: InstanceHandle) -> bool {
        match self.phase {
            Phase::Starting | Phase::Halted => false,
            Phase::Running | Phase::Saving | Phase::Loading => handle.generation == self.active,
            Phase::Restoring | Phase::Swapping => handle.generation == self.active
                || handle.generation == successor(self.active),
        }
    }
}

/// Decides, call by call, how the host moves between generations.
pub struct Orchestrator {
    phase: Phase,
    active: u64,
    carried: Option<Vec<u8>>,
    last_reload: ReloadOutcome,
}

impl View for Orchestrator {
    type V = Machine;

    closed spec fn view(&self) -> Machine {
        Machine {
            phase: self.phase,
            active: self.active,
            carried: match self.carried {
                Some(blob) => Some(blob@),
                None => None,
            },
            last_reload: self.last_reload,
        }
    }
}

/// The generation that follows `generation`.
pub fn next_generation(generation: u64) -> (next: u64)
    ensures
        next == successor(generation),
        next != generation,
{
    if generation == u64::MAX {
        0
    } else {
        generation + 1
    }
}

impl Orchestrator {
    /// A new orchestrator, and the call that brings up the first generation.
    pub fn start() -> (begun: (Orchestrator, Action))
        ensures
            begun.0@ == Machine::initial(),
            begun.0@.wf(),
            begun.1@ == (ActionView::Load { generation: 0 }),
    {
        let orchestrator = Orchestrator {
            phase: Phase::Starting,
            active: 0,
            carried: None,
            last_reload: ReloadOutcome::NotYet,
        };
        (orchestrator, Action::Load { generation: 0 })
    }

    /// What the orchestrator is waiting for.
    pub fn phase(&self) -> (phase: Phase)
        ensures
            phase == self@.phase,
    {
        self.phase
    }

    /// The generation that takes the frames; before the first load has
    /// ended, the one that is being loaded.
    pub fn generation(&self) -> (generation: u64)
        ensures
            generation == self@.active,
    {
        self.active
    }

    /// The handle of the instance that takes the frames, once there is one.
    pub fn active(&self) -> (handle: Option<InstanceHandle>)
        ensures
            handle == if self@.phase == Phase::Starting || self@.phase == Phase::Halted {
                None
            } else {
                Some(handle_of(self@.active))
            },
    {
        match self.phase {
            Phase::Starting | Phase::Halted => None,
            _ => Some(InstanceHandle { generation: self.active }),
        }
    }

    /// Whether a blob is being carried towards the fresh instance.
    pub fn carries(&self) -> (carrying: bool)
        ensures
            carrying == (self@.carried is Some),
    {
        self.carried.is_some()
    }

    /// How the most recent reload ended.
    pub fn last_reload(&self) -> (outcome: &ReloadOutcome)
        ensures
            *outcome == self@.last_reload,
    {
        &self.last_reload
    }

    /// Whether `handle` may still be used: its environment exists and has
    /// not been superseded.
    pub fn is_live(&self, handle: InstanceHandle) -> (live: bool)
        ensures
            live == self@.live(handle),
    {
        match self.phase {
            Phase::Starting | Phase::Halted => false,
            Phase::Running | Phase::Saving | Phase::Loading => handle.generation == self.active,
            Phase::Restoring | Phase::Swapping => handle.generation == self.active
                || handle.generation == next_generation(self.active),
        }
    }

    /// Takes the outcome of the outstanding call and answers with the next
    /// call to make. An event that does not answer the outstanding call is
    /// turned away and changes nothing.
    pub fn step(&mut self, event: Event) -> (result: Result<Action, Unexpected>)
        ensures
            old(self)@.wf() ==> final(self)@.wf(),
            old(self)@.accepts(event@) ==> result is Ok && result->Ok_0@ == old(self)@.answer(
                event@,
            ) && final(self)@ == old(self)@.after(event@),
            !old(self)@.accepts(event@) ==> result == Err::<Action, Unexpected>(
                Unexpected { phase: old(self)@.phase },
            ) && final(self)@ == old(self)@,
    {
        let active = InstanceHandle { generation: self.active };
        let fresh = InstanceHandle { generation: next_generation(self.active) };
        match self.phase {
            Phase::Starting => match event {
                Event::Loaded(Ok(_)) => {
                    self.phase = Phase::Running;
                    Ok(Action::RunFrame { handle: active })
                },
                Event::Loaded(Err(failure)) => {
                    self.phase = Phase::Halted;
                    Ok(Action::Halt { failure })
                },
                _ => Err(Unexpected { phase: Phase::Starting }),
            },
            Phase::Running => match event {
                Event::FrameEnded { frame: _, changed } => {
                    if changed {
                        self.phase = Phase::Saving;
                        Ok(Action::Save { handle: active })
                    } else {
                        Ok(Action::RunFrame { handle: active })
                    }
                },
                _ => Err(Unexpected { phase: Phase::Running }),
            },
            Phase::Saving => match event {
                Event::Saved(Ok(blob)) => {
                    self.phase = Phase::Loading;
                    self.carried = Some(blob);
                    Ok(Action::Load { generation: fresh.generation })
                },
                Event::Saved(Err(_)) => {
                    self.phase = Phase::Loading;
                    self.carried = None;
                    Ok(Action::Load { generation: fresh.generation })
                },
                _ => Err(Unexpected { phase: Phase::Saving }),
            },
            Phase::Loading => match event {
                Event::Loaded(Ok(_)) => {
                    match self.carried.take() {
                        Some(blob) => {
                            self.phase = Phase::Restoring;
                            Ok(Action::Restore { handle: fresh, blob })
                        },
                        None => {
                            self.phase = Phase::Swapping;
                            self.last_reload = ReloadOutcome::Reset(StateLost::SaveFailed);
                            Ok(Action::Swap { retired: active, activated: fresh })
                        },
                    }
                },
                Event::Loaded(Err(failure)) => {
                    self.carried = None;
                    self.phase = Phase::Running;
                    self.last_reload = ReloadOutcome::Abandoned(failure);
                    Ok(Action::RunFrame { handle: active })
                },
                _ => Err(Unexpected { phase: Phase::Loading }),
            },
            Phase::Restoring => match event {
                Event::Restored(Ok(_)) => {
                    self.phase = Phase::Swapping;
                    self.last_reload = ReloadOutcome::Restored;
                    Ok(Action::Swap { retired: active, activated: fresh })
                },
                Event::Restored(Err(_)) => {
                    self.phase = Phase::Swapping;
                    self.last_reload = ReloadOutcome::Reset(StateLost::RestoreFailed);
                    Ok(Action::Swap { retired: active, activated: fresh })
                },
                _ => Err(Unexpected { phase: Phase::Restoring }),
            },
            Phase::Swapping => match event {
                Event::Swapped => {
                    self.phase = Phase::Running;
                    self.active = fresh.generation;
                    Ok(Action::RunFrame { handle: fresh })
                },
                _ => Err(Unexpected { phase: Phase::Swapping }),
            },
            Phase::Halted => Err(Unexpected { phase: Phase::Halted }),
        }
    }
}

} // verus!
