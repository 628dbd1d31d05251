//! What can go wrong between the host and its guest.
//!
//! Only a failure to bring up the very first generation stops the host. Every
//! later failure is absorbed: a frame is skipped, carried state is dropped, or
//! the previous generation simply stays in place.

use vstd::prelude::*;

verus! {

/// The artifact could not be read or compiled, or the capabilities the guest
/// imports could not be wired in.
#[derive(Clone, Debug, PartialEq, Eq)]
pub struct LoadError {
    pub message: String,
}

/// The artifact compiled but does not export the game contract.
#[derive(Clone, Debug, PartialEq, Eq)]
pub struct BindError {
    /// The name of the export that is missing or of the wrong type.
    pub export: String,
    pub message: String,
}

/// The guest's constructor failed or trapped.
#[derive(Clone, Debug, PartialEq, Eq)]
pub struct ConstructError {
    pub message: String,
}

/// The guest failed or trapped while running one frame.
#[derive(Clone, Debug, PartialEq, Eq)]
pub struct FrameError {
    pub message: String,
}

/// The guest failed or trapped while serializing its state.
#[derive(Clone, Debug, PartialEq, Eq)]
pub struct SaveError {
    pub message: String,
}

/// The guest refused a blob, or trapped while reading it.
#[derive(Clone, Debug, PartialEq, Eq)]
pub struct RestoreError {
    pub message: String,
}

/// Why no new generation came into being.
#[derive(Clone, Debug, PartialEq, Eq)]
pub enum LoadFailure {
    Load(LoadError),
    Bind(BindError),
    Construct(ConstructError),
}

impl LoadFailure {
    /// What an attempt to load comes to as a step of bringing up a
    /// generation: the value where there is one, and otherwise the
    /// `LoadError` as a failure to load.
    pub fn loading<T>(outcome: Result<T, LoadError>) -> (step: Result<T, LoadFailure>)
        ensures
            match outcome {
                Ok(value) => step == Ok::<T, LoadFailure>(value),
                Err(error) => step == Err::<T, LoadFailure>(LoadFailure::Load(error)),
            },
    {
        match outcome {
            Ok(value) => Ok(value),
            Err(error) => Err(LoadFailure::Load(error)),
        }
    }

    /// What a run of the constructor comes to as a step of bringing up a
    /// generation: the value where there is one, and otherwise the
    /// `ConstructError` as a failure to construct.
    pub fn constructing<T>(outcome: Result<T, ConstructError>) -> (step: Result<T, LoadFailure>)
        ensures
            match outcome {
                Ok(value) => step == Ok::<T, LoadFailure>(value),
                Err(error) => step == Err::<T, LoadFailure>(LoadFailure::Construct(error)),
            },
    {
        match outcome {
            Ok(value) => Ok(value),
            Err(error) => Err(LoadFailure::Construct(error)),
        }
    }

    /// The text of the underlying error.
    pub fn message(&self) -> (text: &String)
        ensures
            *text == match *self {
                LoadFailure::Load(e) => e.message,
                LoadFailure::Bind(e) => e.message,
                LoadFailure::Construct(e) => e.message,
            },
    {
        match self {
            LoadFailure::Load(e) => &e.message,
            LoadFailure::Bind(e) => &e.message,
            LoadFailure::Construct(e) => &e.message,
        }
    }
}

} // verus!
