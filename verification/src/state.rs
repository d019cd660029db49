//! The fetch lifecycle state: at any time exactly one of idle, loading,
//! success or error. `Idle` is initial; there is no terminal state — every
//! state accepts a new fetch.

use vstd::prelude::*;
use crate::payload::{Payload, PayloadModel};

verus! {

/// The four-state lifecycle. `Loading` carries the epoch of the request it
/// is waiting for; `Success` the validated payload; `Error` a message that
/// names the failure class.
#[derive(Debug, Clone, PartialEq, Eq)]
pub enum FetchState {
    Idle,
    Loading(u64),
    Success(Payload),
    Error(String),
}

/// Mathematical model of a [`FetchState`].
pub enum FetchStateModel {
    Idle,
    Loading(u64),
    Success(PayloadModel),
    Error(Seq<char>),
}

impl View for FetchState {
    type V = FetchStateModel;

    open spec fn view(&self) -> FetchStateModel {
        match self {
            FetchState::Idle => FetchStateModel::Idle,
            FetchState::Loading(e) => FetchStateModel::Loading(*e),
            FetchState::Success(p) => FetchStateModel::Success(p@),
            FetchState::Error(m) => FetchStateModel::Error(m@),
        }
    }
}

} // verus!
