//! The fetch controller: owns the epoch counter and the lifecycle state.
//! Starting a fetch allocates a fresh epoch and records `Loading`; a
//! completion is applied only when it carries the current epoch and the
//! machine is waiting for it, so a superseded request's late result can
//! never overwrite fresher data. Issuing the HTTP request itself is the
//! caller's side effect, performed with the epoch this controller hands
//! out.

use vstd::prelude::*;
use crate::json::{json_text_spec, parse_json, JsonModel, JsonValue};
use crate::state::{FetchState, FetchStateModel};
use crate::validate::{validate, validate_spec};

verus! {

/// What the transport layer reports when a request completes: a failure
/// (connection error, timeout, non-success status) or the raw response
/// body.
#[derive(Debug, Clone, PartialEq, Eq)]
pub enum TransportResult {
    Failure,
    Body(String),
}

/// A completion after transport-side decoding: the transport failed, the
/// body was not parseable JSON, or a decoded document ready for
/// validation.
#[derive(Debug, PartialEq, Eq)]
pub enum ResponseOutcome {
    TransportFailed,
    Malformed,
    Decoded(JsonValue),
}

/// Mathematical model of a [`ResponseOutcome`].
pub enum OutcomeModel {
    TransportFailed,
    Malformed,
    Decoded(JsonModel),
}

impl View for ResponseOutcome {
    type V = OutcomeModel;

    open spec fn view(&self) -> OutcomeModel {
        match self {
            ResponseOutcome::TransportFailed => OutcomeModel::TransportFailed,
            ResponseOutcome::Malformed => OutcomeModel::Malformed,
            ResponseOutcome::Decoded(v) => OutcomeModel::Decoded(v@),
        }
    }
}

/// The outcome a completed transport decodes to: a failure stays a
/// failure, and a body becomes the document its text denotes under the
/// accepted grammar ([`json_text_spec`]), or a malformed outcome when it
/// denotes none.
pub open spec fn decode_spec(result: TransportResult) -> OutcomeModel {
    match result {
        TransportResult::Failure => OutcomeModel::TransportFailed,
        TransportResult::Body(b) => match json_text_spec(b@) {
            Option::Some(m) => OutcomeModel::Decoded(m),
            Option::None => OutcomeModel::Malformed,
        },
    }
}

/// The message shown for a failed transport.
pub open spec fn network_failure_msg() -> Seq<char> {
    "network failure"@
}

/// The message shown for a body that does not parse or validate.
pub open spec fn invalid_response_msg() -> Seq<char> {
    "invalid response"@
}

/// The transition table. A completion with a stale epoch changes nothing;
/// neither does one delivered while the machine is not waiting (possible
/// only for an epoch that no start ever issued, since starting records
/// `Loading`). A completion accepted from `Loading` resolves to `Success`
/// exactly when its document validates, and otherwise to the matching
/// error state.
pub open spec fn step(
    current: u64,
    state: FetchStateModel,
    resp_epoch: u64,
    outcome: OutcomeModel,
) -> FetchStateModel {
    if resp_epoch != current {
        state
    } else {
        match state {
            FetchStateModel::Loading(_) => match outcome {
                OutcomeModel::TransportFailed => FetchStateModel::Error(network_failure_msg()),
                OutcomeModel::Malformed => FetchStateModel::Error(invalid_response_msg()),
                OutcomeModel::Decoded(m) => match validate_spec(m) {
                    Result::Ok(p) => FetchStateModel::Success(p),
                    Result::Err(_) => FetchStateModel::Error(invalid_response_msg()),
                },
            },
            _ => state,
        }
    }
}

/// Owns the epoch counter and the current state exclusively; nothing else
/// mutates either.
#[derive(Debug)]
pub struct FetchController {
    pub epoch: u64,
    pub state: FetchState,
}

impl FetchController {
    /// At most one `Loading` is live: when the machine waits, it waits for
    /// the current epoch.
    pub open spec fn wf(&self) -> bool {
        self.state matches FetchState::Loading(e) ==> e == self.epoch
    }

    /// A fresh controller: no request has ever been issued.
    pub fn new() -> (c: FetchController)
        ensures
            c.epoch == 0,
            c.state is Idle,
            c.wf(),
    {
        FetchController { epoch: 0, state: FetchState::Idle }
    }

    /// Read-only snapshot of the current state; never blocks.
    pub fn current_state(&self) -> (s: &FetchState)
        ensures
            *s == self.state,
    {
        &self.state
    }

    /// The epoch of the most recently issued request; zero before the
    /// first.
    pub fn current_epoch(&self) -> (e: u64)
        ensures
            e == self.epoch,
    {
        self.epoch
    }

    /// Starts a fetch: allocates the next epoch, records it as current and
    /// moves to `Loading`. Legal in every state; calling it while a fetch
    /// is outstanding is a retry, and the old request's eventual result
    /// will be ignored by the epoch check. Returns the new epoch, which the
    /// caller attaches to the request it issues.
    pub fn start_fetch(&mut self) -> (e: u64)
        requires
            old(self).epoch < u64::MAX,
        ensures
            final(self).epoch == old(self).epoch + 1,
            e == final(self).epoch,
            final(self).state == FetchState::Loading(e),
            final(self).wf(),
    {
        self.epoch = self.epoch + 1;
        self.state = FetchState::Loading(self.epoch);
        self.epoch
    }

    /// Applies a decoded completion against the current epoch: a stale
    /// epoch is discarded silently, a current one resolves the state
    /// exactly as [`step`] says.
    pub fn apply_response(&mut self, epoch: u64, outcome: ResponseOutcome)
        ensures
            final(self).epoch == old(self).epoch,
            final(self).state@ == step(old(self).epoch, old(self).state@, epoch, outcome@),
            epoch != old(self).epoch ==> final(self).state == old(self).state,
            old(self).wf() ==> final(self).wf(),
    {
        if epoch != self.epoch {
            return;
        }
        let live = match &self.state {
            FetchState::Loading(_) => true,
            _ => false,
        };
        if !live {
            return;
        }
        match outcome {
            ResponseOutcome::TransportFailed => {
                self.state = FetchState::Error("network failure".to_owned());
            },
            ResponseOutcome::Malformed => {
                self.state = FetchState::Error("invalid response".to_owned());
            },
            ResponseOutcome::Decoded(v) => {
                match validate(&v) {
                    Ok(p) => {
                        self.state = FetchState::Success(p);
                    },
                    Err(_) => {
                        self.state = FetchState::Error("invalid response".to_owned());
                    },
                }
            },
        }
    }

    /// The continuation entry point, invoked once per issued request when
    /// the transport completes: decodes the raw result, then applies it.
    /// A stale epoch never changes the state; a current one resolves
    /// exactly as [`step`] says for the outcome the body's grammar
    /// determines ([`decode_spec`]).
    pub fn on_response(&mut self, epoch: u64, result: TransportResult)
        ensures
            final(self).epoch == old(self).epoch,
            epoch != old(self).epoch ==> final(self).state == old(self).state,
            final(self).state@ == step(
                old(self).epoch,
                old(self).state@,
                epoch,
                decode_spec(result),
            ),
            old(self).wf() ==> final(self).wf(),
    {
        let outcome = match result {
            TransportResult::Failure => ResponseOutcome::TransportFailed,
            TransportResult::Body(b) => match parse_json(b.as_str()) {
                Some(v) => ResponseOutcome::Decoded(v),
                None => ResponseOutcome::Malformed,
            },
        };
        self.apply_response(epoch, outcome);
    }
}

/// A response delivered with an epoch other than the current one never
/// changes the state, whatever it carries.
pub proof fn lemma_stale_response_preserves_state(
    current: u64,
    state: FetchStateModel,
    resp_epoch: u64,
    outcome: OutcomeModel,
)
    requires
        resp_epoch != current,
    ensures
        step(current, state, resp_epoch, outcome) == state,
{
}

/// After a fetch starts, the machine stays in `Loading` until a completion
/// carrying that very epoch arrives: every other completion leaves it
/// loading the current epoch.
pub proof fn lemma_loading_until_matching_response(
    c: FetchController,
    resp_epoch: u64,
    outcome: OutcomeModel,
)
    requires
        c.wf(),
        c.state is Loading,
        resp_epoch != c.epoch,
    ensures
        step(c.epoch, c.state@, resp_epoch, outcome) == c.state@,
        step(c.epoch, c.state@, resp_epoch, outcome) matches FetchStateModel::Loading(e) && e
            == c.epoch,
{
}

/// Completions are reconciled against epochs, not arrival order: around a
/// completion of the current epoch, a superseded request's result may land
/// before or after it — the final state is the current completion's alone.
pub proof fn lemma_latest_epoch_wins(
    current: u64,
    state: FetchStateModel,
    stale_epoch: u64,
    stale_outcome: OutcomeModel,
    fresh_outcome: OutcomeModel,
)
    requires
        stale_epoch != current,
    ensures
        step(current, step(current, state, current, fresh_outcome), stale_epoch, stale_outcome)
            == step(current, state, current, fresh_outcome),
        step(current, step(current, state, stale_epoch, stale_outcome), current, fresh_outcome)
            == step(current, state, current, fresh_outcome),
{
}

} // verus!
