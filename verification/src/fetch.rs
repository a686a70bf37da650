//! The protocol of one text fetch over HTTP.
//!
//! A fetch is a single GET under a fixed, browser-like client identity. The
//! network work is the caller's: it performs the action it is handed, reports
//! what happened as an event, and is told the next action, until the action
//! is `Finish`.

use vstd::prelude::*;

verus! {

/// The client identity that every request carries.
pub const USER_AGENT: &'static str =
    "Mozilla/5.0 (Windows NT 10.0; Win64; x64) AppleWebKit/537.36 (KHTML, like Gecko) Chrome/120.0.0.0 Safari/537.36";

/// Why a fetch returned no text. Each kind carries the failure's own
/// description.
#[derive(Debug, PartialEq, Eq)]
pub enum FetchError {
    /// The client could not be set up or the request could not be sent.
    Transport(String),
    /// The response body could not be read as text.
    Decode(String),
}

/// Where a fetch stands.
#[derive(Debug, PartialEq, Eq)]
pub enum FetchState {
    /// The client is being set up; the request will go to `url`.
    Building { url: String },
    /// The request is on its way.
    Sending,
    /// The response has arrived and its body is being read.
    Reading,
    /// The fetch has returned.
    Finished,
}

/// What the caller reports after it has performed an action.
#[derive(Debug, PartialEq, Eq)]
pub enum FetchEvent {
    /// The client is ready.
    ClientBuilt,
    /// The client could not be set up.
    ClientFailed { detail: String },
    /// A response arrived, with this HTTP status.
    ResponseArrived { status: u16 },
    /// The request could not be sent, or no response came.
    SendFailed { detail: String },
    /// The body was read, and this is its text.
    BodyRead { text: String },
    /// The body could not be read as text.
    BodyFailed { detail: String },
}

/// What the caller is to do next.
#[derive(Debug, PartialEq, Eq)]
pub enum FetchAction {
    /// Set up a client that identifies itself as `user_agent`.
    BuildClient { user_agent: String },
    /// Send one GET request to `url`.
    SendGet { url: String },
    /// Read the whole response body as text.
    ReadBody,
    /// Return `result`; the fetch is over.
    Finish { result: Result<String, FetchError> },
}

impl FetchError {
    /// The description of the failure, as the error was given it.
    pub open spec fn detail(self) -> Seq<char> {
        match self {
            FetchError::Transport(detail) => detail@,
            FetchError::Decode(detail) => detail@,
        }
    }

    /// Gives up the kind and keeps the failure's description.
    pub fn into_message(self) -> (message: String)
        ensures
            message@ == self.detail(),
    {
        match self {
            FetchError::Transport(detail) => detail,
            FetchError::Decode(detail) => detail,
        }
    }
}

/// How far a fetch has come: each accepted event moves it further.
pub open spec fn progress(state: FetchState) -> nat {
    match state {
        FetchState::Building { .. } => 0,
        FetchState::Sending => 1,
        FetchState::Reading => 2,
        FetchState::Finished => 3,
    }
}

/// The state and action that follow `event` in `state`, or `None` where the
/// state does not wait for such an event.
pub open spec fn next(state: FetchState, event: FetchEvent) -> Option<(FetchState, FetchAction)> {
    match (state, event) {
        (FetchState::Building { url }, FetchEvent::ClientBuilt) => Some(
            (FetchState::Sending, FetchAction::SendGet { url }),
        ),
        (FetchState::Building { .. }, FetchEvent::ClientFailed { detail }) => Some(
            (
                FetchState::Finished,
                FetchAction::Finish { result: Err(FetchError::Transport(detail)) },
            ),
        ),
        (FetchState::Sending, FetchEvent::ResponseArrived { .. }) => Some(
            (FetchState::Reading, FetchAction::ReadBody),
        ),
        (FetchState::Sending, FetchEvent::SendFailed { detail }) => Some(
            (
                FetchState::Finished,
                FetchAction::Finish { result: Err(FetchError::Transport(detail)) },
            ),
        ),
        (FetchState::Reading, FetchEvent::BodyRead { text }) => Some(
            (FetchState::Finished, FetchAction::Finish { result: Ok(text) }),
        ),
        (FetchState::Reading, FetchEvent::BodyFailed { detail }) => Some(
            (FetchState::Finished, FetchAction::Finish { result: Err(FetchError::Decode(detail)) }),
        ),
        _ => None,
    }
}

/// A fetch that stands in `state` returns `result` once the caller has
/// reported exactly `events`, in turn, and not before.
pub open spec fn finishes_with(
    state: FetchState,
    events: Seq<FetchEvent>,
    result: Result<String, FetchError>,
) -> bool
    decreases events.len(),
{
    events.len() > 0 && match next(state, events.first()) {
        Some((following, action)) => if events.len() == 1 {
            action == (FetchAction::Finish { result })
        } else {
            !(action is Finish) && finishes_with(following, events.drop_first(), result)
        },
        None => false,
    }
}

/// Opens a fetch of `url`: the first action is to set up the client under
/// the fixed identity.
pub fn begin(url: String) -> (first: (FetchState, FetchAction))
    ensures
        first.0 == (FetchState::Building { url }),
        first.1 matches FetchAction::BuildClient { user_agent } && user_agent@ == USER_AGENT@,
{
    (FetchState::Building { url }, FetchAction::BuildClient { user_agent: USER_AGENT.to_owned() })
}

/// Takes the report of the last action and decides the next one.
///
/// A client that was built is followed by the one GET to the URL the fetch
/// was opened with; a response, whatever its status, by reading the body; the
/// body by returning it. Each failure ends the fetch with the failure's
/// description: `Transport` before a response arrived, `Decode` after. An
/// event that the state does not wait for is refused with `None`.
pub fn advance(state: FetchState, event: FetchEvent) -> (step: Option<(FetchState, FetchAction)>)
    ensures
        step == next(state, event),
{
    match state {
        FetchState::Building { url } => match event {
            FetchEvent::ClientBuilt => Some((FetchState::Sending, FetchAction::SendGet { url })),
            FetchEvent::ClientFailed { detail } => Some(
                (
                    FetchState::Finished,
                    FetchAction::Finish { result: Err(FetchError::Transport(detail)) },
                ),
            ),
            _ => None,
        },
        FetchState::Sending => match event {
            FetchEvent::ResponseArrived { status: _ } => Some(
                (FetchState::Reading, FetchAction::ReadBody),
            ),
            FetchEvent::SendFailed { detail } => Some(
                (
                    FetchState::Finished,
                    FetchAction::Finish { result: Err(FetchError::Transport(detail)) },
                ),
            ),
            _ => None,
        },
        FetchState::Reading => match event {
            FetchEvent::BodyRead { text } => Some(
                (FetchState::Finished, FetchAction::Finish { result: Ok(text) }),
            ),
            FetchEvent::BodyFailed { detail } => Some(
                (
                    FetchState::Finished,
                    FetchAction::Finish { result: Err(FetchError::Decode(detail)) },
                ),
            ),
            _ => None,
        },
        FetchState::Finished => None,
    }
}

/// Every accepted event moves the fetch one stage on, so a fetch takes at
/// most three events and none of its actions is ever repeated.
pub proof fn lemma_advance_moves_on(state: FetchState, event: FetchEvent)
    ensures
        next(state, event) matches Some(step) ==> progress(state) < progress(step.0),
        next(state, event) matches Some(step) ==> (step.1 is Finish <==> step.0 is Finished),
{
}

/// What a fetch returns, by what happened on the network. It returns the
/// body exactly when the client was built, a response arrived and its body
/// was read as text; `Transport` with the failure's description exactly when
/// the client could not be built or the request could not be sent; `Decode`
/// with the failure's description exactly when the body of a response could
/// not be read.
pub proof fn lemma_fetch_outcomes(
    url: String,
    events: Seq<FetchEvent>,
    result: Result<String, FetchError>,
)
    ensures
        finishes_with(FetchState::Building { url }, events, result) <==> match result {
            Ok(text) => {
                &&& events.len() == 3
                &&& events[0] == FetchEvent::ClientBuilt
                &&& events[1] is ResponseArrived
                &&& events[2] == (FetchEvent::BodyRead { text })
            },
            Err(FetchError::Transport(detail)) => {
                ||| events.len() == 1 && events[0] == (FetchEvent::ClientFailed { detail })
                ||| events.len() == 2 && events[0] == FetchEvent::ClientBuilt && events[1] == (
                FetchEvent::SendFailed { detail })
            },
            Err(FetchError::Decode(detail)) => {
                &&& events.len() == 3
                &&& events[0] == FetchEvent::ClientBuilt
                &&& events[1] is ResponseArrived
                &&& events[2] == (FetchEvent::BodyFailed { detail })
            },
        },
{
    reveal_with_fuel(finishes_with, 4);
    if events.len() >= 2 {
        let second = events.drop_first();
        assert(second.first() == events[1]);
        if events.len() >= 3 {
            let third = second.drop_first();
            assert(third.first() == events[2]);
        }
    }
}

/// The status of a response has no part in what follows it: the body is read
/// in every case.
pub proof fn lemma_status_is_ignored(status: u16)
    ensures
        next(FetchState::Sending, FetchEvent::ResponseArrived { status }) == Some(
            (FetchState::Reading, FetchAction::ReadBody),
        ),
{
}

} // verus!
