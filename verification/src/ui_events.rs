//! The events that menu selections produce, and what handling them asks of
//! the application.

use crate::settings::{PersistedSetting, SettingKey};
use crate::GameState;
use vstd::prelude::*;

verus! {

/// A decision that the user completed in the menu.
#[derive(Debug, Clone, Copy, PartialEq, Eq, Hash, Structural)]
pub enum UiEvent {
    QuitGame,
    NewGame,
    LoadGame,
    /// The first toggle changed; the payload is its new value.
    Boolean1Changed(bool),
    /// The second toggle changed; the payload is its new value.
    Boolean2Changed(bool),
}

/// What the handler asks the application to do for one event.
#[derive(Debug, Clone, Copy, PartialEq, Eq, Hash, Structural)]
pub enum Request {
    /// End the process.
    Exit,
    /// Switch the application to the given mode.
    Transition(GameState),
    /// Write the setting to the store.
    Persist(PersistedSetting),
}

/// What the handler reports when a request could not be carried out. The
/// session goes on either way.
#[derive(Debug, Clone, Copy, PartialEq, Eq, Hash, Structural)]
pub enum Diagnostic {
    /// The write failed. The menu keeps the value; the store does not have it.
    SettingNotSaved(SettingKey),
    /// The switch to the given mode failed. The application stays where it is.
    TransitionRefused(GameState),
}

impl UiEvent {
    /// The request that handling this event makes.
    pub open spec fn request(self) -> Request {
        match self {
            UiEvent::QuitGame => Request::Exit,
            UiEvent::NewGame => Request::Transition(GameState::Playing),
            UiEvent::LoadGame => Request::Transition(GameState::Playing),
            UiEvent::Boolean1Changed(value) => Request::Persist(PersistedSetting::Boolean1(value)),
            UiEvent::Boolean2Changed(value) => Request::Persist(PersistedSetting::Boolean2(value)),
        }
    }

    /// Handles one event: quitting asks for the exit, starting or loading a
    /// game asks for the switch to playing, a changed toggle asks for its new
    /// value to be written under its key.
    pub fn handle(&self) -> (request: Request)
        ensures
            request == self.request(),
            request is Exit <==> self is QuitGame,
    {
        match self {
            UiEvent::QuitGame => Request::Exit,
            UiEvent::NewGame => Request::Transition(GameState::Playing),
            UiEvent::LoadGame => Request::Transition(GameState::Playing),
            UiEvent::Boolean1Changed(value) => Request::Persist(PersistedSetting::Boolean1(*value)),
            UiEvent::Boolean2Changed(value) => Request::Persist(PersistedSetting::Boolean2(*value)),
        }
    }
}

/// Whether `requests` is what handling the queue `events` asks for: one
/// request for each event, in the order of the queue, up to and including
/// the first request to quit. Events queued behind that are not handled.
pub open spec fn handled(events: Seq<UiEvent>, requests: Seq<Request>) -> bool {
    &&& requests.len() <= events.len()
    &&& forall|i: int| 0 <= i < requests.len() ==> requests[i] == events[i].request()
    &&& forall|i: int| 0 <= i < requests.len() - 1 ==> events[i] !is QuitGame
    &&& requests.len() < events.len() ==> requests.len() > 0 && events[requests.len() - 1]
        is QuitGame
}

/// Drains the queue of pending events: handles them in the order in which
/// they were emitted, each once, up to and including the first request to
/// quit, and leaves the queue empty. What was queued behind a request to
/// quit is dropped unhandled.
pub fn event_reader(events: &mut Vec<UiEvent>) -> (requests: Vec<Request>)
    ensures
        handled(old(events)@, requests@),
        final(events)@.len() == 0,
        forall|i: int| 0 <= i < requests.len() - 1 ==> requests[i] !is Exit,
{
    let mut requests: Vec<Request> = Vec::new();
    let mut index: usize = 0;
    let mut quit = false;
    while index < events.len() && !quit
        invariant
            events@ == old(events)@,
            index <= events.len(),
            requests.len() == index,
            forall|i: int| 0 <= i < index ==> requests[i] == events[i].request(),
            forall|i: int| 0 <= i < index - 1 ==> events[i] !is QuitGame,
            quit <==> index > 0 && events[index - 1] is QuitGame,
        decreases events.len() - index,
    {
        let request = events[index].handle();
        quit = matches!(request, Request::Exit);
        requests.push(request);
        index += 1;
    }
    events.clear();
    requests
}

/// A queue is handled in one way only.
pub proof fn lemma_handled_unique(events: Seq<UiEvent>, first: Seq<Request>, second: Seq<Request>)
    requires
        handled(events, first),
        handled(events, second),
    ensures
        first == second,
{
    if first.len() < second.len() {
        assert(events[first.len() - 1] is QuitGame);
    }
    if second.len() < first.len() {
        assert(events[second.len() - 1] is QuitGame);
    }
    assert(first =~= second);
}

/// Handling a queue asks for the exit at most once, and for nothing after
/// it.
pub proof fn lemma_exit_is_last(events: Seq<UiEvent>, requests: Seq<Request>, at: int)
    requires
        handled(events, requests),
        0 <= at < requests.len(),
        requests[at] is Exit,
    ensures
        at == requests.len() - 1,
        forall|i: int| 0 <= i < requests.len() && requests[i] is Exit ==> i == at,
{
    assert(events[at] is QuitGame);
    assert forall|i: int| 0 <= i < requests.len() && requests[i] is Exit implies i == at by {
        assert(events[i] is QuitGame);
    }
}

/// A queue without a request to quit is handled to its end.
pub proof fn lemma_handled_to_the_end(events: Seq<UiEvent>, requests: Seq<Request>)
    requires
        handled(events, requests),
        forall|i: int| 0 <= i < events.len() ==> events[i] !is QuitGame,
    ensures
        requests.len() == events.len(),
{
}

/// The mode of the application after a request was attempted, and the
/// diagnostic to report where it failed. A failed switch leaves the mode as
/// it was. A failed write changes nothing here: the menu keeps its value.
pub open spec fn outcome(current: GameState, request: Request, succeeded: bool) -> (
    GameState,
    Option<Diagnostic>,
) {
    match request {
        Request::Exit => (current, None),
        Request::Transition(target) => if succeeded {
            (target, None)
        } else {
            (current, Some(Diagnostic::TransitionRefused(target)))
        },
        Request::Persist(setting) => if succeeded {
            (current, None)
        } else {
            (current, Some(Diagnostic::SettingNotSaved(setting.key())))
        },
    }
}

/// Concludes a request that the application attempted: returns the mode
/// that the application is in once the request has taken effect and, where
/// the attempt failed, the diagnostic to report.
pub fn conclude(current: GameState, request: &Request, succeeded: bool) -> (after: (
    GameState,
    Option<Diagnostic>,
))
    ensures
        after == outcome(current, *request, succeeded),
        succeeded ==> after.1 is None,
        !succeeded && request !is Exit ==> after.0 == current && after.1 is Some,
{
    match request {
        Request::Exit => (current, None),
        Request::Transition(target) => {
            if succeeded {
                (*target, None)
            } else {
                (current, Some(Diagnostic::TransitionRefused(*target)))
            }
        },
        Request::Persist(setting) => {
            if succeeded {
                (current, None)
            } else {
                (current, Some(Diagnostic::SettingNotSaved(setting.key())))
            }
        },
    }
}

} // verus!
