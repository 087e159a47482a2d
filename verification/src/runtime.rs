//! The gateway's runtime: a set of listeners that run side by side, each
//! with its own configuration and its own fate.

use vstd::prelude::*;
use crate::listener::outcome_view;
use crate::listener::ListenerAction;
use crate::listener::ListenerEvent;
use crate::listener::ListenerEventView;
use crate::listener::ListenerState;
use crate::listener::ListenerStateView;
use crate::listener::ServerConfig;
use crate::listener::ServerConfigView;
use crate::media_type::guessed_media_type;
use crate::outcome::FetchOutcome;
use crate::response::object_response_view;
use crate::response::s3_object_response;
use crate::response::HttpResponse;

verus! {

/// One listener of a runtime as plain values: its configuration and the
/// state it is in.
pub struct ListenerView {
    pub config: ServerConfigView,
    pub state: ListenerStateView,
}

/// The configurations handed to a runtime, as plain values.
pub open spec fn configs_view(configs: Seq<ServerConfig>) -> Seq<ServerConfigView> {
    Seq::new(configs.len(), |i: int| configs[i]@)
}

/// The outcomes that a runtime reports, as plain values.
pub open spec fn outcomes_view(outcomes: Seq<Result<(), String>>) -> Seq<Result<(), Seq<char>>> {
    Seq::new(outcomes.len(), |i: int| outcome_view(outcomes[i]))
}

/// The listeners of a runtime that has just been started: one for each
/// configuration, in the same order, none of them bound yet.
pub open spec fn started(configs: Seq<ServerConfigView>) -> Seq<ListenerView> {
    Seq::new(
        configs.len(),
        |i: int| ListenerView { config: configs[i], state: ListenerStateView::Starting },
    )
}

/// The listeners after an event has reached the listener at `index`: that
/// listener moves to its next state, and every other listener is as it was.
/// An index that names no listener changes nothing.
pub open spec fn delivered(
    listeners: Seq<ListenerView>,
    index: int,
    event: ListenerEventView,
) -> Seq<ListenerView> {
    if 0 <= index < listeners.len() {
        listeners.update(
            index,
            ListenerView {
                config: listeners[index].config,
                state: listeners[index].state.after(event),
            },
        )
    } else {
        listeners
    }
}

/// The listeners after a run of events, each addressed to the listener at
/// the index that comes with it, delivered one after another.
pub open spec fn run(
    listeners: Seq<ListenerView>,
    events: Seq<(int, ListenerEventView)>,
) -> Seq<ListenerView>
    decreases events.len(),
{
    if events.len() == 0 {
        listeners
    } else {
        delivered(run(listeners, events.drop_last()), events.last().0, events.last().1)
    }
}

/// The state that one listener reaches from `state` when, of a run of
/// events, it sees those addressed to `index` and no others.
pub open spec fn state_after(
    state: ListenerStateView,
    index: int,
    events: Seq<(int, ListenerEventView)>,
) -> ListenerStateView
    decreases events.len(),
{
    if events.len() == 0 {
        state
    } else {
        let before = state_after(state, index, events.drop_last());
        if events.last().0 == index {
            before.after(events.last().1)
        } else {
            before
        }
    }
}

/// Whether every listener has terminated.
pub open spec fn all_terminated(listeners: Seq<ListenerView>) -> bool {
    forall|i: int| 0 <= i < listeners.len() ==> (#[trigger] listeners[i]).state.is_terminal()
}

/// The overall result of a runtime whose listeners have all terminated: the
/// outcome of each listener, in the order of the listeners.
pub open spec fn overall_result(listeners: Seq<ListenerView>) -> Seq<Result<(), Seq<char>>> {
    Seq::new(listeners.len(), |i: int| listeners[i].state.outcome().unwrap())
}

/// A set of listeners that run independently of each other.
#[derive(Debug, PartialEq, Eq)]
pub struct GatewayRuntime {
    configs: Vec<ServerConfig>,
    states: Vec<ListenerState>,
}

impl View for GatewayRuntime {
    type V = Seq<ListenerView>;

    closed spec fn view(&self) -> Seq<ListenerView> {
        Seq::new(
            self.configs@.len(),
            |i: int| ListenerView { config: self.configs@[i]@, state: self.states@[i]@ },
        )
    }
}

impl GatewayRuntime {
    #[verifier::type_invariant]
    spec fn sound(&self) -> bool {
        self.configs@.len() == self.states@.len()
    }

    /// Starts one listener for each configuration. None is bound yet.
    pub fn start(configs: Vec<ServerConfig>) -> (runtime: GatewayRuntime)
        ensures
            runtime@ == started(configs_view(configs@)),
    {
        let mut states: Vec<ListenerState> = Vec::new();
        let mut i: usize = 0;
        while i < configs.len()
            invariant
                i <= configs.len(),
                states@.len() == i,
                forall|j: int| 0 <= j < i ==> states@[j]@ is Starting,
            decreases configs.len() - i,
        {
            states.push(ListenerState::Starting);
            i = i + 1;
        }
        let runtime = GatewayRuntime { configs, states };
        assert(runtime@ =~= started(configs_view(configs@)));
        runtime
    }

    /// The number of listeners.
    pub fn listener_count(&self) -> (count: usize)
        ensures
            count == self@.len(),
    {
        self.configs.len()
    }

    /// The configuration of the listener at `index`, if there is one.
    pub fn config(&self, index: usize) -> (config: Option<&ServerConfig>)
        ensures
            match config {
                Some(found) => index < self@.len() && found@ == self@[index as int].config,
                None => index >= self@.len(),
            },
    {
        if index < self.configs.len() {
            Some(&self.configs[index])
        } else {
            None
        }
    }

    /// The state of the listener at `index`, if there is one.
    pub fn state(&self, index: usize) -> (state: Option<&ListenerState>)
        ensures
            match state {
                Some(found) => index < self@.len() && found@ == self@[index as int].state,
                None => index >= self@.len(),
            },
    {
        proof {
            use_type_invariant(self);
        }
        if index < self.states.len() {
            Some(&self.states[index])
        } else {
            None
        }
    }

    /// Hands an event to the listener at `index` and says what that
    /// listener's task does next. No other listener is touched. An index
    /// that names no listener changes nothing and yields `None`.
    pub fn handle_event(&mut self, index: usize, event: ListenerEvent) -> (action: Option<
        ListenerAction,
    >)
        ensures
            final(self)@ == delivered(old(self)@, index as int, event@),
            match action {
                Some(next) => index < old(self)@.len() && next == old(self)@[index as int].state.action_on(
                    event@,
                ),
                None => index >= old(self)@.len(),
            },
    {
        proof {
            use_type_invariant(&*self);
        }
        if index < self.states.len() {
            let (state, action) = self.states[index].on_event(event);
            self.states[index] = state;
            assert(self@ =~= delivered(old(self)@, index as int, event@));
            Some(action)
        } else {
            None
        }
    }

    /// Whether every listener has terminated.
    pub fn all_terminated(&self) -> (done: bool)
        ensures
            done == all_terminated(self@),
    {
        proof {
            use_type_invariant(self);
        }
        let mut i: usize = 0;
        while i < self.states.len()
            invariant
                i <= self.states@.len(),
                self.configs@.len() == self.states@.len(),
                forall|j: int| 0 <= j < i ==> (#[trigger] self@[j]).state.is_terminal(),
            decreases self.states@.len() - i,
        {
            if !self.states[i].is_terminal() {
                assert(!self@[i as int].state.is_terminal());
                return false;
            }
            i = i + 1;
        }
        true
    }

    /// The overall result: the outcome of every listener, in the order of the
    /// listeners, once all of them have terminated, and `None` before that.
    pub fn overall_result(&self) -> (result: Option<Vec<Result<(), String>>>)
        ensures
            match result {
                Some(outcomes) => {
                    &&& all_terminated(self@)
                    &&& outcomes_view(outcomes@) == overall_result(self@)
                    &&& outcomes@.len() == self@.len()
                    &&& forall|i: int|
                        0 <= i < outcomes@.len() ==> self@[i].state.outcome() == Some(
                            outcome_view(#[trigger] outcomes@[i]),
                        )
                },
                None => !all_terminated(self@),
            },
    {
        proof {
            use_type_invariant(self);
        }
        let mut outcomes: Vec<Result<(), String>> = Vec::new();
        let mut i: usize = 0;
        while i < self.states.len()
            invariant
                i <= self.states@.len(),
                self.configs@.len() == self.states@.len(),
                outcomes@.len() == i,
                forall|j: int| 0 <= j < i ==> (#[trigger] self@[j]).state.is_terminal(),
                forall|j: int|
                    0 <= j < i ==> self@[j].state.outcome() == Some(
                        outcome_view(#[trigger] outcomes@[j]),
                    ),
            decreases self.states@.len() - i,
        {
            match self.states[i].outcome() {
                Some(outcome) => {
                    outcomes.push(outcome);
                },
                None => {
                    assert(!self@[i as int].state.is_terminal());
                    return None;
                },
            }
            i = i + 1;
        }
        assert(outcomes_view(outcomes@) =~= overall_result(self@));
        Some(outcomes)
    }

    /// Answers a request on the listener at `index`: builds the response for
    /// the outcome of fetching the object stored under `key`, with the
    /// redirect path of that listener's configuration. Only a listener that
    /// is serving answers; for any other, and for an index that names no
    /// listener, the result is `None`.
    pub fn respond(&self, index: usize, outcome: FetchOutcome, key: &str) -> (response: Option<
        HttpResponse,
    >)
        ensures
            match response {
                Some(built) => {
                    &&& index < self@.len()
                    &&& self@[index as int].state is Serving
                    &&& built@ == object_response_view(
                        outcome@,
                        guessed_media_type(key@),
                        self@[index as int].config.not_found_redirect_path,
                    )
                    &&& built@.well_formed()
                },
                None => index >= self@.len() || !(self@[index as int].state is Serving),
            },
    {
        proof {
            use_type_invariant(self);
        }
        if index < self.states.len() && self.states[index].is_serving() {
            let redirect_path = self.configs[index].not_found_redirect_path().clone();
            Some(s3_object_response(outcome, key, redirect_path))
        } else {
            None
        }
    }
}

} // verus!
