//! One listener: its configuration, and the states it moves through from
//! start-up to termination.

use vstd::prelude::*;

verus! {

/// The configuration of one listener. It is fixed once made.
#[derive(Debug, PartialEq, Eq)]
pub struct ServerConfig {
    bind_address: String,
    not_found_redirect_path: Option<String>,
}

/// A listener's configuration as plain values: the address it binds to, and
/// the path it redirects to when a key is missing, if any.
pub struct ServerConfigView {
    pub bind_address: Seq<char>,
    pub not_found_redirect_path: Option<Seq<char>>,
}

impl View for ServerConfig {
    type V = ServerConfigView;

    closed spec fn view(&self) -> ServerConfigView {
        ServerConfigView {
            bind_address: self.bind_address@,
            not_found_redirect_path: self.not_found_redirect_path.deep_view(),
        }
    }
}

impl ServerConfig {
    /// A configuration with the given bind address and redirect path.
    pub fn new(bind_address: String, not_found_redirect_path: Option<String>) -> (config: Self)
        ensures
            config@.bind_address == bind_address@,
            config@.not_found_redirect_path == not_found_redirect_path.deep_view(),
    {
        ServerConfig { bind_address, not_found_redirect_path }
    }

    /// The address that the listener binds to.
    pub fn bind_address(&self) -> (address: &String)
        ensures
            address@ == self@.bind_address,
    {
        &self.bind_address
    }

    /// The path that a request for a missing key is redirected to, if any.
    pub fn not_found_redirect_path(&self) -> (path: &Option<String>)
        ensures
            path.deep_view() == self@.not_found_redirect_path,
    {
        &self.not_found_redirect_path
    }
}

/// Where a listener stands in its life.
#[derive(Debug, PartialEq, Eq)]
pub enum ListenerState {
    /// Not bound yet.
    Starting,
    /// Bound, and answering requests.
    Serving,
    /// Terminated after a shutdown.
    Stopped,
    /// Terminated by an error that it could not recover from.
    Failed { error: String },
}

/// A listener's state as plain values.
pub enum ListenerStateView {
    Starting,
    Serving,
    Stopped,
    Failed { error: Seq<char> },
}

/// What can happen to a listener.
#[derive(Debug, PartialEq, Eq)]
pub enum ListenerEvent {
    /// The listener has bound its address.
    Bound,
    /// Binding, or accepting a connection, failed for good.
    Fatal { error: String },
    /// The listener was told to shut down.
    Shutdown,
}

/// An event as plain values.
pub enum ListenerEventView {
    Bound,
    Fatal { error: Seq<char> },
    Shutdown,
}

/// What the task that runs a listener does after an event.
#[derive(Clone, Copy, Debug, PartialEq, Eq, Structural)]
pub enum ListenerAction {
    /// Begin to accept connections.
    Serve,
    /// Go on as before.
    Continue,
    /// Stop: the listener has terminated.
    Halt,
}

impl View for ListenerState {
    type V = ListenerStateView;

    open spec fn view(&self) -> ListenerStateView {
        match self {
            ListenerState::Starting => ListenerStateView::Starting,
            ListenerState::Serving => ListenerStateView::Serving,
            ListenerState::Stopped => ListenerStateView::Stopped,
            ListenerState::Failed { error } => ListenerStateView::Failed { error: error@ },
        }
    }
}

impl View for ListenerEvent {
    type V = ListenerEventView;

    open spec fn view(&self) -> ListenerEventView {
        match self {
            ListenerEvent::Bound => ListenerEventView::Bound,
            ListenerEvent::Fatal { error } => ListenerEventView::Fatal { error: error@ },
            ListenerEvent::Shutdown => ListenerEventView::Shutdown,
        }
    }
}

impl ListenerStateView {
    /// A listener has terminated once it is stopped or has failed.
    pub open spec fn is_terminal(self) -> bool {
        self is Stopped || self is Failed
    }

    /// The state after an event. A listener that has terminated stays as it
    /// is. One that has not is serving once bound, stopped after a shutdown,
    /// and failed, with the error kept, after a fatal error.
    pub open spec fn after(self, event: ListenerEventView) -> ListenerStateView {
        if self.is_terminal() {
            self
        } else {
            match event {
                ListenerEventView::Bound => ListenerStateView::Serving,
                ListenerEventView::Fatal { error } => ListenerStateView::Failed { error },
                ListenerEventView::Shutdown => ListenerStateView::Stopped,
            }
        }
    }

    /// What the listener's task does after an event: it halts where the
    /// listener has terminated, begins to serve where the listener has just
    /// been bound, and goes on as before otherwise.
    pub open spec fn action_on(self, event: ListenerEventView) -> ListenerAction {
        if self.after(event).is_terminal() {
            ListenerAction::Halt
        } else if self is Starting {
            ListenerAction::Serve
        } else {
            ListenerAction::Continue
        }
    }

    /// How a listener ended: `Ok` after a clean stop, the error after a
    /// failure, and nothing while it has not terminated.
    pub open spec fn outcome(self) -> Option<Result<(), Seq<char>>> {
        match self {
            ListenerStateView::Stopped => Some(Ok(())),
            ListenerStateView::Failed { error } => Some(Err(error)),
            _ => None,
        }
    }
}

/// An outcome as plain values.
pub open spec fn outcome_view(outcome: Result<(), String>) -> Result<(), Seq<char>> {
    match outcome {
        Ok(_) => Ok(()),
        Err(error) => Err(error@),
    }
}

impl ListenerState {
    /// Whether the listener has terminated.
    pub fn is_terminal(&self) -> (terminal: bool)
        ensures
            terminal == self@.is_terminal(),
    {
        match self {
            ListenerState::Stopped => true,
            ListenerState::Failed { error: _ } => true,
            _ => false,
        }
    }

    /// Whether the listener is bound and answering requests.
    pub fn is_serving(&self) -> (serving: bool)
        ensures
            serving == (self@ is Serving),
    {
        match self {
            ListenerState::Serving => true,
            _ => false,
        }
    }

    /// The state that follows this one on `event`, and what the listener's
    /// task does next.
    pub fn on_event(&self, event: ListenerEvent) -> (next: (ListenerState, ListenerAction))
        ensures
            next.0@ == self@.after(event@),
            next.1 == self@.action_on(event@),
    {
        match self {
            ListenerState::Stopped => (ListenerState::Stopped, ListenerAction::Halt),
            ListenerState::Failed { error } => (
                ListenerState::Failed { error: error.clone() },
                ListenerAction::Halt,
            ),
            ListenerState::Starting => match event {
                ListenerEvent::Bound => (ListenerState::Serving, ListenerAction::Serve),
                ListenerEvent::Fatal { error } => (
                    ListenerState::Failed { error },
                    ListenerAction::Halt,
                ),
                ListenerEvent::Shutdown => (ListenerState::Stopped, ListenerAction::Halt),
            },
            ListenerState::Serving => match event {
                ListenerEvent::Bound => (ListenerState::Serving, ListenerAction::Continue),
                ListenerEvent::Fatal { error } => (
                    ListenerState::Failed { error },
                    ListenerAction::Halt,
                ),
                ListenerEvent::Shutdown => (ListenerState::Stopped, ListenerAction::Halt),
            },
        }
    }

    /// How the listener ended, once it has.
    pub fn outcome(&self) -> (outcome: Option<Result<(), String>>)
        ensures
            match outcome {
                Some(ended) => self@.outcome() == Some(outcome_view(ended)),
                None => self@.outcome() is None,
            },
    {
        match self {
            ListenerState::Stopped => Some(Ok(())),
            ListenerState::Failed { error } => Some(Err(error.clone())),
            _ => None,
        }
    }
}

} // verus!
