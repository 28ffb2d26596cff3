//! The control loop's decisions: what one event does to the session.
//!
//! The loop that waits for events and redraws is run by the caller. It hands each
//! event to [`ControlLoop::step`], sends the request that comes back, and draws the
//! model again while the session is running.
use crate::model::{path_of, AppModel, ModelState, NaviEvent};
use crate::parser::{ParseRequest, ParseResult, ParseResultView};
use vstd::prelude::*;

verus! {

/// Whether the session goes on.
#[derive(Clone, Copy, Debug, PartialEq, Eq, Structural)]
pub enum LoopState {
    Running,
    Exiting,
}

/// One event that the loop waits for.
#[derive(Debug)]
pub enum LoopEvent {
    /// The exit signal was raised.
    Exit,
    /// A navigation event arrived.
    Navigate(NaviEvent),
    /// The result for the file at `file_path` arrived.
    Parsed { file_path: String, result: ParseResult },
    /// A channel was closed by its other end.
    Closed,
}

/// The mathematical content of a [`LoopEvent`].
pub enum LoopEventView {
    Exit,
    Navigate(NaviEvent),
    Parsed(Seq<char>, ParseResultView),
    Closed,
}

impl View for LoopEvent {
    type V = LoopEventView;

    open spec fn view(&self) -> LoopEventView {
        match self {
            LoopEvent::Exit => LoopEventView::Exit,
            LoopEvent::Navigate(event) => LoopEventView::Navigate(*event),
            LoopEvent::Parsed { file_path, result } => LoopEventView::Parsed(file_path@, result@),
            LoopEvent::Closed => LoopEventView::Closed,
        }
    }
}

/// The session as a mathematical value.
pub struct SessionState {
    pub model: ModelState,
    pub state: LoopState,
}

impl SessionState {
    /// A running session over `model`.
    pub open spec fn start(model: ModelState) -> SessionState {
        SessionState { model, state: LoopState::Running }
    }

    /// The session after one event. The exit signal and a closed channel end it;
    /// once it has ended, no event changes it.
    pub open spec fn step(self, event: LoopEventView) -> SessionState {
        match self.state {
            LoopState::Exiting => self,
            LoopState::Running => match event {
                LoopEventView::Exit | LoopEventView::Closed => SessionState {
                    state: LoopState::Exiting,
                    ..self
                },
                LoopEventView::Navigate(event) => SessionState {
                    model: self.model.navigate(event),
                    ..self
                },
                LoopEventView::Parsed(file_path, result) => SessionState {
                    model: self.model.deliver(file_path, result),
                    ..self
                },
            },
        }
    }

    /// The path whose content one event makes the session ask for.
    pub open spec fn requested(self, event: LoopEventView) -> Option<Seq<char>> {
        match (self.state, event) {
            (LoopState::Running, LoopEventView::Navigate(event)) => self.model.requested_path(
                event,
            ),
            _ => None,
        }
    }
}

/// A session: the model, and whether the loop goes on.
#[derive(Debug)]
pub struct ControlLoop {
    model: AppModel,
    state: LoopState,
}

impl View for ControlLoop {
    type V = SessionState;

    closed spec fn view(&self) -> SessionState {
        SessionState { model: self.model@, state: self.state }
    }
}

impl ControlLoop {
    /// A running session over `model`.
    pub fn new(model: AppModel) -> (session: ControlLoop)
        ensures
            session@ == SessionState::start(model@),
    {
        ControlLoop { model, state: LoopState::Running }
    }

    /// The model, for drawing.
    pub fn model(&self) -> (model: &AppModel)
        ensures
            model@ == self@.model,
    {
        &self.model
    }

    /// Whether the loop goes on.
    pub fn state(&self) -> (state: LoopState)
        ensures
            state == self@.state,
    {
        self.state
    }

    /// Applies one event. Returns the request to send, if the event calls for one.
    pub fn step(&mut self, event: LoopEvent) -> (request: Option<ParseRequest>)
        ensures
            final(self)@ == old(self)@.step(event@),
            path_of(request) == old(self)@.requested(event@),
    {
        match self.state {
            LoopState::Exiting => None,
            LoopState::Running => match event {
                LoopEvent::Exit => {
                    self.state = LoopState::Exiting;
                    None
                },
                LoopEvent::Closed => {
                    self.state = LoopState::Exiting;
                    None
                },
                LoopEvent::Navigate(event) => self.model.handle_navi_event(event),
                LoopEvent::Parsed { file_path, result } => {
                    self.model.handle_parse_result(file_path.as_str(), result);
                    None
                },
            },
        }
    }
}

/// The exit signal ends a running session without touching the model, and a session
/// that has ended stays as it is whatever arrives.
pub proof fn lemma_exit_is_final(session: SessionState, event: LoopEventView)
    ensures
        session.step(LoopEventView::Exit).state == LoopState::Exiting,
        session.step(LoopEventView::Exit).model == session.model,
        session.step(LoopEventView::Closed).state == LoopState::Exiting,
        session.state == LoopState::Exiting ==> session.step(event) == session
            && session.requested(event) is None,
{
}

/// A running session stays running on a navigation event and on a result, and does
/// to the model what the model's own handlers do.
pub proof fn lemma_running_session_follows_model(session: SessionState, event: LoopEventView)
    requires
        session.state == LoopState::Running,
    ensures
        event matches LoopEventView::Navigate(e) ==> session.step(event) == SessionState::start(
            session.model.navigate(e),
        ),
        event matches LoopEventView::Parsed(p, r) ==> session.step(event) == SessionState::start(
            session.model.deliver(p, r),
        ),
{
}

} // verus!
