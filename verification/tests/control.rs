use oxc_parser_cli::control::{ControlLoop, LoopEvent, LoopState};
use oxc_parser_cli::model::{AppModel, ContentState, FocusRegion, NaviEvent};
use oxc_parser_cli::parser::{ParseRequest, ParseResult};

fn session(names: &[&str]) -> ControlLoop {
    ControlLoop::new(AppModel::new(names.iter().map(|name| name.to_string()).collect()))
}

fn parsed(path: &str, text: &str) -> LoopEvent {
    LoopEvent::Parsed { file_path: path.to_string(), result: ParseResult::Success(text.to_string()) }
}

#[test]
fn session_starts_running() {
    let session = session(&["a.ts"]);
    assert_eq!(session.state(), LoopState::Running);
    assert_eq!(session.model().selected(), None);
}

#[test]
fn navigation_reaches_the_model() {
    let mut session = session(&["a.ts", "b.ts"]);
    let request = session.step(LoopEvent::Navigate(NaviEvent::Down));
    assert_eq!(request, Some(ParseRequest::ParseFile { file_path: "a.ts".to_string() }));
    assert_eq!(session.model().selected(), Some(0));
    assert_eq!(session.state(), LoopState::Running);
    assert_eq!(session.step(LoopEvent::Navigate(NaviEvent::Tab)), None);
    assert_eq!(session.model().focus(), FocusRegion::Content);
}

#[test]
fn results_reach_the_model() {
    let mut session = session(&["a.ts", "b.ts"]);
    session.step(LoopEvent::Navigate(NaviEvent::Down));
    assert_eq!(session.step(parsed("a.ts", "one\ntwo")), None);
    assert_eq!(session.model().content(), &ContentState::Ready("one\ntwo".to_string()));
    assert_eq!(session.model().vertical().content_length(), 2);
    assert_eq!(session.step(parsed("b.ts", "stale")), None);
    assert_eq!(session.model().content(), &ContentState::Ready("one\ntwo".to_string()));
    assert_eq!(session.state(), LoopState::Running);
}

#[test]
fn exit_ends_the_session() {
    let mut session = session(&["a.ts"]);
    session.step(LoopEvent::Navigate(NaviEvent::Down));
    assert_eq!(session.step(LoopEvent::Exit), None);
    assert_eq!(session.state(), LoopState::Exiting);
    assert_eq!(session.model().selected(), Some(0));
    assert_eq!(session.model().content(), &ContentState::Loading);
}

#[test]
fn nothing_is_applied_after_exit() {
    let mut session = session(&["a.ts", "b.ts"]);
    session.step(LoopEvent::Navigate(NaviEvent::Down));
    session.step(LoopEvent::Exit);
    assert_eq!(session.step(LoopEvent::Navigate(NaviEvent::Down)), None);
    assert_eq!(session.model().selected(), Some(0));
    assert_eq!(session.step(parsed("a.ts", "text")), None);
    assert_eq!(session.model().content(), &ContentState::Loading);
    assert_eq!(session.step(LoopEvent::Navigate(NaviEvent::Tab)), None);
    assert_eq!(session.model().focus(), FocusRegion::FileList);
    assert_eq!(session.step(LoopEvent::Exit), None);
    assert_eq!(session.step(LoopEvent::Closed), None);
    assert_eq!(session.state(), LoopState::Exiting);
}

#[test]
fn closed_channel_ends_the_session() {
    let mut session = session(&["a.ts"]);
    assert_eq!(session.step(LoopEvent::Closed), None);
    assert_eq!(session.state(), LoopState::Exiting);
    assert_eq!(session.model().selected(), None);
}
