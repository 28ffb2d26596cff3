use oxc_parser_cli::parser::{
    join_with_line_feeds, parse_file, parse_outcome, ParseReply, ParseRequest, ParseResult,
    ParserTask, WorkerAction, WorkerEvent,
};

fn request(path: &str) -> WorkerEvent {
    WorkerEvent::Request(ParseRequest::ParseFile { file_path: path.to_string() })
}

fn contents(text: &str) -> WorkerEvent {
    WorkerEvent::Contents(Some(text.to_string()))
}

#[test]
fn unreadable_file_is_an_error() {
    assert_eq!(parse_file("a.ts", None), ParseResult::Error("Error reading file".to_string()));
    assert_eq!(parse_file("notes.txt", None), ParseResult::Error("Error reading file".to_string()));
}

#[test]
fn unknown_extension_is_an_error() {
    let expected = ParseResult::Error("Error determining source type".to_string());
    assert_eq!(parse_file("notes.txt", Some("hello".to_string())), expected);
    assert_eq!(parse_file("Makefile", Some("all:".to_string())), expected);
    assert_eq!(parse_file("", Some("let x = 1;".to_string())), expected);
}

#[test]
fn valid_source_is_rendered() {
    let result = parse_file("dir/a.ts", Some("let x: number = 1;".to_string()));
    let ParseResult::Success(text) = result else {
        panic!("expected a rendering, got {:?}", result);
    };
    assert!(text.starts_with("Program {"));
    assert!(text.contains("VariableDeclaration"));
    assert!(text.lines().count() > 1);
}

#[test]
fn every_known_extension_is_parsed() {
    for name in ["a.js", "a.mjs", "a.cjs", "a.jsx", "a.ts", "a.mts", "a.cts", "a.tsx", "a.d.ts"] {
        let result = parse_file(name, Some(String::new()));
        assert!(matches!(result, ParseResult::Success(_)), "{}: {:?}", name, result);
    }
}

#[test]
fn rendering_depends_on_the_source_type() {
    let source = "let x = <T>y;".to_string();
    let as_ts = parse_file("a.ts", Some(source.clone()));
    let as_js = parse_file("a.js", Some(source));
    assert!(matches!(as_ts, ParseResult::Success(_)));
    assert_ne!(as_ts, as_js);
}

#[test]
fn same_input_gives_same_result() {
    let source = "export const answer = 42;\n";
    assert_eq!(
        parse_file("a.js", Some(source.to_string())),
        parse_file("a.js", Some(source.to_string()))
    );
}

#[test]
fn syntax_errors_are_reported() {
    let result = parse_file("a.js", Some("let = ;".to_string()));
    let ParseResult::Error(message) = result else {
        panic!("expected an error, got {:?}", result);
    };
    assert!(!message.is_empty());
    assert_ne!(message, "let = ;");
}

#[test]
fn several_reports_stand_on_separate_lines() {
    let lines = vec!["first".to_string(), "second".to_string(), "third".to_string()];
    assert_eq!(join_with_line_feeds(&lines), "first\nsecond\nthird");
    assert_eq!(join_with_line_feeds(&vec!["only".to_string()]), "only");
    assert_eq!(join_with_line_feeds(&Vec::new()), "");
    assert_eq!(join_with_line_feeds(&vec![String::new(), String::new()]), "\n");
}

#[test]
fn outcome_is_the_rendering_or_the_reports() {
    assert_eq!(
        parse_outcome("Program".to_string(), Vec::new()),
        ParseResult::Success("Program".to_string())
    );
    assert_eq!(
        parse_outcome("Program".to_string(), vec!["bad".to_string(), "worse".to_string()]),
        ParseResult::Error("bad\nworse".to_string())
    );
    assert_eq!(
        parse_outcome(String::new(), vec![String::new()]),
        ParseResult::Error(String::new())
    );
}

#[test]
fn worker_serves_a_request() {
    let mut task = ParserTask::new();
    assert!(!task.is_stopped());
    assert_eq!(task.run(request("notes.txt")), WorkerAction::Read("notes.txt".to_string()));
    let action = task.run(contents("hello"));
    assert_eq!(
        action,
        WorkerAction::Publish(ParseReply {
            file_path: "notes.txt".to_string(),
            result: ParseResult::Error("Error determining source type".to_string()),
        })
    );
    assert!(!task.is_stopped());
}

#[test]
fn worker_reports_an_unreadable_file() {
    let mut task = ParserTask::new();
    task.run(request("a.ts"));
    assert_eq!(
        task.run(WorkerEvent::Contents(None)),
        WorkerAction::Publish(ParseReply {
            file_path: "a.ts".to_string(),
            result: ParseResult::Error("Error reading file".to_string()),
        })
    );
}

#[test]
fn worker_serves_requests_in_order() {
    let mut task = ParserTask::new();
    let mut served = Vec::new();
    for name in ["a.txt", "b.ts", "c.txt"] {
        assert_eq!(task.run(request(name)), WorkerAction::Read(name.to_string()));
        match task.run(contents("")) {
            WorkerAction::Publish(reply) => served.push(reply.file_path),
            other => panic!("expected a reply, got {:?}", other),
        }
    }
    assert_eq!(served, vec!["a.txt".to_string(), "b.ts".to_string(), "c.txt".to_string()]);
}

#[test]
fn worker_takes_one_request_at_a_time() {
    let mut task = ParserTask::new();
    task.run(request("a.txt"));
    assert_eq!(task.run(request("b.txt")), WorkerAction::Read("a.txt".to_string()));
    match task.run(contents("")) {
        WorkerAction::Publish(reply) => assert_eq!(reply.file_path, "a.txt"),
        other => panic!("expected a reply, got {:?}", other),
    }
}

#[test]
fn worker_ignores_contents_it_did_not_ask_for() {
    let mut task = ParserTask::new();
    assert_eq!(task.run(contents("text")), WorkerAction::AwaitRequest);
    assert_eq!(task.run(request("a.txt")), WorkerAction::Read("a.txt".to_string()));
}

#[test]
fn worker_stops_when_a_channel_closes() {
    let mut task = ParserTask::new();
    task.run(request("a.txt"));
    assert_eq!(task.run(WorkerEvent::Closed), WorkerAction::Stop);
    assert!(task.is_stopped());
    assert_eq!(task.run(request("b.txt")), WorkerAction::Stop);
    assert_eq!(task.run(contents("")), WorkerAction::Stop);
    assert_eq!(task.run(WorkerEvent::Closed), WorkerAction::Stop);
    assert!(task.is_stopped());
}
