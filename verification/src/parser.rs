//! Requests for file contents, their results, and how a source file is turned into
//! the text that is displayed for it.
use oxc::allocator::Allocator;
use oxc::parser::Parser;
use oxc::span::SourceType;
use vstd::prelude::*;
use vstd::string::StringExecFns;

verus! {

/// A request to produce the displayable content of one file.
#[derive(Debug, Clone, PartialEq, Eq)]
pub enum ParseRequest {
    ParseFile { file_path: String },
}

impl ParseRequest {
    /// The path of the file that is asked for.
    pub open spec fn path(self) -> Seq<char> {
        match self {
            ParseRequest::ParseFile { file_path } => file_path@,
        }
    }
}

/// What became of a request: the rendered text, or a message that says why there
/// is none.
#[derive(Debug, Clone, PartialEq, Eq)]
pub enum ParseResult {
    Success(String),
    Error(String),
}

/// The mathematical content of a [`ParseResult`].
pub enum ParseResultView {
    Success(Seq<char>),
    Error(Seq<char>),
}

impl View for ParseResult {
    type V = ParseResultView;

    open spec fn view(&self) -> ParseResultView {
        match self {
            ParseResult::Success(text) => ParseResultView::Success(text@),
            ParseResult::Error(message) => ParseResultView::Error(message@),
        }
    }
}

/// The result for a file that could not be read.
pub open spec fn unreadable_file() -> ParseResultView {
    ParseResultView::Error("Error reading file"@)
}

/// The result for a file whose name does not tell what kind of source it holds.
pub open spec fn unknown_source_type() -> ParseResultView {
    ParseResultView::Error("Error determining source type"@)
}

/// `lines` joined into one text, a line feed between each two of them.
pub open spec fn join_lines(lines: Seq<Seq<char>>) -> Seq<char>
    decreases lines.len(),
{
    if lines.len() == 0 {
        Seq::empty()
    } else if lines.len() == 1 {
        lines[0]
    } else {
        join_lines(lines.drop_last()) + seq!['\n'] + lines.last()
    }
}

/// The result for a parsed source: its rendering where the parser reported nothing,
/// else the reports, one per line.
pub open spec fn outcome_of(rendering: Seq<char>, reports: Seq<Seq<char>>) -> ParseResultView {
    if reports.len() == 0 {
        ParseResultView::Success(rendering)
    } else {
        ParseResultView::Error(join_lines(reports))
    }
}

/// Whether `SourceType::from_path` accepts the path `file_path`.
pub uninterp spec fn source_type_known(file_path: Seq<char>) -> bool;

/// What `Parser::parse` makes of the text `source` of the file at `file_path`: the
/// debug rendering of the program, and the messages of its diagnostics in order.
pub uninterp spec fn parsed_source(file_path: Seq<char>, source: Seq<char>) -> (
    Seq<char>,
    Seq<Seq<char>>,
);

/// The result that is owed for the file at `file_path`, given what reading it gave.
pub open spec fn resolution(file_path: Seq<char>, contents: Option<Seq<char>>) -> ParseResultView {
    match contents {
        None => unreadable_file(),
        Some(source) => if !source_type_known(file_path) {
            unknown_source_type()
        } else {
            outcome_of(parsed_source(file_path, source).0, parsed_source(file_path, source).1)
        },
    }
}

/// `SourceType::from_path`: says whether the path names a file whose extension is one
/// of those that the parser knows. The answer depends on the path alone.
#[verifier::external_body]
fn has_known_source_type(file_path: &str) -> (known: bool)
    ensures
        known == source_type_known(file_path@),
{
    SourceType::from_path(file_path).is_ok()
}

/// `Parser::new(..).parse()` with the source type that `SourceType::from_path` gives
/// for `file_path`: returns the program formatted with `{:#?}` and the message of
/// each diagnostic, in the parser's order. Both depend on the two arguments alone.
#[verifier::external_body]
fn parse_source(file_path: &str, source: &str) -> (parsed: (String, Vec<String>))
    requires
        source_type_known(file_path@),
    ensures
        parsed.0@ == parsed_source(file_path@, source@).0,
        parsed.1.deep_view() == parsed_source(file_path@, source@).1,
{
    let source_type = SourceType::from_path(file_path).unwrap();
    let allocator = Allocator::default();
    let parsed = Parser::new(&allocator, source, source_type).parse();
    let reports = parsed.diagnostics.iter().map(|report| report.to_string()).collect();
    (format!("{:#?}", parsed.program), reports)
}

/// Joins `lines` with line feeds.
pub fn join_with_line_feeds(lines: &Vec<String>) -> (joined: String)
    ensures
        joined@ == join_lines(lines.deep_view()),
{
    let mut joined = String::new();
    let mut i: usize = 0;
    while i < lines.len()
        invariant
            i <= lines.len(),
            joined@ == join_lines(lines.deep_view().take(i as int)),
        decreases lines.len() - i,
    {
        proof {
            reveal_strlit("\n");
            let all = lines.deep_view();
            assert(all.take(i + 1).drop_last() == all.take(i as int));
            assert(all.take(i + 1).last() == lines@[i as int]@);
            assert("\n"@ == seq!['\n']);
        }
        if i > 0 {
            joined.append("\n");
        }
        joined.append(lines[i].as_str());
        i = i + 1;
    }
    proof {
        assert(lines.deep_view().take(i as int) == lines.deep_view());
    }
    joined
}

/// Turns what the parser gave for a source into the result that is sent back.
pub fn parse_outcome(rendering: String, reports: Vec<String>) -> (result: ParseResult)
    ensures
        result@ == outcome_of(rendering@, reports.deep_view()),
{
    if reports.len() == 0 {
        ParseResult::Success(rendering)
    } else {
        ParseResult::Error(join_with_line_feeds(&reports))
    }
}

/// Produces the result for the file at `file_path`, whose text is `contents`, or
/// `None` where the file could not be read.
pub fn parse_file(file_path: &str, contents: Option<String>) -> (result: ParseResult)
    ensures
        result@ == resolution(file_path@, contents_view(contents)),
{
    match contents {
        None => ParseResult::Error("Error reading file".to_owned()),
        Some(source) => {
            if !has_known_source_type(file_path) {
                ParseResult::Error("Error determining source type".to_owned())
            } else {
                let (rendering, reports) = parse_source(file_path, source.as_str());
                parse_outcome(rendering, reports)
            }
        },
    }
}

/// The view of what reading a file gave.
pub open spec fn contents_view(contents: Option<String>) -> Option<Seq<char>> {
    match contents {
        Some(source) => Some(source@),
        None => None,
    }
}

/// A result together with the path of the file that it is the result for.
#[derive(Debug, Clone, PartialEq, Eq)]
pub struct ParseReply {
    pub file_path: String,
    pub result: ParseResult,
}

/// One thing that happens to the worker.
#[derive(Debug)]
pub enum WorkerEvent {
    /// A request arrived.
    Request(ParseRequest),
    /// The file that the worker asked to have read was read, or could not be read.
    Contents(Option<String>),
    /// A channel was closed by its other end.
    Closed,
}

/// What the worker wants done next.
#[derive(Debug, PartialEq, Eq)]
pub enum WorkerAction {
    /// Wait for the next request.
    AwaitRequest,
    /// Read the file at this path and hand back its contents.
    Read(String),
    /// Send this reply, then wait for the next request.
    Publish(ParseReply),
    /// End the loop.
    Stop,
}

/// The mathematical content of a [`WorkerEvent`].
pub enum WorkerEventView {
    Request(Seq<char>),
    Contents(Option<Seq<char>>),
    Closed,
}

/// The mathematical content of a [`WorkerAction`].
pub enum WorkerActionView {
    AwaitRequest,
    Read(Seq<char>),
    Publish(Seq<char>, ParseResultView),
    Stop,
}

/// Where the worker stands.
pub enum WorkerState {
    /// Between requests.
    Idle,
    /// Serving the request for the file at this path, whose contents are awaited.
    Reading(Seq<char>),
    /// Done for good.
    Stopped,
}

impl View for WorkerEvent {
    type V = WorkerEventView;

    open spec fn view(&self) -> WorkerEventView {
        match self {
            WorkerEvent::Request(request) => WorkerEventView::Request(request.path()),
            WorkerEvent::Contents(contents) => WorkerEventView::Contents(contents_view(*contents)),
            WorkerEvent::Closed => WorkerEventView::Closed,
        }
    }
}

impl View for WorkerAction {
    type V = WorkerActionView;

    open spec fn view(&self) -> WorkerActionView {
        match self {
            WorkerAction::AwaitRequest => WorkerActionView::AwaitRequest,
            WorkerAction::Read(file_path) => WorkerActionView::Read(file_path@),
            WorkerAction::Publish(reply) => WorkerActionView::Publish(
                reply.file_path@,
                reply.result@,
            ),
            WorkerAction::Stop => WorkerActionView::Stop,
        }
    }
}

impl WorkerState {
    /// The worker after one event. It serves one request at a time, in the order of
    /// arrival: a request is taken only between requests, and the contents of a file
    /// only while one is served. A closed channel stops it for good.
    pub open spec fn step(self, event: WorkerEventView) -> WorkerState {
        match (self, event) {
            (WorkerState::Stopped, _) => WorkerState::Stopped,
            (_, WorkerEventView::Closed) => WorkerState::Stopped,
            (WorkerState::Idle, WorkerEventView::Request(file_path)) => WorkerState::Reading(
                file_path,
            ),
            (WorkerState::Reading(_), WorkerEventView::Contents(_)) => WorkerState::Idle,
            _ => self,
        }
    }

    /// What the worker wants done after one event. The reply to a request carries
    /// the request's path and the result owed for it, whether the file is still
    /// wanted or not.
    pub open spec fn action(self, event: WorkerEventView) -> WorkerActionView {
        match (self, event) {
            (WorkerState::Stopped, _) => WorkerActionView::Stop,
            (_, WorkerEventView::Closed) => WorkerActionView::Stop,
            (WorkerState::Idle, WorkerEventView::Request(file_path)) => WorkerActionView::Read(
                file_path,
            ),
            (WorkerState::Idle, WorkerEventView::Contents(_)) => WorkerActionView::AwaitRequest,
            (WorkerState::Reading(file_path), WorkerEventView::Contents(contents)) =>
                WorkerActionView::Publish(file_path, resolution(file_path, contents)),
            (WorkerState::Reading(file_path), WorkerEventView::Request(_)) =>
                WorkerActionView::Read(file_path),
        }
    }
}

/// The worker that serves requests: one at a time, in the order of their arrival.
#[derive(Debug)]
pub struct ParserTask {
    /// The path of the file whose contents are awaited.
    reading: Option<String>,
    stopped: bool,
}

impl View for ParserTask {
    type V = WorkerState;

    closed spec fn view(&self) -> WorkerState {
        if self.stopped {
            WorkerState::Stopped
        } else {
            match self.reading {
                Some(file_path) => WorkerState::Reading(file_path@),
                None => WorkerState::Idle,
            }
        }
    }
}

impl ParserTask {
    /// A worker between requests.
    pub fn new() -> (task: ParserTask)
        ensures
            task@ == WorkerState::Idle,
    {
        ParserTask { reading: None, stopped: false }
    }

    /// Whether the worker is done for good.
    pub fn is_stopped(&self) -> (stopped: bool)
        ensures
            stopped == (self@ is Stopped),
    {
        self.stopped
    }

    /// Takes one event and says what is to be done next.
    pub fn run(&mut self, event: WorkerEvent) -> (action: WorkerAction)
        ensures
            final(self)@ == old(self)@.step(event@),
            action@ == old(self)@.action(event@),
    {
        if self.stopped {
            return WorkerAction::Stop;
        }
        match event {
            WorkerEvent::Closed => {
                self.stopped = true;
                WorkerAction::Stop
            },
            WorkerEvent::Request(request) => {
                match &self.reading {
                    Some(file_path) => WorkerAction::Read(file_path.clone()),
                    None => {
                        let ParseRequest::ParseFile { file_path } = request;
                        self.reading = Some(file_path.clone());
                        WorkerAction::Read(file_path)
                    },
                }
            },
            WorkerEvent::Contents(contents) => {
                match self.reading.take() {
                    Some(file_path) => {
                        let result = parse_file(file_path.as_str(), contents);
                        WorkerAction::Publish(ParseReply { file_path, result })
                    },
                    None => WorkerAction::AwaitRequest,
                }
            },
        }
    }
}

/// A request that arrives between requests is served in two steps: the worker asks
/// for the file to be read, and on its contents publishes the result owed for that
/// file, under the request's path; it is then between requests again.
pub proof fn lemma_request_is_served(file_path: Seq<char>, contents: Option<Seq<char>>)
    ensures
        ({
            let asked = WorkerEventView::Request(file_path);
            let read = WorkerEventView::Contents(contents);
            &&& WorkerState::Idle.action(asked) == WorkerActionView::Read(file_path)
            &&& WorkerState::Idle.step(asked).action(read) == WorkerActionView::Publish(
                file_path,
                resolution(file_path, contents),
            )
            &&& WorkerState::Idle.step(asked).step(read) == WorkerState::Idle
        }),
{
}

/// A stopped worker stays stopped and asks for nothing more.
pub proof fn lemma_stopped_worker_stays_stopped(state: WorkerState, event: WorkerEventView)
    ensures
        state.step(WorkerEventView::Closed) == WorkerState::Stopped,
        WorkerState::Stopped.step(event) == WorkerState::Stopped,
        WorkerState::Stopped.action(event) == WorkerActionView::Stop,
{
}

} // verus!
