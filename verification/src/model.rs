//! The navigation state machine: which file is selected, which pane has focus, how
//! far the content is scrolled, and what is shown for the selected file.
use crate::parser::{ParseRequest, ParseResult, ParseResultView};
use crate::scroll::{
    next_index, previous_index, raw_next_index, raw_previous_index, ScrollTracker, ScrollView,
};
use crate::text::{line_count, max_line_width, measure};
use vstd::prelude::*;
use vstd::string::StringSliceAdditionalSpecFns;
use vstd::utf8::encode_utf8;

verus! {

/// A navigation event: a directional key, plain or in its jump variant, or the key
/// that moves focus to the other pane.
#[derive(Clone, Copy, Debug, PartialEq, Eq, Structural)]
pub enum NaviEvent {
    /// Move focus to the other pane.
    Tab,
    /// Jump forward: like `Down` in the file list, to the last line in the content.
    ShiftDown,
    /// Jump back: like `Up` in the file list, to the first line in the content.
    ShiftUp,
    /// The next file, or one line down.
    Down,
    /// The previous file, or one line up.
    Up,
    /// To the last column.
    ShiftRight,
    /// To the first column.
    ShiftLeft,
    /// One column to the right.
    Right,
    /// One column to the left.
    Left,
}

/// The events of the plain arrow keys, where the horizontal keys choose the pane.
#[derive(Clone, Copy, Debug, PartialEq, Eq, Structural)]
pub enum AppEvent {
    /// Leave; the state machine ignores it.
    Quit,
    /// The next file, or one line down.
    Down,
    /// The previous file, or one line up.
    Up,
    /// Focus the content pane.
    Right,
    /// Focus the file list.
    Left,
}

/// Which of the two panes receives directional input.
#[derive(Clone, Copy, Debug, PartialEq, Eq, Structural)]
pub enum FocusRegion {
    FileList,
    Content,
}

impl FocusRegion {
    /// The other pane.
    pub open spec fn flipped(self) -> FocusRegion {
        match self {
            FocusRegion::FileList => FocusRegion::Content,
            FocusRegion::Content => FocusRegion::FileList,
        }
    }
}

/// What the content pane shows for the selected file.
#[derive(Clone, Debug, PartialEq, Eq)]
pub enum ContentState {
    /// No file was ever selected.
    Empty,
    /// A request for the selected file is under way.
    Loading,
    /// The rendered text of the selected file.
    Ready(String),
    /// Why there is no rendered text for the selected file.
    Failed(String),
}

/// The mathematical content of a [`ContentState`].
pub enum ContentView {
    Empty,
    Loading,
    Ready(Seq<char>),
    Failed(Seq<char>),
}

impl View for ContentState {
    type V = ContentView;

    open spec fn view(&self) -> ContentView {
        match self {
            ContentState::Empty => ContentView::Empty,
            ContentState::Loading => ContentView::Loading,
            ContentState::Ready(text) => ContentView::Ready(text@),
            ContentState::Failed(message) => ContentView::Failed(message@),
        }
    }
}

/// The text that a result puts on display.
pub open spec fn displayed_text(result: ParseResultView) -> Seq<char> {
    match result {
        ParseResultView::Success(text) => text,
        ParseResultView::Error(message) => message,
    }
}

/// The content that a result turns into.
pub open spec fn content_of(result: ParseResultView) -> ContentView {
    match result {
        ParseResultView::Success(text) => ContentView::Ready(text),
        ParseResultView::Error(message) => ContentView::Failed(message),
    }
}

/// The index selected after a step forward in a list of `len` files.
pub open spec fn selection_after_next(selected: Option<nat>, len: nat) -> Option<nat> {
    if len == 0 {
        None
    } else {
        match selected {
            None => Some(0),
            Some(i) => if i + 1 < len {
                Some(i + 1)
            } else {
                Some((len - 1) as nat)
            },
        }
    }
}

/// The index selected after a step back in a list of `len` files.
pub open spec fn selection_after_previous(selected: Option<nat>, len: nat) -> Option<nat> {
    if len == 0 {
        None
    } else {
        match selected {
            None => Some((len - 1) as nat),
            Some(i) => if i == 0 {
                Some(0)
            } else if i - 1 < len {
                Some((i - 1) as nat)
            } else {
                Some((len - 1) as nat)
            },
        }
    }
}

/// The index as a mathematical value.
pub open spec fn index_view(selected: Option<usize>) -> Option<nat> {
    match selected {
        Some(i) => Some(i as nat),
        None => None,
    }
}

/// The selection that a list of `len` files keeps of the index that a step moved to:
/// the index itself where it lies in the list, else the last file; none in an empty list.
pub open spec fn clamped_selection(moved: usize, len: nat) -> Option<nat> {
    if len == 0 {
        None
    } else if moved < len {
        Some(moved as nat)
    } else {
        Some((len - 1) as nat)
    }
}

/// Within a list that a machine can hold, a raw step of the list, kept within the
/// list, is the step of the state machine.
proof fn lemma_clamped_steps(selected: Option<usize>, len: nat)
    requires
        len <= usize::MAX,
        selected matches Some(i) ==> i < len,
    ensures
        clamped_selection(raw_next_index(selected), len) == selection_after_next(
            index_view(selected),
            len,
        ),
        clamped_selection(raw_previous_index(selected), len) == selection_after_previous(
            index_view(selected),
            len,
        ),
{
}

/// The state of the viewer as a mathematical value.
pub struct ModelState {
    /// The paths of the files, in display order.
    pub files: Seq<Seq<char>>,
    /// The index of the selected file.
    pub selection: Option<nat>,
    /// The pane that has focus.
    pub focus: FocusRegion,
    /// Scrolling over the lines of the content.
    pub vertical: ScrollView,
    /// Scrolling over the columns of the content.
    pub horizontal: ScrollView,
    /// What the content pane shows.
    pub content: ContentView,
}

impl ModelState {
    /// The state is consistent: the selection is an index into the file list, both
    /// offsets lie within their bounds, and nothing is shown while nothing is selected.
    pub open spec fn wf(self) -> bool {
        &&& self.selection matches Some(i) ==> i < self.files.len()
        &&& self.vertical.wf()
        &&& self.horizontal.wf()
        &&& self.selection is None ==> self.content is Empty
    }

    /// The state at startup: nothing selected, focus on the file list, nothing shown.
    pub open spec fn initial(files: Seq<Seq<char>>) -> ModelState {
        ModelState {
            files,
            selection: None,
            focus: FocusRegion::FileList,
            vertical: ScrollView::fresh(0),
            horizontal: ScrollView::fresh(0),
            content: ContentView::Empty,
        }
    }

    /// The path of the selected file.
    pub open spec fn current_path(self) -> Option<Seq<char>> {
        match self.selection {
            Some(i) => if i < self.files.len() {
                Some(self.files[i as int])
            } else {
                None
            },
            None => None,
        }
    }

    /// The selection that `event` leads to; the selection itself for an event that
    /// does not move it.
    pub open spec fn selection_after(self, event: NaviEvent) -> Option<nat> {
        if self.focus == FocusRegion::FileList {
            match event {
                NaviEvent::Down | NaviEvent::ShiftDown => selection_after_next(
                    self.selection,
                    self.files.len(),
                ),
                NaviEvent::Up | NaviEvent::ShiftUp => selection_after_previous(
                    self.selection,
                    self.files.len(),
                ),
                _ => self.selection,
            }
        } else {
            self.selection
        }
    }

    /// The state with `selected` as its selection. A change of selection puts the
    /// content into `Loading`.
    pub open spec fn with_selection(self, selected: Option<nat>) -> ModelState {
        if selected == self.selection {
            self
        } else {
            ModelState { selection: selected, content: ContentView::Loading, ..self }
        }
    }

    /// The state after a navigation event.
    pub open spec fn navigate(self, event: NaviEvent) -> ModelState {
        match event {
            NaviEvent::Tab => ModelState { focus: self.focus.flipped(), ..self },
            _ => if self.focus == FocusRegion::FileList {
                self.with_selection(self.selection_after(event))
            } else {
                match event {
                    NaviEvent::Down => ModelState { vertical: self.vertical.next(), ..self },
                    NaviEvent::Up => ModelState { vertical: self.vertical.prev(), ..self },
                    NaviEvent::ShiftDown => ModelState { vertical: self.vertical.last(), ..self },
                    NaviEvent::ShiftUp => ModelState { vertical: self.vertical.first(), ..self },
                    NaviEvent::Right => ModelState { horizontal: self.horizontal.next(), ..self },
                    NaviEvent::Left => ModelState { horizontal: self.horizontal.prev(), ..self },
                    NaviEvent::ShiftRight => ModelState {
                        horizontal: self.horizontal.last(),
                        ..self
                    },
                    NaviEvent::ShiftLeft => ModelState {
                        horizontal: self.horizontal.first(),
                        ..self
                    },
                    NaviEvent::Tab => self,
                }
            },
        }
    }

    /// The path that a navigation event asks the content of: that of the newly
    /// selected file where the event changes the selection, else none.
    pub open spec fn requested_path(self, event: NaviEvent) -> Option<Seq<char>> {
        if self.selection_after(event) == self.selection {
            None
        } else {
            self.navigate(event).current_path()
        }
    }

    /// Whether a result for `file_path` is still wanted: the path is that of the
    /// selected file.
    pub open spec fn accepts(self, file_path: Seq<char>) -> bool {
        self.current_path() == Some(file_path)
    }

    /// The state after the result for `file_path` has arrived. A result for another
    /// file than the selected one changes nothing.
    pub open spec fn deliver(self, file_path: Seq<char>, result: ParseResultView) -> ModelState {
        if self.accepts(file_path) {
            let bytes = encode_utf8(displayed_text(result));
            ModelState {
                content: content_of(result),
                vertical: ScrollView::fresh(line_count(bytes)),
                horizontal: ScrollView::fresh(max_line_width(bytes)),
                ..self
            }
        } else {
            self
        }
    }

    /// The state after an event of the plain arrow keys.
    pub open spec fn handle(self, event: AppEvent) -> ModelState {
        match event {
            AppEvent::Quit => self,
            AppEvent::Down => self.navigate(NaviEvent::Down),
            AppEvent::Up => self.navigate(NaviEvent::Up),
            AppEvent::Right => ModelState { focus: FocusRegion::Content, ..self },
            AppEvent::Left => ModelState { focus: FocusRegion::FileList, ..self },
        }
    }

    /// The path that an event of the plain arrow keys asks the content of.
    pub open spec fn requested_by(self, event: AppEvent) -> Option<Seq<char>> {
        match event {
            AppEvent::Down => self.requested_path(NaviEvent::Down),
            AppEvent::Up => self.requested_path(NaviEvent::Up),
            _ => None,
        }
    }
}

/// The path that a request, if there is one, asks for.
pub open spec fn path_of(request: Option<ParseRequest>) -> Option<Seq<char>> {
    match request {
        Some(request) => Some(request.path()),
        None => None,
    }
}

/// The viewer's state. It is changed only through the handlers below, each of which
/// keeps it consistent.
#[derive(Debug)]
pub struct AppModel {
    file_paths: Vec<String>,
    selection: Option<usize>,
    focus: FocusRegion,
    vertical: ScrollTracker,
    horizontal: ScrollTracker,
    content: ContentState,
}

impl View for AppModel {
    type V = ModelState;

    closed spec fn view(&self) -> ModelState {
        ModelState {
            files: self.file_paths.deep_view(),
            selection: index_view(self.selection),
            focus: self.focus,
            vertical: self.vertical@,
            horizontal: self.horizontal@,
            content: self.content@,
        }
    }
}

impl AppModel {
    #[verifier::type_invariant]
    spec fn consistent(self) -> bool {
        self@.wf()
    }

    /// The viewer at startup, over the given files.
    pub fn new(file_paths: Vec<String>) -> (model: AppModel)
        ensures
            model@ == ModelState::initial(file_paths.deep_view()),
            model@.wf(),
    {
        AppModel {
            file_paths,
            selection: None,
            focus: FocusRegion::FileList,
            vertical: ScrollTracker::new(0),
            horizontal: ScrollTracker::new(0),
            content: ContentState::Empty,
        }
    }

    /// The paths of the files, in display order.
    pub fn file_paths(&self) -> (paths: &Vec<String>)
        ensures
            paths.deep_view() == self@.files,
    {
        &self.file_paths
    }

    /// The index of the selected file; it is an index into the file list.
    pub fn selected(&self) -> (selected: Option<usize>)
        ensures
            index_view(selected) == self@.selection,
            selected matches Some(i) ==> i < self@.files.len(),
    {
        proof {
            use_type_invariant(self);
        }
        self.selection
    }

    /// The pane that has focus.
    pub fn focus(&self) -> (focus: FocusRegion)
        ensures
            focus == self@.focus,
    {
        self.focus
    }

    /// What the content pane shows.
    pub fn content(&self) -> (content: &ContentState)
        ensures
            content@ == self@.content,
    {
        &self.content
    }

    /// Scrolling over the lines of the content.
    pub fn vertical(&self) -> (tracker: ScrollTracker)
        ensures
            tracker@ == self@.vertical,
    {
        self.vertical
    }

    /// Scrolling over the columns of the content.
    pub fn horizontal(&self) -> (tracker: ScrollTracker)
        ensures
            tracker@ == self@.horizontal,
    {
        self.horizontal
    }

    /// Applies a navigation event. Returns the request to send where the event
    /// changed the selection.
    pub fn handle_navi_event(&mut self, ev: NaviEvent) -> (request: Option<ParseRequest>)
        ensures
            final(self)@ == old(self)@.navigate(ev),
            path_of(request) == old(self)@.requested_path(ev),
            final(self)@.wf(),
    {
        proof {
            use_type_invariant(&*self);
        }
        match ev {
            NaviEvent::Tab => {
                self.focus = match self.focus {
                    FocusRegion::FileList => FocusRegion::Content,
                    FocusRegion::Content => FocusRegion::FileList,
                };
                None
            },
            NaviEvent::ShiftDown | NaviEvent::Down => {
                if self.focus == FocusRegion::FileList {
                    let moved = next_index(self.selection);
                    proof {
                        lemma_clamped_steps(self.selection, self.file_paths.len() as nat);
                    }
                    return self.select(moved);
                }
                if ev == NaviEvent::ShiftDown {
                    let mut tracker = self.vertical;
                    tracker.last();
                    self.vertical = tracker;
                } else {
                    let mut tracker = self.vertical;
                    tracker.next();
                    self.vertical = tracker;
                }
                None
            },
            NaviEvent::ShiftUp | NaviEvent::Up => {
                if self.focus == FocusRegion::FileList {
                    let moved = previous_index(self.selection);
                    proof {
                        lemma_clamped_steps(self.selection, self.file_paths.len() as nat);
                    }
                    return self.select(moved);
                }
                if ev == NaviEvent::ShiftUp {
                    let mut tracker = self.vertical;
                    tracker.first();
                    self.vertical = tracker;
                } else {
                    let mut tracker = self.vertical;
                    tracker.prev();
                    self.vertical = tracker;
                }
                None
            },
            NaviEvent::ShiftRight | NaviEvent::Right => {
                if self.focus == FocusRegion::Content {
                    if ev == NaviEvent::ShiftRight {
                        let mut tracker = self.horizontal;
                        tracker.last();
                        self.horizontal = tracker;
                    } else {
                        let mut tracker = self.horizontal;
                        tracker.next();
                        self.horizontal = tracker;
                    }
                }
                None
            },
            NaviEvent::ShiftLeft | NaviEvent::Left => {
                if self.focus == FocusRegion::Content {
                    if ev == NaviEvent::ShiftLeft {
                        let mut tracker = self.horizontal;
                        tracker.first();
                        self.horizontal = tracker;
                    } else {
                        let mut tracker = self.horizontal;
                        tracker.prev();
                        self.horizontal = tracker;
                    }
                }
                None
            },
        }
    }

    /// Applies the result for `file_path`. It is taken only while `file_path` is the
    /// path of the selected file; a result for any other file is dropped.
    pub fn handle_parse_result(&mut self, file_path: &str, result: ParseResult)
        ensures
            final(self)@ == old(self)@.deliver(file_path@, result@),
            final(self)@.wf(),
    {
        proof {
            use_type_invariant(&*self);
        }
        let wanted = match self.selection {
            Some(i) => i < self.file_paths.len() && self.file_paths[i] == file_path.to_owned(),
            None => false,
        };
        if wanted {
            let extent = match &result {
                ParseResult::Success(text) => measure(text.as_str()),
                ParseResult::Error(message) => measure(message.as_str()),
            };
            self.vertical = ScrollTracker::new(extent.lines);
            self.horizontal = ScrollTracker::new(extent.width);
            self.content = match result {
                ParseResult::Success(text) => ContentState::Ready(text),
                ParseResult::Error(message) => ContentState::Failed(message),
            };
        }
    }

    /// Applies an event of the plain arrow keys: the vertical keys act as in
    /// [`AppModel::handle_navi_event`], the horizontal keys choose the pane.
    pub fn handle_event(&mut self, ev: AppEvent) -> (request: Option<ParseRequest>)
        ensures
            final(self)@ == old(self)@.handle(ev),
            path_of(request) == old(self)@.requested_by(ev),
            final(self)@.wf(),
    {
        proof {
            use_type_invariant(&*self);
        }
        match ev {
            AppEvent::Down => self.handle_navi_event(NaviEvent::Down),
            AppEvent::Up => self.handle_navi_event(NaviEvent::Up),
            AppEvent::Right => {
                self.focus = FocusRegion::Content;
                None
            },
            AppEvent::Left => {
                self.focus = FocusRegion::FileList;
                None
            },
            AppEvent::Quit => None,
        }
    }

    /// Selects the index that a step moved to, kept within the file list. Where
    /// that is another file than before, asks for its content.
    fn select(&mut self, moved: usize) -> (request: Option<ParseRequest>)
        ensures
            final(self)@ == old(self)@.with_selection(
                clamped_selection(moved, old(self)@.files.len()),
            ),
            path_of(request) == if clamped_selection(moved, old(self)@.files.len()) == old(
                self,
            )@.selection {
                None
            } else {
                final(self)@.current_path()
            },
    {
        proof {
            use_type_invariant(&*self);
        }
        let len = self.file_paths.len();
        let clamped = if len == 0 {
            None
        } else if moved < len {
            Some(moved)
        } else {
            Some(len - 1)
        };
        if clamped == self.selection {
            None
        } else {
            self.selection = clamped;
            self.request_parse_current_file()
        }
    }

    /// Puts the content into `Loading` and builds the request for the selected
    /// file. With nothing selected it changes nothing and asks for nothing.
    fn request_parse_current_file(&mut self) -> (request: Option<ParseRequest>)
        ensures
            final(self)@ == if old(self)@.current_path() is Some {
                ModelState { content: ContentView::Loading, ..old(self)@ }
            } else {
                old(self)@
            },
            path_of(request) == old(self)@.current_path(),
    {
        proof {
            use_type_invariant(&*self);
        }
        let Some(idx) = self.selection else {
            return None;
        };
        if idx >= self.file_paths.len() {
            return None;
        }
        self.content = ContentState::Loading;
        Some(ParseRequest::ParseFile { file_path: self.file_paths[idx].clone() })
    }
}

/// One input of the state machine: a navigation event, or the result for a file.
pub enum ModelInput {
    Navigate(NaviEvent),
    Deliver(Seq<char>, ParseResultView),
}

impl ModelState {
    /// The state after one input.
    pub open spec fn step(self, input: ModelInput) -> ModelState {
        match input {
            ModelInput::Navigate(event) => self.navigate(event),
            ModelInput::Deliver(file_path, result) => self.deliver(file_path, result),
        }
    }

    /// The path that one input asks the content of.
    pub open spec fn step_request(self, input: ModelInput) -> Option<Seq<char>> {
        match input {
            ModelInput::Navigate(event) => self.requested_path(event),
            ModelInput::Deliver(_, _) => None,
        }
    }

    /// The state after the inputs, taken in order.
    pub open spec fn after(self, inputs: Seq<ModelInput>) -> ModelState
        decreases inputs.len(),
    {
        if inputs.len() == 0 {
            self
        } else {
            self.after(inputs.drop_last()).step(inputs.last())
        }
    }

    /// The state after `n` presses of the key that moves focus.
    pub open spec fn toggled(self, n: nat) -> ModelState
        decreases n,
    {
        if n == 0 {
            self
        } else {
            self.toggled((n - 1) as nat).navigate(NaviEvent::Tab)
        }
    }
}

/// The state at startup is consistent.
pub proof fn lemma_initial_wf(files: Seq<Seq<char>>)
    ensures
        ModelState::initial(files).wf(),
{
}

/// A navigation event keeps a consistent state consistent and leaves the file list
/// as it is.
pub proof fn lemma_navigate_preserves_wf(state: ModelState, event: NaviEvent)
    requires
        state.wf(),
    ensures
        state.navigate(event).wf(),
        state.navigate(event).files == state.files,
{
}

/// An event of the plain arrow keys keeps a consistent state consistent.
pub proof fn lemma_handle_preserves_wf(state: ModelState, event: AppEvent)
    requires
        state.wf(),
    ensures
        state.handle(event).wf(),
        state.handle(event).files == state.files,
{
}

/// A result, taken or dropped, keeps a consistent state consistent and leaves the
/// file list and the selection as they are.
pub proof fn lemma_deliver_preserves_wf(
    state: ModelState,
    file_path: Seq<char>,
    result: ParseResultView,
)
    requires
        state.wf(),
    ensures
        state.deliver(file_path, result).wf(),
        state.deliver(file_path, result).files == state.files,
        state.deliver(file_path, result).selection == state.selection,
{
}

/// Every state that inputs lead to from startup is consistent: its selection, where
/// there is one, is an index into the file list, which never changes.
pub proof fn lemma_reachable_wf(files: Seq<Seq<char>>, inputs: Seq<ModelInput>)
    ensures
        ModelState::initial(files).after(inputs).wf(),
        ModelState::initial(files).after(inputs).files == files,
        ModelState::initial(files).after(inputs).selection matches Some(i) ==> i < files.len(),
    decreases inputs.len(),
{
    if inputs.len() > 0 {
        lemma_reachable_wf(files, inputs.drop_last());
    }
}

/// Over an empty file list nothing is ever selected, nothing is ever shown, and no
/// input asks for content.
pub proof fn lemma_empty_list_never_requests(inputs: Seq<ModelInput>, next: ModelInput)
    ensures
        ModelState::initial(Seq::empty()).after(inputs).selection is None,
        ModelState::initial(Seq::empty()).after(inputs).content is Empty,
        ModelState::initial(Seq::empty()).after(inputs).step_request(next) is None,
{
    lemma_reachable_wf(Seq::empty(), inputs);
}

/// Moving focus changes the pane and nothing else, and asks for nothing.
pub proof fn lemma_toggle_flips_focus(state: ModelState)
    ensures
        state.navigate(NaviEvent::Tab).focus != state.focus,
        state.navigate(NaviEvent::Tab) == (ModelState { focus: state.focus.flipped(), ..state }),
        state.requested_path(NaviEvent::Tab) is None,
        state.navigate(NaviEvent::Tab).navigate(NaviEvent::Tab) == state,
{
}

/// Presses of the key that moves focus alternate between the two panes: after an
/// even number of them the state is the one before, after an odd number it is that
/// state with the other pane in focus.
pub proof fn lemma_toggles_alternate(state: ModelState, n: nat)
    ensures
        state.toggled(n) == if n % 2 == 0 {
            state
        } else {
            state.navigate(NaviEvent::Tab)
        },
    decreases n,
{
    if n > 0 {
        lemma_toggles_alternate(state, (n - 1) as nat);
        lemma_toggle_flips_focus(state);
    }
}

/// With focus on the file list and the first file selected, a step back changes
/// nothing and asks for nothing.
pub proof fn lemma_previous_at_first_file(state: ModelState, event: NaviEvent)
    requires
        state.wf(),
        state.focus == FocusRegion::FileList,
        state.selection == Some(0nat),
        event == NaviEvent::Up || event == NaviEvent::ShiftUp,
    ensures
        state.navigate(event) == state,
        state.requested_path(event) is None,
{
}

/// With focus on the file list and the last file selected, a step forward changes
/// nothing and asks for nothing.
pub proof fn lemma_next_at_last_file(state: ModelState, event: NaviEvent)
    requires
        state.wf(),
        state.focus == FocusRegion::FileList,
        state.selection == Some((state.files.len() - 1) as nat),
        event == NaviEvent::Down || event == NaviEvent::ShiftDown,
    ensures
        state.navigate(event) == state,
        state.requested_path(event) is None,
{
}

/// A navigation event asks for content exactly when it changes the selection, and
/// then for the newly selected file, whose content is `Loading` from then on.
pub proof fn lemma_request_follows_selection(state: ModelState, event: NaviEvent)
    requires
        state.wf(),
    ensures
        state.requested_path(event) is Some <==> state.navigate(event).selection
            != state.selection,
        state.requested_path(event) is Some ==> {
            &&& state.navigate(event).content is Loading
            &&& state.navigate(event).current_path() == state.requested_path(event)
        },
        state.requested_path(event) is None ==> state.navigate(event).content == state.content,
{
}

/// A result for a file that is not the selected one changes nothing.
pub proof fn lemma_stale_result_dropped(
    state: ModelState,
    file_path: Seq<char>,
    result: ParseResultView,
)
    requires
        state.current_path() != Some(file_path),
    ensures
        state.deliver(file_path, result) == state,
{
}

/// Where an event moves the selection from one file to a file with another path, the
/// result for the former file, arriving late, is dropped, and the content that is
/// shown once the result for the latter has arrived is that result's.
pub proof fn lemma_superseded_result(
    state: ModelState,
    event: NaviEvent,
    stale: ParseResultView,
    fresh: ParseResultView,
)
    requires
        state.wf(),
        state.current_path() is Some,
        state.requested_path(event) is Some,
        state.requested_path(event) != state.current_path(),
    ensures
        ({
            let left = state.current_path()->0;
            let wanted = state.requested_path(event)->0;
            let moved = state.navigate(event);
            &&& moved.deliver(left, stale) == moved
            &&& moved.deliver(left, stale).deliver(wanted, fresh).content == content_of(fresh)
        }),
{
}

/// A result for the selected file is taken: it becomes the content, both offsets
/// return to 0, the vertical bound is the number of lines of the text now shown and
/// the horizontal bound is the width of its widest line.
pub proof fn lemma_accepted_result_rebounds(
    state: ModelState,
    file_path: Seq<char>,
    result: ParseResultView,
)
    requires
        state.current_path() == Some(file_path),
    ensures
        ({
            let taken = state.deliver(file_path, result);
            let bytes = encode_utf8(displayed_text(result));
            &&& taken.content == content_of(result)
            &&& !(taken.content is Empty) && !(taken.content is Loading)
            &&& taken.vertical.offset == 0
            &&& taken.vertical.bound == line_count(bytes)
            &&& taken.horizontal.offset == 0
            &&& taken.horizontal.bound == max_line_width(bytes)
        }),
{
}

} // verus!
