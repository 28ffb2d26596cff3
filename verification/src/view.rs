//! What is drawn for a model: the texts, the rows of the file list, the pane that is
//! highlighted and the offsets, as plain values for whatever does the drawing.
use crate::model::{
    index_view, AppModel, ContentState, ContentView, FocusRegion, ModelState,
};
use std::path::Path;
use vstd::prelude::*;

verus! {

/// The title of the file list.
pub open spec fn list_title(focus: FocusRegion) -> Seq<char> {
    match focus {
        FocusRegion::FileList => "Files [TAB: switch focus]"@,
        FocusRegion::Content => "Files"@,
    }
}

/// The title of the content pane.
pub open spec fn content_title(focus: FocusRegion) -> Seq<char> {
    match focus {
        FocusRegion::FileList => "Content"@,
        FocusRegion::Content => "Content [TAB: switch focus | ←→↑↓: scroll(+SHIFT: jump)]"@,
    }
}

/// The text of the content pane.
pub open spec fn body_text(content: ContentView) -> Seq<char> {
    match content {
        ContentView::Empty =>
            "Select a file to view its contents\n\n💡 Use ↑↓ to navigate files\n   TAB to switch focus"@,
        ContentView::Loading => "Loading..."@,
        ContentView::Ready(text) => text,
        ContentView::Failed(message) => message,
    }
}

/// The final component of the path `path`, as `Path::file_name` gives it; none where
/// the path has no such component.
pub uninterp spec fn file_name_of(path: Seq<char>) -> Option<Seq<char>>;

/// A file name as a mathematical value.
pub open spec fn name_view(name: Option<String>) -> Option<Seq<char>> {
    match name {
        Some(name) => Some(name@),
        None => None,
    }
}

/// The text of a row of the file list, given the file's name.
pub open spec fn row_label_of(name: Option<Seq<char>>) -> Seq<char> {
    match name {
        Some(name) => name,
        None => "Unknown"@,
    }
}

/// The text of the row that stands for the file at `path`: the file's name, or
/// `Unknown` for a path without one.
pub open spec fn row_text(path: Seq<char>) -> Seq<char> {
    row_label_of(file_name_of(path))
}

/// The rows of the file list: one for each file, in the order of the files.
pub open spec fn rows_of(files: Seq<Seq<char>>) -> Seq<Seq<char>> {
    Seq::new(files.len(), |k: int| row_text(files[k]))
}

/// `Path::file_name` of std, on the path that `path` spells: the final component of
/// the path as text, none where there is none (as for a path that ends in `..`).
/// The answer depends on the path alone.
#[verifier::external_body]
fn path_file_name(path: &str) -> (name: Option<String>)
    ensures
        name_view(name) == file_name_of(path@),
{
    Path::new(path).file_name().map(|name| name.to_string_lossy().into_owned())
}

/// The text of a row, given the file's name.
pub fn row_label(name: Option<String>) -> (label: String)
    ensures
        label@ == row_label_of(name_view(name)),
{
    match name {
        Some(name) => name,
        None => "Unknown".to_owned(),
    }
}

/// The text of the row that stands for the file at `path`.
pub fn file_row(path: &str) -> (row: String)
    ensures
        row@ == row_text(path@),
{
    row_label(path_file_name(path))
}

/// An offset as the drawing takes it: truncated to its low 16 bits.
pub open spec fn drawn_offset(offset: nat) -> u16 {
    offset as u16
}

/// What is drawn for one state of the model.
#[derive(Debug, PartialEq, Eq)]
pub struct Screen {
    /// Title of the file list.
    pub list_title: String,
    /// Title of the content pane.
    pub content_title: String,
    /// The pane that is highlighted.
    pub focus: FocusRegion,
    /// The rows of the file list, one for each file, in the order of the files.
    pub rows: Vec<String>,
    /// Index of the highlighted file.
    pub selected: Option<usize>,
    /// Text of the content pane.
    pub body: String,
    /// Whether `body` is the hint shown before any file was selected.
    pub placeholder: bool,
    /// Lines and columns that the text is shifted by.
    pub scroll: (u16, u16),
    /// Length and position of the vertical scrollbar.
    pub vertical_bar: (usize, usize),
    /// Length and position of the horizontal scrollbar.
    pub horizontal_bar: (usize, usize),
}

impl Screen {
    /// This screen shows `state`.
    pub open spec fn shows(self, state: ModelState) -> bool {
        &&& self.list_title@ == list_title(state.focus)
        &&& self.content_title@ == content_title(state.focus)
        &&& self.focus == state.focus
        &&& self.rows.deep_view() == rows_of(state.files)
        &&& index_view(self.selected) == state.selection
        &&& self.body@ == body_text(state.content)
        &&& self.placeholder == (state.content is Empty)
        &&& self.scroll.0 == drawn_offset(state.vertical.offset)
        &&& self.scroll.1 == drawn_offset(state.horizontal.offset)
        &&& self.vertical_bar.0 == state.vertical.bound
        &&& self.vertical_bar.1 == state.vertical.offset
        &&& self.horizontal_bar.0 == state.horizontal.bound
        &&& self.horizontal_bar.1 == state.horizontal.offset
    }
}

/// Lays out what is to be drawn for `model`. The model is only read.
pub fn render(model: &AppModel) -> (screen: Screen)
    ensures
        screen.shows(model@),
{
    let focus = model.focus();
    let list_title = match focus {
        FocusRegion::FileList => "Files [TAB: switch focus]",
        FocusRegion::Content => "Files",
    };
    let content_title = match focus {
        FocusRegion::FileList => "Content",
        FocusRegion::Content => "Content [TAB: switch focus | ←→↑↓: scroll(+SHIFT: jump)]",
    };
    let (body, placeholder) = match model.content() {
        ContentState::Empty => (
            "Select a file to view its contents\n\n💡 Use ↑↓ to navigate files\n   TAB to switch focus".to_owned(),
            true,
        ),
        ContentState::Loading => ("Loading...".to_owned(), false),
        ContentState::Ready(text) => (text.clone(), false),
        ContentState::Failed(message) => (message.clone(), false),
    };
    let file_paths = model.file_paths();
    let mut rows: Vec<String> = Vec::new();
    let mut k: usize = 0;
    while k < file_paths.len()
        invariant
            k <= file_paths.len(),
            rows.len() == k,
            forall|j: int| 0 <= j < k ==> (#[trigger] rows[j])@ == row_text(file_paths[j]@),
        decreases file_paths.len() - k,
    {
        rows.push(file_row(file_paths[k].as_str()));
        k = k + 1;
    }
    proof {
        assert(rows.deep_view() =~= rows_of(file_paths.deep_view()));
    }
    let vertical = model.vertical();
    let horizontal = model.horizontal();
    let line: usize = vertical.position();
    let column: usize = horizontal.position();
    Screen {
        list_title: list_title.to_owned(),
        content_title: content_title.to_owned(),
        focus,
        rows,
        selected: model.selected(),
        body,
        placeholder,
        scroll: (#[verifier::truncate] (line as u16), #[verifier::truncate] (column as u16)),
        vertical_bar: (vertical.content_length(), line),
        horizontal_bar: (horizontal.content_length(), column),
    }
}

/// An offset below 65536 is drawn as it is.
pub proof fn lemma_small_offset_is_drawn_exactly(offset: usize)
    requires
        offset < 0x1_0000,
    ensures
        drawn_offset(offset as nat) == offset,
{
    assert(offset as u16 == offset) by (bit_vector)
        requires
            offset < 0x1_0000,
    ;
}

} // verus!
