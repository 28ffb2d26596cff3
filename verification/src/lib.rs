//! A viewer's core: a file list, a selection, two panes, and the content of the
//! selected file, which is asked for and delivered through messages.
pub mod control;
pub mod input;
pub mod model;
pub mod parser;
pub mod scroll;
pub mod text;
pub mod view;

pub use model::{AppEvent, AppModel, ContentState, FocusRegion, NaviEvent};
pub use parser::{ParseRequest, ParseResult};
