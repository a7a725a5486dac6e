//! The text buffer of a small terminal editor: lines addressed by grapheme
//! cluster, a document made of such lines, cursor movement, viewport
//! scrolling and search, each with a machine-checked contract.

pub mod cursor;
pub mod document;
pub mod editor;
pub mod grapheme;
pub mod line;
pub mod prompt;
pub mod search;
pub mod state;
pub mod status;
pub mod substring;
pub mod terminal;
pub mod viewport;

pub use document::Document;
pub use line::Line;
