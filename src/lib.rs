//! Region-scoped image editing: selection tracking, sub-region edits
//! spliced back into place, and freehand pen strokes.

pub mod pixels;
pub mod selection;
pub mod draw;
pub mod errors;
pub mod edit;
pub mod session;
