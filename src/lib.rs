//! Navigation engine of a terminal viewer for line-oriented transfer logs.
//!
//! The library holds the logic of the viewer: the viewport arithmetic shared by
//! the pager and the file selector, the two key-driven state machines, the
//! session that routes between them, the line filter applied when a log is
//! loaded, the formatting of rendered rows, and the extraction of summary
//! fields from a log. Terminal and file I/O live outside it.

pub mod viewport;
pub mod pager;
pub mod selector;
pub mod session;
pub mod text;
pub mod render;
pub mod line_buffer;
pub mod summary;
pub mod menu;
pub mod term;
