//! A library for a two-panel terminal viewer of a child process's output
//! streams: per-stream text accumulation, soft-wrapping, scroll state with an
//! autoscroll policy, key dispatch, and the per-frame view composition.

mod focus;
mod keys;
mod render;
mod session;
mod stream;
mod usage;
mod viewport;
mod wrap;

pub use focus::ActiveWidget;
pub use keys::Key;
pub use keys::ScrollCommand;
pub use render::PanelView;
pub use render::autoscroll_badge;
pub use render::eof_badge;
pub use render::stream_title;
pub use session::AppEvent;
pub use session::AppState;
pub use stream::StreamState;
pub use usage::usage_line;
pub use viewport::inner_size;
pub use viewport::page_size;
pub use wrap::wrapped_lines;
