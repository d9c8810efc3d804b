//! Core of a desktop application shell's menu subsystem: the declarative
//! menu tree, the table that routes a fired menu-item identity to a window
//! action, and the zoom level that persists across menu invocations.
//!
//! The host runtime (window handles, native menu installation, the event
//! loop) lives outside this crate; this crate holds the decisions: which
//! action a fired identity selects, how the zoom level moves, and what the
//! menu tree contains.

pub mod dispatch;
pub mod menu;
pub mod zoom;
