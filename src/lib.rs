//! Window context tracking: the records published for the focused window
//! and the window under the pointer, the service cache that holds them, and
//! the decisions of the X11 tracker that keeps them current.
pub mod text;
pub mod types;
pub mod display;
pub mod debouncer;
pub mod service;
pub mod xwindow;
pub mod tracker;
pub mod walk;
pub mod query;
pub mod providers;
pub mod daemon;
pub mod adapters;
