//! Session and rotation state for a single-surface kiosk display.
//!
//! A kiosk shows one destination at a time out of a list, on one full-screen
//! surface, and draws a small overlay that says which one is showing and
//! how far its display window has run. This crate keeps the one record
//! behind that: what is showing, since when, until when, and when somebody
//! last touched the display.
//!
//! The crate never touches a window, a clock or a thread. Time comes in as
//! epoch milliseconds. A command hands back what the display host should
//! do, and the host's answer comes in again as a plain value, so a caller
//! can keep the record behind a lock and never hold the lock while the host
//! works.
//!
//! - [`session`]: the session as a mathematical value, and the laws of it
//! - [`store`]: the store that owns the record
//! - [`rotation`]: progress of the display window, and the poller's side
//! - [`activity`]: activity signals and what they announce
//! - [`destination`]: resolving destination text
//! - [`display`]: requests to the display host and its answers
//! - [`overlay`]: the snapshot for the overlay's renderer
//! - [`bridge`]: the commands
//! - [`error`]: why a command was turned down

pub mod activity;
pub mod bridge;
pub mod destination;
pub mod display;
pub mod error;
pub mod overlay;
pub mod rotation;
pub mod session;
pub mod store;
