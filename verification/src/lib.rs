//! Decision core of a desktop utility's background control surface.
//!
//! The crate decides; a thin shell acts. Global shortcut transitions are
//! classified into logical actions, window visibility is tracked as a small
//! state machine per named window, tray interactions are routed into that
//! state machine, and the paste chord is planned as a sequence of key strokes.
//! Every handler is a plain state transition that returns what the shell is to
//! ask of the operating system.

pub mod dispatcher;
pub mod injector;
pub mod placement;
pub mod session;
pub mod shortcut;
pub mod tray;
pub mod window;

