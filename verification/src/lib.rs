//! A Pomodoro timer: focus intervals alternating with short and long breaks.
//!
//! The timer is a state machine that knows nothing of clocks or terminals.
//! Its caller reads a monotonic clock and the keyboard, hands both in, and
//! carries out what comes back: sounding the alert, drawing a frame, leaving
//! the loop.

pub mod config;
pub mod control;
pub mod laws;
pub mod phase;
pub mod span;
pub mod text;
pub mod timer;

pub use crate::config::PomodoroConfig;
pub use crate::control::command_for;
pub use crate::control::frame_due;
pub use crate::control::Command;
pub use crate::control::Key;
pub use crate::control::KeyStroke;
pub use crate::control::Turn;
pub use crate::phase::Accent;
pub use crate::phase::Phase;
pub use crate::span::Span;
pub use crate::timer::PomodoroApp;
