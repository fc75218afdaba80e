//! Sketch is a crate for building TUI applications inspired by [bubbletea] from the golang
//! ecosystem.
//!
//! An application is a [`Model`]: a state, an `update` that makes the next state
//! of a state and a message, and a `view` that makes a frame of a state. An
//! [`App`] holds the one live model and drives it: it takes a message, hands it
//! to `update`, follows the chain of follow-up messages that `update` returns,
//! and has the frame drawn once the chain is drained. A [`Quit`] message ends
//! the run.
//!
//! A message is a [`Msg`], an envelope for a value of any type that implements
//! [`Message`], so that an application and the widgets it uses can add messages
//! of their own to those of the terminal: [`Key`], [`Mouse`], [`Focus`],
//! [`Resize`] and [`Paste`].
//!
//! The library decides and computes; it does not touch the terminal. What has
//! to be done there, it hands to its caller as an [`Action`].
//!
//! [bubbletea]: https://github.com/charmbracelet/bubbletea

pub mod ansi;
pub mod app;
pub mod event;
pub mod msg;
mod seal;
pub mod style;
pub mod text;

pub use ansi::visible_length;
pub use app::{Action, App, Model, Phase};
pub use crossterm::event::KeyCode;
pub use event::{Focus, Key, KeyKind, Mouse, MouseButton, MouseKind, Paste, Resize, TerminalEvent};
pub use msg::{Message, Msg, Payload, Quit};
pub use style::{Align, Blink, Color, Style};
