//! The core of a small quote viewer: what the window shows in each state, and
//! how the state answers to a finished fetch or a press of the button.
//!
//! The library does no I/O itself. [`Quotes::update`] hands back a [`Command`]
//! that tells the run loop whether to start a fetch, and [`Quotes::view`]
//! describes the window as plain data for a toolkit to draw.

pub mod error;
pub mod history;
pub mod message;
pub mod quote;
pub mod state;
pub mod widget;

pub use error::ErrorKind;
pub use message::{Command, Message};
pub use quote::{Quote, ENDPOINT};
pub use state::Quotes;
pub use widget::{button, Button, Quotation, Screen};
