//! Decision core of an interactive messaging session that runs over a push
//! channel.
//!
//! The crate holds no I/O. A driver feeds it what happened (an envelope
//! arrived and was decoded, a line was typed, a send finished, a wait is
//! over) and performs the effects it answers with. Every rule of the
//! session is stated as a contract over a mathematical model and proved.
//!
//! - `session`: the event loop, from state and event to next state and
//!   effects.
//! - `command`: what a line of input asks for.
//! - `ledger`: which messages were shown already.
//! - `schedule`: the controller that revokes a scheduled message after a
//!   fixed wait.
//! - `store`: the credentials of the session, written out on every change.
//! - `message`, `effect`, `console`: the values that go between the session
//!   and its driver, and the words for the user.
//! - `bootstrap`, `guid`, `text`: what is decided before the loop starts,
//!   fresh identifiers, and trimming.
//! - `laws`: what holds of every session and of every scheduled send.

pub mod bootstrap;
pub mod command;
pub mod console;
pub mod effect;
pub mod guid;
pub mod laws;
pub mod ledger;
pub mod message;
pub mod schedule;
pub mod session;
pub mod store;
pub mod text;
