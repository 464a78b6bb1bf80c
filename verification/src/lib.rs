//! Typed building blocks for a client of a chat-bot HTTP API: the
//! objects that the API sends, the requests that it accepts with their
//! builders, and what a client decides without touching the network.
//!
//! The one piece of delicate logic is in [`types::message`]: entities
//! of a message come with offsets counted in UTF-16 code units, and
//! [`types::message::parse_entities`] resolves them to byte ranges of
//! the UTF-8 text. What it computes is stated in [`resolve`] over the
//! scalar values of the text, with the arithmetic of code units in
//! [`units`], and proved against the UTF-8 model of `vstd`.
//!
//! Nothing here does I/O. The types carry no serialisation either: a
//! program that sends and receives them keeps copies that do.

pub mod client;
pub mod command;
pub mod fields;
pub mod methods;
pub mod naming;
pub mod resolve;
pub mod types;
pub mod units;
