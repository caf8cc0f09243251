//! Command dispatch for chat bots.
//!
//! An incoming message is routed in three steps. The router reads a command
//! name and its arguments from the body of the message
//! ([`commands::router`]). The command table resolves the name to a
//! registered handler, or to the help that it generates from the registered
//! commands ([`commands::table`]). The invocation protocol builds the
//! parameters of the handler from the extensions of the message and calls it
//! ([`commands`], [`commands::extract`], [`commands::handlers`]).
//!
//! Beside that, [`sync`] decides when to retry joining a room after an
//! invitation, and [`utils`] holds the session record.
//!
//! The library does no input or output. What a handler wants to send is a
//! [`notice::Notice`]; what a retry waits for is a number of seconds. The
//! program around the library performs both.
//!
//! # What is proved and what is taken on trust
//!
//! Every function is verified against its contract, with these exceptions,
//! whose contracts are believed:
//!
//! - the calls into the regex crate (`replace_all` and `capture` in
//!   [`commands::router`]), into the convert_case crate (`to_snake_case` in
//!   [`commands::table`]) and into the pulldown-cmark crate (`render_html` in
//!   [`commands::table`]);
//! - the calls of `String::push`, `char::is_whitespace` and
//!   `str::to_lowercase` of the standard library (in [`text`]).
//!
//! What `String::push` does is stated; what the others return is given a
//! name in the contracts and nothing more is said of it. Implementations of
//! [`commands::extract::Tagged`], [`commands::FromMessage`] and
//! [`commands::IntoError`] that are not verified are taken to keep the
//! contracts of these traits.

pub mod commands;
pub mod errors;
pub mod notice;
pub mod sync;
pub mod text;
pub mod utils;
