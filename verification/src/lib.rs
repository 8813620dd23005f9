//! The decisions of a chat bot that relays messages to a handful of services:
//! which message concerns which handler, what each handler asks of the outside
//! world and in which order, what it answers, and how far the stream of
//! updates has been worked through.  The library performs no input or output;
//! it describes the work, and its caller performs it and reports back.

pub mod dispatch;
pub mod error;
pub mod handlers;
pub mod http;
pub mod number;
pub mod outside;
pub mod telegram_api;
pub mod text;
