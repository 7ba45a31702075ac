//! A small HTTP service skeleton around one shared database session: a
//! bootstrap sequence that connects, signs in and selects a scope, an
//! application state shared by every request, one handler, and the
//! translation of handler errors into responses.

pub mod bootstrap;
pub mod error;
pub mod reply;
pub mod service;
