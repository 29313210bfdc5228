//! Turns the description of an object's methods into an actor: a message enum,
//! a handle that talks to a background worker through a bounded mailbox, the
//! dispatch function, the worker loop and the error enum, all as Rust source text.
pub mod bar;
pub mod classify;
pub mod config;
pub mod emit;
pub mod generate;
pub mod model;
pub mod naming;
pub mod text;
