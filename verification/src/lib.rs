//! A thread-safe bridge between a callback-driven ICE engine and channel-based consumers.
//!
//! The engine runs on one thread and reports through callbacks. This crate holds the part of
//! the bridge that decides: which call the engine gets for which message, which consumer
//! hears of which event, when a wait for a connectivity state is over, and what is left
//! behind when a stream is built, fails to build, or goes away. It makes no call into the
//! engine itself. Each function that stands for such a call returns it as a value, and takes
//! the engine's answer as an argument.

pub mod agent;
pub mod builder;
pub mod candidate;
pub mod channel;
pub mod component;
pub mod ice;
pub mod message;
pub mod state;
pub mod stream;
