//! Locates the language-server binary for an editor host.
//!
//! The library decides; the host acts. A [`resolver::BinaryResolver`] is a
//! state machine that answers every [`protocol::Event`] of the host with the
//! next [`protocol::Action`] to perform, until it hands out the path of the
//! binary or the reason why there is none.

pub mod platform;
pub mod error;
pub mod protocol;
pub mod machine;
pub mod resolver;
pub mod host;
pub mod chain;
pub mod laws;
pub mod command;
