//! The relay: its settings, the addresses it listens on, and its registry.

pub mod config;
pub mod registry;
pub mod startup;
