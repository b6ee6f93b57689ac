//! The pop-ups: their configuration and rules, how tall they are, and how they stack.

pub mod config;
pub mod layout;
pub mod model;
pub mod rules;
pub mod stack;
