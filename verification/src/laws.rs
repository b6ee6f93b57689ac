//! What the programs promise as a whole, each promise proved from what the other modules state.

pub mod configuring;
pub mod deciding;
pub mod events;
pub mod keys;
pub mod notation;
pub mod operations;
pub mod popups;
pub mod saying;
pub mod serving;
pub mod showing;
pub mod statements;
pub mod storing;
pub mod texts;
