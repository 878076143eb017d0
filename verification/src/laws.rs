//! What the operations promise of their inputs and results, from the bytes of a
//! post to what is published, answered and relayed.

pub mod discovery;
pub mod message;
pub mod payload;
pub mod readings;
pub mod relay;
pub mod settings;
