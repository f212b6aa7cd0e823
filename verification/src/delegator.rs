//! The delegation holder: the actor that owns the delegation of one position.

pub mod msg;
pub mod contract;
