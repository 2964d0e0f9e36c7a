pub mod coordinator;
pub mod laws;
pub mod registry;
pub mod wire;
