pub mod manager;
pub mod registry;
