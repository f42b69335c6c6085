pub mod types;
pub mod input_manager;
pub mod actions;
pub mod legacy;
