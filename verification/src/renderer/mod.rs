pub mod entities;
pub mod resources;
