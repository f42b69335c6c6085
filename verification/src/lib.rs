pub mod clock;
pub mod event_loop;
pub mod input;
pub mod renderer;
pub mod window;
