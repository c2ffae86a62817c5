pub mod frame_loop;
pub mod renderer_backend;
pub mod state;
pub mod surface;
