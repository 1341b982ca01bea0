//! Decisions of a window surface's life: its first configuration, its
//! reconfiguration when the window is resized or a frame was dropped, and the
//! commands of a frame that clears the screen.

pub mod frame;
pub mod resize;
pub mod setup;
pub mod surface;
pub mod tick;
