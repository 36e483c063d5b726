pub mod common;
pub mod demo;
pub mod display;
pub mod joystick;
pub mod protocol;
pub mod queue;
pub mod raster;
pub mod render;
pub mod system;
pub mod ticks;
