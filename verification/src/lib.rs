pub mod display;
pub mod timer;
