pub mod device;
pub mod hw_render;
pub mod pixel;
pub mod video;
