//! Typed pixel formats and frame buffers for libretro cores, with the device
//! and hardware-rendering option types that accompany them.

pub mod retro;
