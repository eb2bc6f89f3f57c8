pub mod format;
pub mod uint;
