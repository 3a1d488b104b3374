//! Input-state cache and window-state model for an image-display window layer.

pub mod assoc;
pub mod input;
pub mod mouse_cache;
pub mod window;
