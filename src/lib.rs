//! A pixel-buffer window API: packed colors, drawing recorded as a list of
//! native draw operations, keyboard and mouse event translation, and bounded
//! event batches.

pub mod color;
pub mod keys;
pub mod event;
pub mod draw;
pub mod window;
pub mod batch;
