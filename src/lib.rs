//! An indexed-colour raster graphics engine for DOS programs, with the
//! register-level logic of the DOS and BIOS bindings it runs on.
//!
//! The engine decodes palette-based bitmap files, keeps rectangular pixel
//! buffers (canvases), composites them with opaque, keyed and masked blits,
//! and moves sprites without redrawing the whole screen.
pub mod brick;
pub mod canvas;
pub mod console;
pub mod error;
pub mod error_code;
pub mod file;
pub mod geometry;
pub mod image;
pub mod misc;
pub mod mouse;
pub mod palette;
pub mod process;
pub mod random;
pub mod sprite;
pub mod video;
