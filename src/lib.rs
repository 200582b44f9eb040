//! Background-image layer of a terminal renderer: a cached image loader, the
//! full-viewport quad it is drawn on, and the scaling uniform that keeps the
//! image's aspect ratio as the viewport changes.
//!
//! The graphics calls themselves are described as command sequences that the
//! embedding application executes against its own graphics context.
pub mod decode;
pub mod quad;
pub mod renderer;
