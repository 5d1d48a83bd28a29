//! The render state of a small interactive triangle demo: the background
//! color and pipeline selection driven by input events, the surface size kept
//! through resizes, the choice of surface configuration, and what each frame
//! does with the outcome of acquiring its texture.

pub mod color;
pub mod state;
pub mod surface;
