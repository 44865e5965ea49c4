//! A procedurally generated pattern of 512 by 512 pixels, with pan and zoom.
//!
//! Each pixel is a closed-form function of its coordinates, of a frame counter
//! that advances once per rendered frame, and of the current pan offset and
//! zoom factor. This crate holds the view, the counter and the frame
//! generator. A host owns the window, the pixel buffer and the event loop; it
//! also supplies the one step that needs floating point, the shift amount of
//! each pixel.

pub mod counter;
pub mod frame;
pub mod input;
pub mod pixel;
pub mod view;
