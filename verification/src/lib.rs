//! Hue-band video segmentation: the decisions of a frame-processing loop.
//!
//! A camera frame is masked by a narrow band of hues, the masks of the last
//! few frames are collapsed into one stable silhouette, and its outlines are
//! drawn on a canvas. This library holds what is decided along the way:
//!
//! - `frame`: frames as plain pixel buffers;
//! - `hue`: the candidate hues, the pointer that cycles through them and the
//!   band around the selected hue;
//! - `mask`: which pixels of a frame lie in a band;
//! - `buffer`: the window of recent masks;
//! - `pipeline`: the loop itself as a state machine that names each piece of
//!   outside work (capture, colour conversion, denoising, thresholding,
//!   contour extraction, drawing, display, key poll) when it is due.

pub mod buffer;
pub mod frame;
pub mod hue;
pub mod mask;
pub mod pipeline;
