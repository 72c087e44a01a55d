//! Decision logic of a GPU display backend for a text editor.
//!
//! The host's redisplay engine calls one entry point per display operation.
//! Each function here takes the plain values that such an entry point reads
//! from the host's structures and returns what has to be drawn or changed,
//! so that the surrounding adapter only unpacks, calls and forwards.

pub mod capture;
pub mod color;
pub mod cursor;
pub mod features;
pub mod font;
pub mod frame;
pub mod fringe;
pub mod geometry;
pub mod image;
pub mod resources;
pub mod window;
