//! The decision core of a display-list binding.
//!
//! A display list is a recording of page-drawing operations that a rendering
//! engine owns and replays. This crate holds everything a binding decides
//! about such a recording and nothing the engine does: it says exactly what
//! the engine is to be asked ([`engine`]), and what the engine's answer
//! means to the caller. The code that performs the calls lives outside and
//! hands plain values in and out.

pub mod array;
pub mod display_list;
pub mod engine;
pub mod error;
pub mod geometry;
pub mod resource;
pub mod search;
pub mod text;

pub use crate::display_list::DisplayList;
pub use crate::error::{Error, Fault, Rejection};
pub use crate::geometry::{Matrix, Point, Quad, Rect, Scalar};
pub use crate::resource::{Colorspace, Cookie, Device, Image, Pixmap, TextPage, TextPageFlags};
