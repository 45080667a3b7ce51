//! What the engine is asked, and what its answers mean.
//!
//! Each type here describes one call into the engine completely: the entry
//! point is the type, the arguments are the fields. Whoever performs the
//! call hands the engine's answer to `finish`, which turns it into the
//! result the caller of the binding sees. A call is finished once, by value.
//!
//! Objects are named by their addresses. Zero is the address of no object.

use vstd::prelude::*;
use crate::display_list::DisplayList;
use crate::error::{Error, Fault};
use crate::geometry::{Matrix, Rect, Scalar};
use crate::resource::{Image, Pixmap, TextPage};

verus! {

/// Allocate an empty recording scoped to `media_box`.
#[derive(Debug, PartialEq, Eq)]
pub struct NewDisplayList {
    pub media_box: Rect,
}

/// Compute the rectangle that encloses the recording. The engine's answer
/// is the result as it stands.
#[derive(Debug, PartialEq, Eq)]
pub struct BoundDisplayList {
    pub list: usize,
}

/// Tell whether the recording holds no drawing operation.
#[derive(Debug, PartialEq, Eq)]
pub struct DisplayListIsEmpty {
    pub list: usize,
}

/// Replay the recording through a rasterizer into a new pixmap.
#[derive(Debug, PartialEq, Eq)]
pub struct DisplayListToPixmap {
    pub list: usize,
    pub ctm: Matrix,
    pub colorspace: usize,
    pub alpha: bool,
}

/// Replay the recording through a text collector into a new text page.
/// `flags` holds the option bits as the engine's `int`.
#[derive(Debug, PartialEq, Eq)]
pub struct DisplayListToTextPage {
    pub list: usize,
    pub flags: i32,
}

/// Make a reusable image of the given size from the recording.
#[derive(Debug, PartialEq, Eq)]
pub struct NewImageFromDisplayList {
    pub list: usize,
    pub width: Scalar,
    pub height: Scalar,
}

/// Replay the recording against `device`, transformed by `ctm` and clipped
/// to `area`. With a `cookie` the engine polls that token between drawing
/// operations and stops early once it asks for that.
#[derive(Debug, PartialEq, Eq)]
pub struct RunDisplayList {
    pub list: usize,
    pub device: usize,
    pub ctm: Matrix,
    pub area: Rect,
    pub cookie: Option<usize>,
}

/// Release one reference to the recording. There is no answer.
#[derive(Debug, PartialEq, Eq)]
pub struct DropDisplayList {
    pub list: usize,
}

/// The engine's `int` that has the bits of `value`: the value itself up to
/// `i32::MAX`, and the value less 2^32 above that.
pub open spec fn c_int(value: u32) -> int {
    if value <= i32::MAX {
        value as int
    } else {
        value - 0x1_0000_0000
    }
}

/// Reads the bits of `value` as the engine's `int`.
pub fn to_c_int(value: u32) -> (r: i32)
    ensures
        r == c_int(value),
{
    proof {
        assert(value > 0x7fff_ffffu32 ==> (value as i32) as int == value as int - 0x1_0000_0000)
            by (bit_vector);
    }
    value as i32
}

/// What a call that hands back an object amounts to.
///
/// The engine's answer is the object's address and the fault it raised, if
/// any. There is an object only if the engine raised no fault and the
/// address is not zero; otherwise all there is to know is the fault.
pub open spec fn object_outcome(handle: usize, fault: Option<Fault>) -> Result<
    usize,
    Option<Fault>,
> {
    if fault is None && handle != 0 {
        Ok(handle)
    } else {
        Err(fault)
    }
}

/// Tells an object from a failure in the answer to a call.
pub fn object(handle: usize, fault: Option<Fault>) -> (r: Result<usize, Option<Fault>>)
    ensures
        r == object_outcome(handle, fault),
{
    if fault.is_none() && handle != 0 {
        Ok(handle)
    } else {
        Err(fault)
    }
}

impl NewDisplayList {
    /// The new recording, or `Error::Allocation` where the engine made none.
    /// No list exists for an answer that holds a fault or no object.
    pub fn finish(self, handle: usize, fault: Option<Fault>) -> (r: Result<DisplayList, Error>)
        ensures
            match object_outcome(handle, fault) {
                Ok(list) => r matches Ok(created) && created.raw() == list && created.is_live(),
                Err(why) => r == Err::<DisplayList, Error>(Error::Allocation(why)),
            },
    {
        match object(handle, fault) {
            Ok(list) => Ok(DisplayList::from_raw(list)),
            Err(why) => Err(Error::Allocation(why)),
        }
    }
}

impl DisplayListIsEmpty {
    /// Whether the recording is empty: the engine answers with a positive
    /// number for yes.
    pub fn finish(self, answer: i32) -> (empty: bool)
        ensures
            empty == (answer > 0),
    {
        answer > 0
    }
}

impl DisplayListToPixmap {
    /// The new pixmap, or `Error::Render` where the engine made none.
    pub fn finish(self, handle: usize, fault: Option<Fault>) -> (r: Result<Pixmap, Error>)
        ensures
            match object_outcome(handle, fault) {
                Ok(pixmap) => r == Ok::<Pixmap, Error>(Pixmap { inner: pixmap }),
                Err(why) => r == Err::<Pixmap, Error>(Error::Render(why)),
            },
    {
        match object(handle, fault) {
            Ok(pixmap) => Ok(Pixmap { inner: pixmap }),
            Err(why) => Err(Error::Render(why)),
        }
    }
}

impl DisplayListToTextPage {
    /// The new text page, or `Error::Render` where the engine made none.
    pub fn finish(self, handle: usize, fault: Option<Fault>) -> (r: Result<TextPage, Error>)
        ensures
            match object_outcome(handle, fault) {
                Ok(page) => r == Ok::<TextPage, Error>(TextPage { inner: page }),
                Err(why) => r == Err::<TextPage, Error>(Error::Render(why)),
            },
    {
        match object(handle, fault) {
            Ok(page) => Ok(TextPage { inner: page }),
            Err(why) => Err(Error::Render(why)),
        }
    }
}

impl NewImageFromDisplayList {
    /// The new image, or `Error::Render` where the engine made none.
    pub fn finish(self, handle: usize, fault: Option<Fault>) -> (r: Result<Image, Error>)
        ensures
            match object_outcome(handle, fault) {
                Ok(image) => r == Ok::<Image, Error>(Image { inner: image }),
                Err(why) => r == Err::<Image, Error>(Error::Render(why)),
            },
    {
        match object(handle, fault) {
            Ok(image) => Ok(Image { inner: image }),
            Err(why) => Err(Error::Render(why)),
        }
    }
}

impl RunDisplayList {
    /// Success unless the engine raised a fault during playback.
    ///
    /// A replay that a cookie cut short raises none and so succeeds: what
    /// reached the device by then is for the caller to interpret.
    pub fn finish(self, fault: Option<Fault>) -> (r: Result<(), Error>)
        ensures
            fault is None ==> r == Ok::<(), Error>(()),
            fault is Some ==> r == Err::<(), Error>(Error::Render(fault)),
    {
        if fault.is_none() {
            Ok(())
        } else {
            Err(Error::Render(fault))
        }
    }
}

} // verus!
