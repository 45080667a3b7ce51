//! The display list: a recording of drawing operations, owned by the engine
//! and replayed as often as asked.

use vstd::prelude::*;
use vstd::string::StringSliceAdditionalSpecFns;
use crate::engine::{
    c_int, to_c_int, BoundDisplayList, DisplayListIsEmpty, DisplayListToPixmap,
    DisplayListToTextPage, DropDisplayList, NewDisplayList, NewImageFromDisplayList,
    RunDisplayList,
};
use crate::error::Error;
use crate::geometry::{Matrix, Rect, Scalar};
use crate::resource::{Colorspace, Cookie, Device, TextPageFlags};
use crate::search::{normalize_hit_max, search_call, SearchDisplayList};
use crate::text::{encode, is_c_text};

verus! {

/// The owner of one reference to a recording.
///
/// The recording is named by its address in the engine. No operation below
/// changes the recording; each describes a call for the engine to perform.
/// The owner is not `Clone`: one owner stands for one reference, given back
/// by `release`.
///
/// An owner can be moved to another thread and shared between threads, as
/// any address can. That the recording behind it may be replayed from
/// several threads at once is a promise of the engine: it is taken on
/// trust here, not shown.
#[derive(Debug)]
pub struct DisplayList {
    inner: usize,
}

impl DisplayList {
    /// The address of the recording; zero once the reference is given back.
    pub closed spec fn raw(&self) -> usize {
        self.inner
    }

    /// Whether the owner still holds its reference.
    pub open spec fn is_live(&self) -> bool {
        self.raw() != 0
    }

    /// Adopts a recording that the engine has already made.
    ///
    /// The caller vouches that `handle` is a recording of this engine and
    /// that the reference it hands over is counted there; this cannot be
    /// checked here.
    pub fn from_raw(handle: usize) -> (list: DisplayList)
        ensures
            list.raw() == handle,
    {
        DisplayList { inner: handle }
    }

    /// The address of the recording.
    pub fn as_raw(&self) -> (handle: usize)
        ensures
            handle == self.raw(),
    {
        self.inner
    }

    /// A fresh, empty recording scoped to `media_box`.
    pub fn new(media_box: Rect) -> (call: NewDisplayList)
        ensures
            call == (NewDisplayList { media_box }),
    {
        NewDisplayList { media_box }
    }

    /// The rectangle that encloses all recorded drawing operations.
    pub fn bounds(&self) -> (call: BoundDisplayList)
        ensures
            call == (BoundDisplayList { list: self.raw() }),
    {
        BoundDisplayList { list: self.inner }
    }

    /// A raster image of the recording under `ctm`, in the color space `cs`,
    /// with an alpha channel if `alpha`.
    pub fn to_pixmap(&self, ctm: &Matrix, cs: &Colorspace, alpha: bool) -> (call:
        DisplayListToPixmap)
        ensures
            call == (DisplayListToPixmap {
                list: self.raw(),
                ctm: *ctm,
                colorspace: cs.inner,
                alpha,
            }),
    {
        DisplayListToPixmap { list: self.inner, ctm: *ctm, colorspace: cs.inner, alpha }
    }

    /// The text of the recording, extracted under the options `opts`.
    pub fn to_text_page(&self, opts: TextPageFlags) -> (call: DisplayListToTextPage)
        ensures
            call.list == self.raw(),
            call.flags == c_int(opts.bits),
    {
        DisplayListToTextPage { list: self.inner, flags: to_c_int(opts.bits) }
    }

    /// A reusable image of the recording, `width` by `height`.
    pub fn to_image(&self, width: Scalar, height: Scalar) -> (call: NewImageFromDisplayList)
        ensures
            call == (NewImageFromDisplayList { list: self.raw(), width, height }),
    {
        NewImageFromDisplayList { list: self.inner, width, height }
    }

    /// A replay of the whole recording against `device`, transformed by
    /// `ctm` and clipped to `area`, that nothing can cut short.
    pub fn run(&self, device: &Device, ctm: &Matrix, area: Rect) -> (call: RunDisplayList)
        ensures
            call == (RunDisplayList {
                list: self.raw(),
                device: device.dev,
                ctm: *ctm,
                area,
                cookie: None,
            }),
    {
        RunDisplayList { list: self.inner, device: device.dev, ctm: *ctm, area, cookie: None }
    }

    /// The same replay as `run`, which the holder of `cookie` can cut short.
    pub fn run_with_cookie(
        &self,
        device: &Device,
        ctm: &Matrix,
        area: Rect,
        cookie: &Cookie,
    ) -> (call: RunDisplayList)
        ensures
            call == (RunDisplayList {
                list: self.raw(),
                device: device.dev,
                ctm: *ctm,
                area,
                cookie: Some(cookie.inner),
            }),
    {
        RunDisplayList {
            list: self.inner,
            device: device.dev,
            ctm: *ctm,
            area,
            cookie: Some(cookie.inner),
        }
    }

    /// Whether the recording holds no drawing operation.
    pub fn is_empty(&self) -> (call: DisplayListIsEmpty)
        ensures
            call == (DisplayListIsEmpty { list: self.raw() }),
    {
        DisplayListIsEmpty { list: self.inner }
    }

    /// The places where `needle` occurs in the text of the recording, at
    /// most `hit_max` of them, or 16 where `hit_max` is below one.
    ///
    /// A needle that holds a zero byte is refused with
    /// `Error::InvalidArgument` and leads to no call: nothing is searched.
    pub fn search(&self, needle: &str, hit_max: u32) -> (r: Result<SearchDisplayList, Error>)
        ensures
            match search_call(self.raw(), needle.spec_bytes(), hit_max) {
                Ok(asked) => r matches Ok(call) && call@ == asked,
                Err(e) => r == Err::<SearchDisplayList, Error>(e),
            },
            r is Err <==> needle@.contains('\0'),
            r matches Ok(call) ==> is_c_text(call.needle@),
    {
        match encode(needle) {
            Ok(encoded) => Ok(
                SearchDisplayList {
                    list: self.inner,
                    needle: encoded,
                    hit_max: to_c_int(normalize_hit_max(hit_max)),
                },
            ),
            Err(e) => Err(e),
        }
    }

    /// Gives the reference back.
    ///
    /// A live owner yields the call that releases its reference and holds
    /// none afterwards, so a second `release` yields nothing. The engine
    /// frees the recording when its last reference is gone.
    pub fn release(&mut self) -> (call: Option<DropDisplayList>)
        ensures
            !final(self).is_live(),
            old(self).is_live() ==> call == Some(DropDisplayList { list: old(self).raw() }),
            !old(self).is_live() ==> call is None,
    {
        let list = self.inner;
        self.inner = 0;
        if list != 0 {
            Some(DropDisplayList { list })
        } else {
            None
        }
    }
}

} // verus!
