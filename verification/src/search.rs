//! Searching the text of a recording.
//!
//! A search asks the engine for the places where a needle occurs in the
//! text that shows when the recording is replayed. The engine answers with
//! a buffer of quadrilaterals and the number of them that are hits, in the
//! order in which the scan met them.

use vstd::prelude::*;
use crate::array::{adopt_records, adoption};
use crate::engine::c_int;
use crate::error::{Error, Fault, Rejection};
use crate::geometry::Quad;
use crate::text::{nul_position, terminated};

verus! {

/// The cap that stands in for a cap below one.
pub const DEFAULT_HIT_MAX: u32 = 16;

/// The number of hits the engine is asked for when the caller asks for
/// `hit_max`: a cap below one is not taken for "no results" but replaced by
/// the default.
pub open spec fn effective_hit_max(hit_max: u32) -> u32 {
    if hit_max < 1 {
        DEFAULT_HIT_MAX
    } else {
        hit_max
    }
}

/// Replaces a cap below one by the default cap.
pub fn normalize_hit_max(hit_max: u32) -> (cap: u32)
    ensures
        cap == effective_hit_max(hit_max),
{
    if hit_max < 1 {
        DEFAULT_HIT_MAX
    } else {
        hit_max
    }
}

/// Search the recording for `needle` and report at most `hit_max` hits.
///
/// `needle` is zero-terminated text and `hit_max` the cap as the engine's
/// `int`. The engine answers with a zeroed buffer that has room for
/// `hit_max` records, of which it has filled the first few, and with the
/// number of records it filled.
#[derive(Debug, PartialEq, Eq)]
pub struct SearchDisplayList {
    pub list: usize,
    pub needle: Vec<u8>,
    pub hit_max: i32,
}

/// A search call as a mathematical value.
pub struct SearchView {
    pub list: usize,
    pub needle: Seq<u8>,
    pub hit_max: i32,
}

impl View for SearchDisplayList {
    type V = SearchView;

    open spec fn view(&self) -> SearchView {
        SearchView { list: self.list, needle: self.needle@, hit_max: self.hit_max }
    }
}

/// The call that a search of the recording at `list` for `text` with the
/// cap `hit_max` leads to, or the reason why it leads to none.
///
/// Text with a zero byte in it is refused, whatever the cap. Otherwise the
/// engine is asked for the zero-terminated text with the effective cap.
pub open spec fn search_call(list: usize, text: Seq<u8>, hit_max: u32) -> Result<
    SearchView,
    Error,
> {
    match nul_position(text) {
        Some(position) => Err(
            Error::InvalidArgument(Rejection::InteriorNul { position: position as usize }),
        ),
        None => Ok(
            SearchView {
                list,
                needle: terminated(text),
                hit_max: c_int(effective_hit_max(hit_max)) as i32,
            },
        ),
    }
}

/// The number of records that the buffer of a search capped at `hit_max`
/// has room for.
pub open spec fn capacity(hit_max: i32) -> nat {
    if hit_max > 0 {
        hit_max as nat
    } else {
        0
    }
}

/// The number of records to read from the buffer that the engine handed
/// back at the address `buffer`, or `None` where there is no buffer to
/// read: after a fault, and where the address is zero.
pub open spec fn readable_records(hit_max: i32, buffer: usize, fault: Option<Fault>) -> Option<
    usize,
> {
    if fault is None && buffer != 0 {
        Some(capacity(hit_max) as usize)
    } else {
        None
    }
}

/// The part of a result buffer that a call capped at `hit_max` asked room
/// for.
pub open spec fn room(records: Seq<Quad>, hit_max: i32) -> Seq<Quad> {
    if capacity(hit_max) <= records.len() {
        records.take(capacity(hit_max) as int)
    } else {
        records
    }
}

/// What the engine's answer to a search capped at `hit_max` amounts to.
///
/// `records` is the content of the result buffer, or `None` where the
/// engine handed back no buffer. A fault, or no buffer, is an allocation
/// failure. Otherwise the hits are the first `hit_count` records, as far
/// as that count lies within the room the call asked for.
pub open spec fn search_outcome(
    hit_max: i32,
    records: Option<Seq<Quad>>,
    hit_count: i32,
    fault: Option<Fault>,
) -> Result<Seq<Quad>, Error> {
    match (fault, records) {
        (None, Some(records)) => adoption(room(records, hit_max), hit_count),
        _ => Err(Error::Allocation(fault)),
    }
}

/// The content of a result buffer as a mathematical value.
pub open spec fn buffer_view(buffer: Option<Vec<Quad>>) -> Option<Seq<Quad>> {
    match buffer {
        Some(records) => Some(records@),
        None => None,
    }
}

impl SearchDisplayList {
    /// Says whether the answer holds a buffer to read, and how many records
    /// are to be read from it.
    pub fn readable(&self, buffer: usize, fault: &Option<Fault>) -> (r: Option<usize>)
        ensures
            r == readable_records(self.hit_max, buffer, *fault),
    {
        if fault.is_none() && buffer != 0 {
            if self.hit_max > 0 {
                Some(self.hit_max as usize)
            } else {
                Some(0)
            }
        } else {
            None
        }
    }

    /// The hits, in the order the engine reported them.
    ///
    /// Fails with `Error::Allocation` where the engine raised a fault or
    /// handed back no buffer, and with `Error::InvalidArgument` where the
    /// reported count is negative or goes beyond the buffer or the cap.
    pub fn finish(self, buffer: Option<Vec<Quad>>, hit_count: i32, fault: Option<Fault>) -> (r:
        Result<Vec<Quad>, Error>)
        ensures
            match search_outcome(self.hit_max, buffer_view(buffer), hit_count, fault) {
                Ok(hits) => r matches Ok(found) && found@ == hits,
                Err(e) => r == Err::<Vec<Quad>, Error>(e),
            },
    {
        if fault.is_some() {
            return Err(Error::Allocation(fault));
        }
        match buffer {
            None => Err(Error::Allocation(fault)),
            Some(records) => {
                let mut records = records;
                let capacity: usize = if self.hit_max > 0 {
                    self.hit_max as usize
                } else {
                    0
                };
                records.truncate(capacity);
                adopt_records(records, hit_count)
            },
        }
    }
}

/// A search never yields more hits than its effective cap, whatever the
/// engine answers: never more than `hit_max` where that is at least one,
/// and never more than 16 where it is below one.
pub proof fn lemma_hits_within_cap(
    list: usize,
    text: Seq<u8>,
    hit_max: u32,
    records: Option<Seq<Quad>>,
    hit_count: i32,
    fault: Option<Fault>,
)
    ensures
        search_call(list, text, hit_max) matches Ok(call) ==> (search_outcome(
            call.hit_max,
            records,
            hit_count,
            fault,
        ) matches Ok(hits) ==> {
            &&& hits.len() <= effective_hit_max(hit_max)
            &&& hit_max >= 1 ==> hits.len() <= hit_max
            &&& hit_max < 1 ==> hits.len() <= 16
        }),
{
}

/// Success is owed to an engine that keeps its word: where it raises no
/// fault, hands back a buffer with the room the call asked for and reports
/// a count within that room, the search yields exactly the records that
/// the count covers.
pub proof fn lemma_sound_answer_succeeds(hit_max: i32, records: Seq<Quad>, hit_count: i32)
    requires
        records.len() == capacity(hit_max),
        0 <= hit_count <= capacity(hit_max),
    ensures
        search_outcome(hit_max, Some(records), hit_count, None) == Ok::<Seq<Quad>, Error>(
            records.take(hit_count as int),
        ),
{
    assert(room(records, hit_max) =~= records);
}

/// A search with a cap below one is the search with the cap 16: both lead
/// to the same call, or are refused for the same reason.
pub proof fn lemma_cap_below_one_is_default(list: usize, text: Seq<u8>, hit_max: u32)
    requires
        hit_max < 1,
    ensures
        search_call(list, text, hit_max) == search_call(list, text, 16),
{
}

/// The hits are a prefix of the result buffer: the `i`-th hit is the `i`-th
/// record, so the order of the scan is kept and nothing is sorted.
pub proof fn lemma_hits_keep_order(
    hit_max: i32,
    records: Seq<Quad>,
    hit_count: i32,
    fault: Option<Fault>,
)
    ensures
        search_outcome(hit_max, Some(records), hit_count, fault) matches Ok(hits) ==> {
            &&& hits.len() == hit_count
            &&& forall|i: int| 0 <= i < hits.len() ==> hits[i] == records[i]
        },
{
}

/// An answer that reports no hit gives the empty sequence, not an error.
pub proof fn lemma_no_hit_is_empty(hit_max: i32, records: Seq<Quad>)
    ensures
        search_outcome(hit_max, Some(records), 0, None) == Ok::<Seq<Quad>, Error>(Seq::empty()),
{
    assert(room(records, hit_max).take(0) =~= Seq::<Quad>::empty());
}

} // verus!
