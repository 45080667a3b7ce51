//! The result-buffer adapter.
//!
//! The engine answers some calls with a buffer of fixed-size records and,
//! apart from it, the number of records that are valid. The adapter turns
//! the two into an owned sequence of exactly the valid records. It takes the
//! buffer by value: a buffer is adopted once.

use vstd::prelude::*;
use crate::error::{Error, Rejection};

verus! {

/// What adopting `count` records of a buffer that holds `records` yields.
///
/// A count from zero up to the buffer's capacity keeps that many records
/// from the front, in their order. Any other count is refused.
pub open spec fn adoption<T>(records: Seq<T>, count: i32) -> Result<Seq<T>, Error> {
    if 0 <= count <= records.len() {
        Ok(records.take(count as int))
    } else {
        Err(
            Error::InvalidArgument(
                Rejection::RecordCount { reported: count, capacity: records.len() as usize },
            ),
        )
    }
}

/// Takes over `buffer` and keeps its first `count` records.
pub fn adopt_records<T>(buffer: Vec<T>, count: i32) -> (r: Result<Vec<T>, Error>)
    ensures
        match adoption(buffer@, count) {
            Ok(kept) => r matches Ok(records) && records@ == kept,
            Err(e) => r == Err::<Vec<T>, Error>(e),
        },
{
    let capacity = buffer.len();
    if count < 0 || count as usize > capacity {
        return Err(Error::InvalidArgument(Rejection::RecordCount { reported: count, capacity }));
    }
    let mut records = buffer;
    records.truncate(count as usize);
    Ok(records)
}

} // verus!
