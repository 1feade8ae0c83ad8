//! Database id types.
use vstd::prelude::*;

verus! {

/// The id of a row.
pub type IdType = i32;

/// The id of a row in a large table, such as a transaction id.
pub type LongIdType = i64;

} // verus!
