//! A streaming scan over a native tick-data source, for a columnar query engine.
//!
//! `schema` fixes the three-column tick schema, `buffer` the reused transfer buffer
//! and its conversion into immutable batches, `scan` the stream's state machine
//! with its release-exactly-once and row-order laws, and `plan` the scan operator
//! and table provider that the engine sees.
use vstd::prelude::*;

pub mod buffer;
pub mod error;
pub mod plan;
pub mod scan;
pub mod schema;

verus! {

} // verus!
