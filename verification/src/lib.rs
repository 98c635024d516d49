//! Command bridge for a dataset front-end.
//!
//! The library turns the outcome of one HTTP exchange with the dataset
//! server into the value handed back to the front-end: a status string for
//! adding or removing a dataset, or the list of dataset names carried in a
//! listing response. The HTTP requests themselves are issued by the
//! surrounding application; the library receives the decoded response body
//! (or the fact that none could be had) as a plain value.

use vstd::prelude::*;

pub mod bridge;
pub mod lines;

pub use crate::bridge::add_dataset;
pub use crate::bridge::remove_dataset;
pub use crate::bridge::all_datasets;
pub use crate::bridge::run_write;
pub use crate::bridge::run_query;
pub use crate::bridge::dataset_url;
pub use crate::bridge::listing_url;
pub use crate::lines::split_nonempty_lines;

verus! {

/// The status string returned when a request could not be completed.
pub open spec fn error_text() -> Seq<char> {
    "Error"@
}

} // verus!
