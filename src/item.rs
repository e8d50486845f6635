//! The decoded record and the ways a fetch can fail.
use vstd::prelude::*;

verus! {

/// The two-field record that a successful fetch produces.
#[derive(Debug, Clone, PartialEq, Eq)]
pub struct ItemDetail {
    pub data_field: String,
    pub correct_field_name: String,
}

impl View for ItemDetail {
    /// The texts of `data_field` and `correct_field_name`, in that order.
    type V = (Seq<char>, Seq<char>);

    open spec fn view(&self) -> (Seq<char>, Seq<char>) {
        (self.data_field@, self.correct_field_name@)
    }
}

/// Why a fetch produced no record.
#[derive(Debug, Clone, Copy, PartialEq, Eq, Structural)]
pub enum FetchError {
    /// The network exchange did not complete: no response, or no full body.
    RequestError,
    /// A body arrived but does not hold the record: not JSON, not an object,
    /// or a required field absent or not a string.
    DecodeError,
}

/// A fetch outcome with the record replaced by its view.
pub open spec fn outcome_view(r: Result<ItemDetail, FetchError>) -> Result<(Seq<char>, Seq<char>), FetchError> {
    match r {
        Ok(item) => Ok(item@),
        Err(e) => Err(e),
    }
}

} // verus!
