//! What a completed network exchange means for the fetch.
use vstd::prelude::*;
use crate::item::{ItemDetail, FetchError, outcome_view};
use crate::decode::{item_from_body, decode_item};

verus! {

/// How the network exchange of one fetch ended.
pub enum Exchange {
    /// The server responded and its whole body arrived.
    Body(Vec<u8>),
    /// No response, or the body did not arrive in full (connection refused,
    /// unreachable host, connection dropped).
    TransportFailed,
}

/// The result of a fetch whose exchange ended as `exchange`: a request error
/// when the transport failed, and otherwise whatever the body decodes to.
pub fn finish_fetch(exchange: &Exchange) -> (r: Result<ItemDetail, FetchError>)
    ensures
        exchange is TransportFailed ==> r == Err::<ItemDetail, FetchError>(FetchError::RequestError),
        exchange matches Exchange::Body(b) ==> outcome_view(r) == item_from_body(b@),
{
    match exchange {
        Exchange::Body(b) => decode_item(b.as_slice()),
        Exchange::TransportFailed => Err(FetchError::RequestError),
    }
}

} // verus!
