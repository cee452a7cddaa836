//! The envelope that every list query shares.

use cosmwasm_std::Binary;
use vstd::prelude::*;

verus! {

/// Where a list query starts and how much it returns: by cursor (`key`) or by
/// `offset`, at most `limit` entries, forwards or in `reverse`.
#[derive(Clone, Debug, PartialEq)]
pub struct Pagination {
    /// The cursor that an earlier response gave as its `next_key`. Its bytes
    /// are the host's: a client replays them as they came.
    pub key: Option<Binary>,
    pub offset: Option<u64>,
    pub limit: Option<u64>,
    /// Whether the response is to count all entries.
    pub count_total: Option<bool>,
    pub reverse: Option<bool>,
}

/// Where a list query stopped.
#[derive(Clone, Debug, PartialEq)]
pub struct PaginationResponse {
    /// The cursor of the following page; absent when the list is done.
    pub next_key: Option<Binary>,
    /// The number of all entries; present when the request asked to count.
    pub total: Option<u64>,
}

} // verus!
