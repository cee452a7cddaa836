//! Typed bindings between a contract and the host chain's Alliance module:
//! the messages and queries that a contract may send, the responses that come
//! back, and the rules that tie them together.
//!
//! - [`msg`]: the four state-changing actions, and their constructors for any
//!   message type that can be made from an [`AllianceMsg`].
//! - [`query`] and [`querier`]: the nine queries, the kind of response that
//!   each is bound to, and the dispatcher that puts a query to a contract's
//!   channel and lets only a response of the bound kind through.
//! - [`response`] and [`pagination`]: what the host answers.
//! - [`time_stamp`]: the codec between the host's RFC 3339 texts and the
//!   contract's nanosecond timestamps.
//! - [`host_types`]: the host runtime's value types, which the bindings carry
//!   and never open.
//!
//! Every function here is verified against its contract. What the proofs take
//! on trust is marked where it stands: chrono's writing and reading of
//! RFC 3339 texts in [`time_stamp`], the copying of the host runtime's values
//! in [`host_types`], and std's conversion of a value to its own type in
//! [`msg`]. Encoding to and from the wire, and the channel to the chain, are a
//! contract's own: the library hands them values and takes values back.

pub mod host_types;
pub mod msg;
pub mod pagination;
pub mod querier;
pub mod query;
pub mod response;
pub mod time_stamp;

pub use msg::{AllianceMsg, CreateAllianceMsg};
pub use pagination::{Pagination, PaginationResponse};
pub use querier::{AllianceChannel, AllianceQuerier};
pub use query::{AllianceQuery, QueryError};
pub use response::{
    AllValidatorsResponse, AllianceAllianceResponse, AllianceAlliancesDelegationsResponse,
    AllianceAlliancesResponse, AllianceAsset, AllianceParams, AllianceParamsResponse,
    AllianceResponse, DecCoin, Delegation, DelegationResponse, ResponseKind, Reward,
    RewardsResponse, SingleDelegationResponse, ValidatorResponse, WeightRange,
};
pub use time_stamp::{
    count_of_instant, deserialize_time_stamp, serialize_time_stamp, FormatError,
};
