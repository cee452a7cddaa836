//! The read-only queries that the Alliance module answers, the kind of
//! response that each is bound to, and the check that an answer is of that
//! kind.

use crate::pagination::Pagination;
use crate::response::{
    AllValidatorsResponse, AllianceAllianceResponse, AllianceAlliancesDelegationsResponse,
    AllianceAlliancesResponse, AllianceParamsResponse, AllianceResponse, ResponseKind,
    RewardsResponse, SingleDelegationResponse, ValidatorResponse,
};
use cosmwasm_std::Addr;
use vstd::prelude::*;

verus! {

/// A query to the Alliance module.
#[derive(Clone, Debug, PartialEq)]
pub enum AllianceQuery {
    /// One registered asset.
    Alliance { denom: String },
    /// The registered assets, page by page.
    Alliances { pagination: Option<Pagination> },
    /// All delegations, page by page.
    AlliancesDelegations { pagination: Option<Pagination> },
    /// The delegations of one delegator with one validator, page by page.
    AlliancesDelegationByValidator {
        delegator_addr: Addr,
        validator_addr: Addr,
        pagination: Option<Pagination>,
    },
    /// One delegation.
    Delegation { delegator_addr: Addr, validator_addr: Addr, denom: String },
    /// What one delegation has earned and not yet claimed.
    DelegationRewards { delegator_addr: Addr, validator_addr: Addr, denom: String },
    /// The module's parameters.
    Params {  },
    /// One validator.
    Validator { validator_addr: Addr },
    /// The validators, page by page.
    Validators { pagination: Option<Pagination> },
}

impl AllianceQuery {
    /// The kind of response that this query is bound to.
    pub open spec fn spec_response_kind(&self) -> ResponseKind {
        match self {
            AllianceQuery::Alliance { .. } => ResponseKind::Alliance,
            AllianceQuery::Alliances { .. } => ResponseKind::Alliances,
            AllianceQuery::AlliancesDelegations { .. } => ResponseKind::AlliancesDelegations,
            AllianceQuery::AlliancesDelegationByValidator { .. } => {
                ResponseKind::AlliancesDelegations
            },
            AllianceQuery::Delegation { .. } => ResponseKind::SingleDelegation,
            AllianceQuery::DelegationRewards { .. } => ResponseKind::Rewards,
            AllianceQuery::Params {  } => ResponseKind::Params,
            AllianceQuery::Validator { .. } => ResponseKind::Validator,
            AllianceQuery::Validators { .. } => ResponseKind::AllValidators,
        }
    }

    /// The kind of response that this query is bound to: what the payload
    /// that answers it is to be decoded as.
    #[verifier::when_used_as_spec(spec_response_kind)]
    pub fn response_kind(&self) -> (kind: ResponseKind)
        ensures
            kind == self.spec_response_kind(),
    {
        match self {
            AllianceQuery::Alliance { .. } => ResponseKind::Alliance,
            AllianceQuery::Alliances { .. } => ResponseKind::Alliances,
            AllianceQuery::AlliancesDelegations { .. } => ResponseKind::AlliancesDelegations,
            AllianceQuery::AlliancesDelegationByValidator { .. } => {
                ResponseKind::AlliancesDelegations
            },
            AllianceQuery::Delegation { .. } => ResponseKind::SingleDelegation,
            AllianceQuery::DelegationRewards { .. } => ResponseKind::Rewards,
            AllianceQuery::Params {  } => ResponseKind::Params,
            AllianceQuery::Validator { .. } => ResponseKind::Validator,
            AllianceQuery::Validators { .. } => ResponseKind::AllValidators,
        }
    }
}

/// Why a query gave no response.
#[derive(Clone, Debug, PartialEq)]
pub enum QueryError {
    /// The host refused the query: it knows no such asset, validator or
    /// delegation, or could not be reached.
    Rejected { reason: String },
    /// The host's payload does not decode as the response that the query is
    /// bound to.
    SchemaMismatch { reason: String },
    /// The channel handed back a response of another kind than the one that
    /// the query is bound to.
    UnexpectedResponse { expected: ResponseKind, found: ResponseKind },
}

/// What the channel hands back for one query: the response that the host's
/// payload decoded to, or why there is none.
pub type Answer = Result<AllianceResponse, QueryError>;

/// What a dispatcher hands on of `answer`, the channel's answer to a query
/// that is bound to responses of kind `expected`: a response of that kind as
/// it is, an error as it is, and for a response of another kind the error
/// that names both kinds.
pub open spec fn accepted(expected: ResponseKind, answer: Answer) -> Answer {
    match answer {
        Ok(response) => if response.kind() == expected {
            Ok(response)
        } else {
            Err(QueryError::UnexpectedResponse { expected, found: response.kind() })
        },
        Err(error) => Err(error),
    }
}

/// Each query is bound to one kind of response, and only a response of that
/// kind passes: what is passed on is the channel's own response where it is of
/// the bound kind, the channel's own error where it gave one, and the error
/// that names both kinds where the response is of another kind.
pub proof fn lemma_only_the_bound_kind_passes(query: AllianceQuery, answer: Answer)
    ensures
        match accepted(query.response_kind(), answer) {
            Ok(response) => answer == Ok::<AllianceResponse, QueryError>(response)
                && response.kind() == query.response_kind(),
            Err(error) => match answer {
                Ok(other) => other.kind() != query.response_kind() && error == (
                    QueryError::UnexpectedResponse {
                        expected: query.response_kind(),
                        found: other.kind(),
                    }
                ),
                Err(refusal) => error == refusal,
            },
        },
{
}

/// A typed result for one registered asset, as the tagged answer that it
/// narrows.
pub open spec fn tagged_alliance(response: Result<AllianceAllianceResponse, QueryError>) -> Answer {
    match response {
        Ok(inner) => Ok(AllianceResponse::Alliance(inner)),
        Err(error) => Err(error),
    }
}

/// Narrows the channel's answer to one registered asset: the response where the
/// answer holds one of that kind, the answer's error where it holds an error,
/// and [`QueryError::UnexpectedResponse`] where it holds a response of another
/// kind.
pub fn expect_alliance(answer: Answer) -> (response: Result<AllianceAllianceResponse, QueryError>)
    ensures
        tagged_alliance(response) == accepted(ResponseKind::Alliance, answer),
{
    match answer {
        Ok(AllianceResponse::Alliance(inner)) => Ok(inner),
        Ok(other) => Err(
            QueryError::UnexpectedResponse {
                expected: ResponseKind::Alliance,
                found: other.kind(),
            },
        ),
        Err(error) => Err(error),
    }
}

/// A typed result for a page of registered assets, as the tagged answer that it
/// narrows.
pub open spec fn tagged_alliances(
    response: Result<AllianceAlliancesResponse, QueryError>,
) -> Answer {
    match response {
        Ok(inner) => Ok(AllianceResponse::Alliances(inner)),
        Err(error) => Err(error),
    }
}

/// Narrows the channel's answer to a page of registered assets: the response
/// where the answer holds one of that kind, the answer's error where it holds
/// an error, and [`QueryError::UnexpectedResponse`] where it holds a response
/// of another kind.
pub fn expect_alliances(answer: Answer) -> (response: Result<AllianceAlliancesResponse, QueryError>)
    ensures
        tagged_alliances(response) == accepted(ResponseKind::Alliances, answer),
{
    match answer {
        Ok(AllianceResponse::Alliances(inner)) => Ok(inner),
        Ok(other) => Err(
            QueryError::UnexpectedResponse {
                expected: ResponseKind::Alliances,
                found: other.kind(),
            },
        ),
        Err(error) => Err(error),
    }
}

/// A typed result for a page of delegations, as the tagged answer that it
/// narrows.
pub open spec fn tagged_alliances_delegations(
    response: Result<AllianceAlliancesDelegationsResponse, QueryError>,
) -> Answer {
    match response {
        Ok(inner) => Ok(AllianceResponse::AlliancesDelegations(inner)),
        Err(error) => Err(error),
    }
}

/// Narrows the channel's answer to a page of delegations: the response where
/// the answer holds one of that kind, the answer's error where it holds an
/// error, and [`QueryError::UnexpectedResponse`] where it holds a response of
/// another kind.
pub fn expect_alliances_delegations(
    answer: Answer,
) -> (response: Result<AllianceAlliancesDelegationsResponse, QueryError>)
    ensures
        tagged_alliances_delegations(response) == accepted(
            ResponseKind::AlliancesDelegations,
            answer,
        ),
{
    match answer {
        Ok(AllianceResponse::AlliancesDelegations(inner)) => Ok(inner),
        Ok(other) => Err(
            QueryError::UnexpectedResponse {
                expected: ResponseKind::AlliancesDelegations,
                found: other.kind(),
            },
        ),
        Err(error) => Err(error),
    }
}

/// A typed result for one delegation, as the tagged answer that it narrows.
pub open spec fn tagged_single_delegation(
    response: Result<SingleDelegationResponse, QueryError>,
) -> Answer {
    match response {
        Ok(inner) => Ok(AllianceResponse::SingleDelegation(inner)),
        Err(error) => Err(error),
    }
}

/// Narrows the channel's answer to one delegation: the response where the
/// answer holds one of that kind, the answer's error where it holds an error,
/// and [`QueryError::UnexpectedResponse`] where it holds a response of another
/// kind.
pub fn expect_single_delegation(
    answer: Answer,
) -> (response: Result<SingleDelegationResponse, QueryError>)
    ensures
        tagged_single_delegation(response) == accepted(ResponseKind::SingleDelegation, answer),
{
    match answer {
        Ok(AllianceResponse::SingleDelegation(inner)) => Ok(inner),
        Ok(other) => Err(
            QueryError::UnexpectedResponse {
                expected: ResponseKind::SingleDelegation,
                found: other.kind(),
            },
        ),
        Err(error) => Err(error),
    }
}

/// A typed result for the rewards of one delegation, as the tagged answer that
/// it narrows.
pub open spec fn tagged_rewards(response: Result<RewardsResponse, QueryError>) -> Answer {
    match response {
        Ok(inner) => Ok(AllianceResponse::Rewards(inner)),
        Err(error) => Err(error),
    }
}

/// Narrows the channel's answer to the rewards of one delegation: the response
/// where the answer holds one of that kind, the answer's error where it holds
/// an error, and [`QueryError::UnexpectedResponse`] where it holds a response
/// of another kind.
pub fn expect_rewards(answer: Answer) -> (response: Result<RewardsResponse, QueryError>)
    ensures
        tagged_rewards(response) == accepted(ResponseKind::Rewards, answer),
{
    match answer {
        Ok(AllianceResponse::Rewards(inner)) => Ok(inner),
        Ok(other) => Err(
            QueryError::UnexpectedResponse {
                expected: ResponseKind::Rewards,
                found: other.kind(),
            },
        ),
        Err(error) => Err(error),
    }
}

/// A typed result for the module's parameters, as the tagged answer that it
/// narrows.
pub open spec fn tagged_params(response: Result<AllianceParamsResponse, QueryError>) -> Answer {
    match response {
        Ok(inner) => Ok(AllianceResponse::Params(inner)),
        Err(error) => Err(error),
    }
}

/// Narrows the channel's answer to the module's parameters: the response where
/// the answer holds one of that kind, the answer's error where it holds an
/// error, and [`QueryError::UnexpectedResponse`] where it holds a response of
/// another kind.
pub fn expect_params(answer: Answer) -> (response: Result<AllianceParamsResponse, QueryError>)
    ensures
        tagged_params(response) == accepted(ResponseKind::Params, answer),
{
    match answer {
        Ok(AllianceResponse::Params(inner)) => Ok(inner),
        Ok(other) => Err(
            QueryError::UnexpectedResponse {
                expected: ResponseKind::Params,
                found: other.kind(),
            },
        ),
        Err(error) => Err(error),
    }
}

/// A typed result for one validator, as the tagged answer that it narrows.
pub open spec fn tagged_validator(response: Result<ValidatorResponse, QueryError>) -> Answer {
    match response {
        Ok(inner) => Ok(AllianceResponse::Validator(inner)),
        Err(error) => Err(error),
    }
}

/// Narrows the channel's answer to one validator: the response where the answer
/// holds one of that kind, the answer's error where it holds an error, and
/// [`QueryError::UnexpectedResponse`] where it holds a response of another
/// kind.
pub fn expect_validator(answer: Answer) -> (response: Result<ValidatorResponse, QueryError>)
    ensures
        tagged_validator(response) == accepted(ResponseKind::Validator, answer),
{
    match answer {
        Ok(AllianceResponse::Validator(inner)) => Ok(inner),
        Ok(other) => Err(
            QueryError::UnexpectedResponse {
                expected: ResponseKind::Validator,
                found: other.kind(),
            },
        ),
        Err(error) => Err(error),
    }
}

/// A typed result for a page of validators, as the tagged answer that it
/// narrows.
pub open spec fn tagged_all_validators(
    response: Result<AllValidatorsResponse, QueryError>,
) -> Answer {
    match response {
        Ok(inner) => Ok(AllianceResponse::AllValidators(inner)),
        Err(error) => Err(error),
    }
}

/// Narrows the channel's answer to a page of validators: the response where the
/// answer holds one of that kind, the answer's error where it holds an error,
/// and [`QueryError::UnexpectedResponse`] where it holds a response of another
/// kind.
pub fn expect_all_validators(
    answer: Answer,
) -> (response: Result<AllValidatorsResponse, QueryError>)
    ensures
        tagged_all_validators(response) == accepted(ResponseKind::AllValidators, answer),
{
    match answer {
        Ok(AllianceResponse::AllValidators(inner)) => Ok(inner),
        Ok(other) => Err(
            QueryError::UnexpectedResponse {
                expected: ResponseKind::AllValidators,
                found: other.kind(),
            },
        ),
        Err(error) => Err(error),
    }
}

} // verus!
