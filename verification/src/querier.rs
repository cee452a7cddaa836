//! The query dispatcher: one typed method for each query, over any channel
//! that can put a query to the chain.

use crate::pagination::Pagination;
use crate::query::{
    accepted, expect_all_validators, expect_alliance, expect_alliances,
    expect_alliances_delegations, expect_params, expect_rewards, expect_single_delegation,
    expect_validator, tagged_all_validators, tagged_alliance, tagged_alliances,
    tagged_alliances_delegations, tagged_params, tagged_rewards, tagged_single_delegation,
    tagged_validator, AllianceQuery, Answer, QueryError,
};
use crate::response::{
    AllValidatorsResponse, AllianceAllianceResponse, AllianceAlliancesDelegationsResponse,
    AllianceAlliancesResponse, AllianceParamsResponse, RewardsResponse,
    SingleDelegationResponse, ValidatorResponse,
};
use cosmwasm_std::Addr;
use vstd::prelude::*;

verus! {

/// A channel to the chain: what can put one Alliance query to the host and
/// decode the payload that comes back.
///
/// This is the one thing that a contract supplies. Nothing is promised of an
/// answer here: the host decides it.
pub trait AllianceChannel {
    /// Puts `query` to the chain and hands back the response that the payload
    /// decodes to, as the kind `query.response_kind()`; or the error, where
    /// the host refuses the query or the payload does not decode.
    fn query_alliance(&self, query: AllianceQuery) -> Answer;
}

/// The nine Alliance queries, over every [`AllianceChannel`].
///
/// Each method builds its query from its arguments as they are, puts it to
/// the channel, and narrows the answer to the response type that the query is
/// bound to. Its contract says so: the result, tagged with its kind, is what
/// [`accepted`] passes on of some answer that the channel gave to exactly
/// that query. Nothing is kept between calls and nothing is tried again: a
/// failure goes to the caller as it came.
pub trait AllianceQuerier: AllianceChannel {
    /// One registered asset, by its denom.
    fn query_alliance_alliance(
        &self,
        denom: String,
    ) -> (response: Result<AllianceAllianceResponse, QueryError>)
        ensures
            ({
                let query = AllianceQuery::Alliance { denom };
                exists|answer: Answer|
                    #[trigger] call_ensures(Self::query_alliance, (self, query), answer)
                        && tagged_alliance(response) == accepted(
                        query.response_kind(),
                        answer,
                    )
            }),
    {
        let query = AllianceQuery::Alliance { denom };
        expect_alliance(self.query_alliance(query))
    }

    /// A page of the registered assets.
    fn query_alliance_alliances(
        &self,
        pagination: Option<Pagination>,
    ) -> (response: Result<AllianceAlliancesResponse, QueryError>)
        ensures
            ({
                let query = AllianceQuery::Alliances { pagination };
                exists|answer: Answer|
                    #[trigger] call_ensures(Self::query_alliance, (self, query), answer)
                        && tagged_alliances(response) == accepted(
                        query.response_kind(),
                        answer,
                    )
            }),
    {
        let query = AllianceQuery::Alliances { pagination };
        expect_alliances(self.query_alliance(query))
    }

    /// A page of all delegations.
    fn query_alliance_alliances_delegations(
        &self,
        pagination: Option<Pagination>,
    ) -> (response: Result<AllianceAlliancesDelegationsResponse, QueryError>)
        ensures
            ({
                let query = AllianceQuery::AlliancesDelegations { pagination };
                exists|answer: Answer|
                    #[trigger] call_ensures(Self::query_alliance, (self, query), answer)
                        && tagged_alliances_delegations(response) == accepted(
                        query.response_kind(),
                        answer,
                    )
            }),
    {
        let query = AllianceQuery::AlliancesDelegations { pagination };
        expect_alliances_delegations(self.query_alliance(query))
    }

    /// A page of the delegations of one delegator with one validator.
    fn query_alliance_alliances_delegation_by_validator(
        &self,
        delegator_addr: Addr,
        validator_addr: Addr,
        pagination: Option<Pagination>,
    ) -> (response: Result<AllianceAlliancesDelegationsResponse, QueryError>)
        ensures
            ({
                let query = AllianceQuery::AlliancesDelegationByValidator {
                    delegator_addr,
                    validator_addr,
                    pagination,
                };
                exists|answer: Answer|
                    #[trigger] call_ensures(Self::query_alliance, (self, query), answer)
                        && tagged_alliances_delegations(response) == accepted(
                        query.response_kind(),
                        answer,
                    )
            }),
    {
        let query = AllianceQuery::AlliancesDelegationByValidator {
            delegator_addr,
            validator_addr,
            pagination,
        };
        expect_alliances_delegations(self.query_alliance(query))
    }

    /// One delegation.
    fn query_alliance_delegation(
        &self,
        delegator_addr: Addr,
        validator_addr: Addr,
        denom: String,
    ) -> (response: Result<SingleDelegationResponse, QueryError>)
        ensures
            ({
                let query = AllianceQuery::Delegation {
                    delegator_addr,
                    validator_addr,
                    denom,
                };
                exists|answer: Answer|
                    #[trigger] call_ensures(Self::query_alliance, (self, query), answer)
                        && tagged_single_delegation(response) == accepted(
                        query.response_kind(),
                        answer,
                    )
            }),
    {
        let query = AllianceQuery::Delegation {
            delegator_addr,
            validator_addr,
            denom,
        };
        expect_single_delegation(self.query_alliance(query))
    }

    /// What one delegation has earned and not yet claimed.
    fn query_alliance_delegation_rewards(
        &self,
        delegator_addr: Addr,
        validator_addr: Addr,
        denom: String,
    ) -> (response: Result<RewardsResponse, QueryError>)
        ensures
            ({
                let query = AllianceQuery::DelegationRewards {
                    delegator_addr,
                    validator_addr,
                    denom,
                };
                exists|answer: Answer|
                    #[trigger] call_ensures(Self::query_alliance, (self, query), answer)
                        && tagged_rewards(response) == accepted(
                        query.response_kind(),
                        answer,
                    )
            }),
    {
        let query = AllianceQuery::DelegationRewards {
            delegator_addr,
            validator_addr,
            denom,
        };
        expect_rewards(self.query_alliance(query))
    }

    /// The module's parameters.
    fn query_alliance_params(&self) -> (response: Result<AllianceParamsResponse, QueryError>)
        ensures
            ({
                let query = AllianceQuery::Params {  };
                exists|answer: Answer|
                    #[trigger] call_ensures(Self::query_alliance, (self, query), answer)
                        && tagged_params(response) == accepted(
                        query.response_kind(),
                        answer,
                    )
            }),
    {
        let query = AllianceQuery::Params {  };
        expect_params(self.query_alliance(query))
    }

    /// One validator.
    fn query_alliance_validator(
        &self,
        validator_addr: Addr,
    ) -> (response: Result<ValidatorResponse, QueryError>)
        ensures
            ({
                let query = AllianceQuery::Validator { validator_addr };
                exists|answer: Answer|
                    #[trigger] call_ensures(Self::query_alliance, (self, query), answer)
                        && tagged_validator(response) == accepted(
                        query.response_kind(),
                        answer,
                    )
            }),
    {
        let query = AllianceQuery::Validator { validator_addr };
        expect_validator(self.query_alliance(query))
    }

    /// A page of the validators.
    fn query_alliance_validators(
        &self,
        pagination: Option<Pagination>,
    ) -> (response: Result<AllValidatorsResponse, QueryError>)
        ensures
            ({
                let query = AllianceQuery::Validators { pagination };
                exists|answer: Answer|
                    #[trigger] call_ensures(Self::query_alliance, (self, query), answer)
                        && tagged_all_validators(response) == accepted(
                        query.response_kind(),
                        answer,
                    )
            }),
    {
        let query = AllianceQuery::Validators { pagination };
        expect_all_validators(self.query_alliance(query))
    }
}

impl<C> AllianceQuerier for C where C: AllianceChannel {

}

} // verus!
