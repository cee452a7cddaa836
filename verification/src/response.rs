//! What the Alliance module answers: its values and its responses.

use crate::pagination::PaginationResponse;
use cosmwasm_std::{Addr, Coin, Decimal256, Timestamp};
use vstd::prelude::*;

verus! {

/// The parameters of the Alliance module.
#[derive(Clone, Debug, PartialEq)]
pub struct AllianceParams {
    pub reward_delay_time: u64,
    pub take_rate_claim_interval: u64,
    /// The host's text of the time, as it came: the bindings do not decode it.
    pub last_take_rate_claim_time: String,
}

/// A fractional amount of a token.
#[derive(Clone, Debug, PartialEq)]
pub struct DecCoin {
    /// Absent where the context already names the denom.
    pub denom: Option<String>,
    pub amount: Decimal256,
}

#[derive(Clone, Debug, PartialEq)]
pub struct ValidatorResponse {
    pub validator_addr: Addr,
    pub total_delegation_shares: Vec<DecCoin>,
    pub validator_shares: Vec<DecCoin>,
    pub total_staked: Vec<DecCoin>,
}

#[derive(Clone, Debug, PartialEq)]
pub struct AllValidatorsResponse {
    pub validators: Vec<ValidatorResponse>,
    pub pagination: Option<PaginationResponse>,
}

#[derive(Clone, Debug, PartialEq)]
pub struct AllianceParamsResponse {
    pub params: AllianceParams,
}

#[derive(Clone, Debug, PartialEq)]
pub struct WeightRange {
    pub min: Decimal256,
    pub max: Decimal256,
}

/// An asset that the Alliance module has registered.
#[derive(Clone, Debug, PartialEq)]
pub struct AllianceAsset {
    pub denom: String,
    pub reward_weight: Decimal256,
    pub consensus_weight: Decimal256,
    pub take_rate: Decimal256,
    pub total_tokens: Decimal256,
    pub total_validator_shares: Decimal256,
    /// On the wire an RFC 3339 text: see [`crate::time_stamp`].
    pub reward_start_time: Timestamp,
    pub reward_change_rate: Decimal256,
    pub reward_change_interval: u64,
    /// The host's text of the time, as it came: the bindings do not decode it.
    pub last_reward_change_time: String,
    pub reward_weight_range: WeightRange,
    /// Absent on assets that were registered before the host kept the flag.
    pub is_initialized: Option<bool>,
}

#[derive(Clone, Debug, PartialEq)]
pub struct AllianceAllianceResponse {
    pub alliance: AllianceAsset,
}

#[derive(Clone, Debug, PartialEq)]
pub struct AllianceAlliancesResponse {
    pub alliances: Vec<AllianceAsset>,
    pub pagination: Option<PaginationResponse>,
}

#[derive(Clone, Debug, PartialEq)]
pub struct AllianceAlliancesDelegationsResponse {
    pub delegations: Option<Vec<DelegationResponse>>,
    pub pagination: Option<PaginationResponse>,
}

#[derive(Clone, Debug, PartialEq)]
pub struct RewardsResponse {
    pub rewards: Vec<Coin>,
}

#[derive(Clone, Debug, PartialEq)]
pub struct SingleDelegationResponse {
    pub delegation: DelegationResponse,
}

#[derive(Clone, Debug, PartialEq)]
pub struct DelegationResponse {
    pub delegation: Delegation,
    pub balance: Coin,
}

/// One delegation. The two addresses and the denom are absent where the query
/// that led here already fixed them.
#[derive(Clone, Debug, PartialEq)]
pub struct Delegation {
    pub delegator_address: Option<Addr>,
    pub validator_address: Option<Addr>,
    pub denom: Option<String>,
    pub shares: Decimal256,
    /// In the host's order; an entry may be an empty place.
    pub reward_history: Option<Vec<Option<Reward>>>,
    pub last_reward_claim_height: Option<u64>,
}

#[derive(Clone, Debug, PartialEq)]
pub struct Reward {
    pub denom: Option<String>,
    pub index: Decimal256,
}

/// The kinds of response: one for each response type.
#[derive(Clone, Copy, Debug, PartialEq, Eq, Structural)]
pub enum ResponseKind {
    Alliance,
    Alliances,
    AlliancesDelegations,
    SingleDelegation,
    Rewards,
    Params,
    Validator,
    AllValidators,
}

/// A response of any kind, as it comes off the query channel.
#[derive(Clone, Debug, PartialEq)]
pub enum AllianceResponse {
    Alliance(AllianceAllianceResponse),
    Alliances(AllianceAlliancesResponse),
    AlliancesDelegations(AllianceAlliancesDelegationsResponse),
    SingleDelegation(SingleDelegationResponse),
    Rewards(RewardsResponse),
    Params(AllianceParamsResponse),
    Validator(ValidatorResponse),
    AllValidators(AllValidatorsResponse),
}

impl AllianceResponse {
    /// The kind of this response.
    pub open spec fn spec_kind(&self) -> ResponseKind {
        match self {
            AllianceResponse::Alliance(_) => ResponseKind::Alliance,
            AllianceResponse::Alliances(_) => ResponseKind::Alliances,
            AllianceResponse::AlliancesDelegations(_) => ResponseKind::AlliancesDelegations,
            AllianceResponse::SingleDelegation(_) => ResponseKind::SingleDelegation,
            AllianceResponse::Rewards(_) => ResponseKind::Rewards,
            AllianceResponse::Params(_) => ResponseKind::Params,
            AllianceResponse::Validator(_) => ResponseKind::Validator,
            AllianceResponse::AllValidators(_) => ResponseKind::AllValidators,
        }
    }

    /// The kind of this response.
    #[verifier::when_used_as_spec(spec_kind)]
    pub fn kind(&self) -> (kind: ResponseKind)
        ensures
            kind == self.spec_kind(),
    {
        match self {
            AllianceResponse::Alliance(_) => ResponseKind::Alliance,
            AllianceResponse::Alliances(_) => ResponseKind::Alliances,
            AllianceResponse::AlliancesDelegations(_) => ResponseKind::AlliancesDelegations,
            AllianceResponse::SingleDelegation(_) => ResponseKind::SingleDelegation,
            AllianceResponse::Rewards(_) => ResponseKind::Rewards,
            AllianceResponse::Params(_) => ResponseKind::Params,
            AllianceResponse::Validator(_) => ResponseKind::Validator,
            AllianceResponse::AllValidators(_) => ResponseKind::AllValidators,
        }
    }
}

} // verus!
