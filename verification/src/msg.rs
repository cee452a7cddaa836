//! The state-changing actions that a contract may ask of the Alliance module.

use cosmwasm_std::{Addr, Coin};
use vstd::prelude::*;
use vstd::std_specs::convert::FromSpec;

verus! {

/// A message to the Alliance module.
///
/// The host dispatches on the variant and on the names of its fields: both are
/// part of the wire contract.
#[derive(Clone, Debug, PartialEq)]
pub enum AllianceMsg {
    /// Stake `amount` from `delegator_address` with `validator_address`.
    Delegate { delegator_address: Addr, validator_address: Addr, amount: Coin },
    /// Begin to unstake `amount`.
    Undelegate { delegator_address: Addr, validator_address: Addr, amount: Coin },
    /// Move a stake of `amount` from one validator to another without
    /// unstaking it.
    Redelegate {
        delegator_address: Addr,
        validator_src_address: Addr,
        validator_dst_address: Addr,
        amount: Coin,
    },
    /// Claim what one delegation has earned in one reward denom.
    ClaimDelegationRewards { delegator_address: Addr, validator_address: Addr, denom: String },
}

/// The four Alliance actions as constructors of any message type that can be
/// made from an [`AllianceMsg`].
///
/// Each constructor builds the variant from its arguments as they are and
/// converts it with `From`: the result is what `Self::from` gives for exactly
/// that message, which is `Self::from_spec` of it wherever the verifier knows
/// what the conversion does. Nothing is validated here: whether an amount is
/// positive, an address well formed or the sender entitled is the host's to
/// decide.
pub trait CreateAllianceMsg: From<AllianceMsg> {
    fn alliance_delegate(
        delegator_address: Addr,
        validator_address: Addr,
        amount: Coin,
    ) -> (msg: Self)
        ensures
            call_ensures(
                <Self as From<AllianceMsg>>::from,
                (AllianceMsg::Delegate { delegator_address, validator_address, amount },),
                msg,
            ),
            Self::obeys_from_spec() ==> msg == Self::from_spec(
                AllianceMsg::Delegate { delegator_address, validator_address, amount },
            ),
    {
        Self::from(
            AllianceMsg::Delegate { delegator_address, validator_address, amount },
        )
    }

    fn alliance_undelegate(
        delegator_address: Addr,
        validator_address: Addr,
        amount: Coin,
    ) -> (msg: Self)
        ensures
            call_ensures(
                <Self as From<AllianceMsg>>::from,
                (AllianceMsg::Undelegate { delegator_address, validator_address, amount },),
                msg,
            ),
            Self::obeys_from_spec() ==> msg == Self::from_spec(
                AllianceMsg::Undelegate { delegator_address, validator_address, amount },
            ),
    {
        Self::from(
            AllianceMsg::Undelegate { delegator_address, validator_address, amount },
        )
    }

    fn alliance_redelegate(
        delegator_address: Addr,
        validator_src_address: Addr,
        validator_dst_address: Addr,
        amount: Coin,
    ) -> (msg: Self)
        ensures
            call_ensures(
                <Self as From<AllianceMsg>>::from,
                (
                    AllianceMsg::Redelegate {
                        delegator_address,
                        validator_src_address,
                        validator_dst_address,
                        amount,
                    },
                ),
                msg,
            ),
            Self::obeys_from_spec() ==> msg == Self::from_spec(
                AllianceMsg::Redelegate {
                    delegator_address,
                    validator_src_address,
                    validator_dst_address,
                    amount,
                },
            ),
    {
        Self::from(
            AllianceMsg::Redelegate {
                delegator_address,
                validator_src_address,
                validator_dst_address,
                amount,
            },
        )
    }

    fn alliance_claim_deligation_rewards(
        delegator_address: Addr,
        validator_address: Addr,
        denom: String,
    ) -> (msg: Self)
        ensures
            call_ensures(
                <Self as From<AllianceMsg>>::from,
                (
                    AllianceMsg::ClaimDelegationRewards {
                        delegator_address,
                        validator_address,
                        denom,
                    },
                ),
                msg,
            ),
            Self::obeys_from_spec() ==> msg == Self::from_spec(
                AllianceMsg::ClaimDelegationRewards {
                    delegator_address,
                    validator_address,
                    denom,
                },
            ),
    {
        Self::from(
            AllianceMsg::ClaimDelegationRewards {
                delegator_address,
                validator_address,
                denom,
            },
        )
    }
}

impl<M> CreateAllianceMsg for M where M: From<AllianceMsg> {

}

/// `From::from` of a type to itself, std's `impl<T> From<T> for T`: trusted to
/// return its argument unchanged, as std documents it. With it an
/// [`AllianceMsg`] is its own message type: `AllianceMsg::alliance_delegate`
/// gives the `Delegate` variant of its three arguments.
pub assume_specification<T>[ <T as From<T>>::from ](t: T) -> (same: T)
    ensures
        same == t,
;

/// Builder correctness, for an [`AllianceMsg`] as its own message type:
/// whatever `alliance_delegate` returns for a delegator, a validator and an
/// amount is the `Delegate` variant of exactly those three values.
pub proof fn lemma_delegate_keeps_its_values(
    delegator_address: Addr,
    validator_address: Addr,
    amount: Coin,
    msg: AllianceMsg,
)
    requires
        call_ensures(
            <AllianceMsg as CreateAllianceMsg>::alliance_delegate,
            (delegator_address, validator_address, amount),
            msg,
        ),
    ensures
        msg == (AllianceMsg::Delegate { delegator_address, validator_address, amount }),
{
}

/// Whatever `alliance_undelegate` returns as an [`AllianceMsg`] is the
/// `Undelegate` variant of exactly its three arguments.
pub proof fn lemma_undelegate_keeps_its_values(
    delegator_address: Addr,
    validator_address: Addr,
    amount: Coin,
    msg: AllianceMsg,
)
    requires
        call_ensures(
            <AllianceMsg as CreateAllianceMsg>::alliance_undelegate,
            (delegator_address, validator_address, amount),
            msg,
        ),
    ensures
        msg == (AllianceMsg::Undelegate { delegator_address, validator_address, amount }),
{
}

/// Whatever `alliance_redelegate` returns as an [`AllianceMsg`] is the
/// `Redelegate` variant of exactly its four arguments, source and destination
/// in their places.
pub proof fn lemma_redelegate_keeps_its_values(
    delegator_address: Addr,
    validator_src_address: Addr,
    validator_dst_address: Addr,
    amount: Coin,
    msg: AllianceMsg,
)
    requires
        call_ensures(
            <AllianceMsg as CreateAllianceMsg>::alliance_redelegate,
            (delegator_address, validator_src_address, validator_dst_address, amount),
            msg,
        ),
    ensures
        msg == (AllianceMsg::Redelegate {
            delegator_address,
            validator_src_address,
            validator_dst_address,
            amount,
        }),
{
}

/// Whatever `alliance_claim_deligation_rewards` returns as an [`AllianceMsg`]
/// is the `ClaimDelegationRewards` variant of exactly its three arguments.
pub proof fn lemma_claim_delegation_rewards_keeps_its_values(
    delegator_address: Addr,
    validator_address: Addr,
    denom: String,
    msg: AllianceMsg,
)
    requires
        call_ensures(
            <AllianceMsg as CreateAllianceMsg>::alliance_claim_deligation_rewards,
            (delegator_address, validator_address, denom),
            msg,
        ),
    ensures
        msg == (AllianceMsg::ClaimDelegationRewards {
            delegator_address,
            validator_address,
            denom,
        }),
{
}

} // verus!
