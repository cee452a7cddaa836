use alliance_bindings::{AllianceMsg, CreateAllianceMsg};
use cosmwasm_std::{Addr, Coin};

#[derive(Debug, PartialEq)]
enum HostMsg {
    Bank(u8),
    Custom(AllianceMsg),
}

impl From<AllianceMsg> for HostMsg {
    fn from(msg: AllianceMsg) -> Self {
        HostMsg::Custom(msg)
    }
}

#[test]
fn delegate_keeps_its_three_values() {
    let msg: AllianceMsg = AllianceMsg::alliance_delegate(
        Addr::unchecked("a1"),
        Addr::unchecked("v1"),
        Coin::new(100, "uusd"),
    );
    assert_eq!(
        msg,
        AllianceMsg::Delegate {
            delegator_address: Addr::unchecked("a1"),
            validator_address: Addr::unchecked("v1"),
            amount: Coin::new(100, "uusd"),
        }
    );
}

#[test]
fn delegate_validates_nothing() {
    let msg: AllianceMsg = AllianceMsg::alliance_delegate(
        Addr::unchecked(""),
        Addr::unchecked("not an address"),
        Coin::new(0, ""),
    );
    assert_eq!(
        msg,
        AllianceMsg::Delegate {
            delegator_address: Addr::unchecked(""),
            validator_address: Addr::unchecked("not an address"),
            amount: Coin::new(0, ""),
        }
    );
}

#[test]
fn undelegate_keeps_its_three_values() {
    let msg: AllianceMsg = AllianceMsg::alliance_undelegate(
        Addr::unchecked("a1"),
        Addr::unchecked("v1"),
        Coin::new(u128::MAX, "uluna"),
    );
    assert_eq!(
        msg,
        AllianceMsg::Undelegate {
            delegator_address: Addr::unchecked("a1"),
            validator_address: Addr::unchecked("v1"),
            amount: Coin::new(u128::MAX, "uluna"),
        }
    );
}

#[test]
fn redelegate_keeps_source_and_destination_apart() {
    let msg: AllianceMsg = AllianceMsg::alliance_redelegate(
        Addr::unchecked("a1"),
        Addr::unchecked("v1"),
        Addr::unchecked("v2"),
        Coin::new(7, "uusd"),
    );
    assert_eq!(
        msg,
        AllianceMsg::Redelegate {
            delegator_address: Addr::unchecked("a1"),
            validator_src_address: Addr::unchecked("v1"),
            validator_dst_address: Addr::unchecked("v2"),
            amount: Coin::new(7, "uusd"),
        }
    );
}

#[test]
fn claim_delegation_rewards_carries_its_three_values_under_its_tag() {
    let msg: AllianceMsg = AllianceMsg::alliance_claim_deligation_rewards(
        Addr::unchecked("a1"),
        Addr::unchecked("v1"),
        "uusd".to_string(),
    );
    match msg {
        AllianceMsg::ClaimDelegationRewards { delegator_address, validator_address, denom } => {
            assert_eq!(delegator_address.as_str(), "a1");
            assert_eq!(validator_address.as_str(), "v1");
            assert_eq!(denom, "uusd");
        }
        other => panic!("built {:?}", other),
    }
}

#[test]
fn every_message_type_made_from_an_alliance_msg_has_the_builders() {
    let built = HostMsg::alliance_delegate(
        Addr::unchecked("a1"),
        Addr::unchecked("v1"),
        Coin::new(100, "uusd"),
    );
    assert_eq!(
        built,
        HostMsg::Custom(AllianceMsg::Delegate {
            delegator_address: Addr::unchecked("a1"),
            validator_address: Addr::unchecked("v1"),
            amount: Coin::new(100, "uusd"),
        })
    );
    assert_ne!(built, HostMsg::Bank(0));
    assert_eq!(
        HostMsg::alliance_undelegate(
            Addr::unchecked("a1"),
            Addr::unchecked("v1"),
            Coin::new(1, "uusd")
        ),
        HostMsg::from(AllianceMsg::Undelegate {
            delegator_address: Addr::unchecked("a1"),
            validator_address: Addr::unchecked("v1"),
            amount: Coin::new(1, "uusd"),
        })
    );
    assert_eq!(
        HostMsg::alliance_redelegate(
            Addr::unchecked("a1"),
            Addr::unchecked("v1"),
            Addr::unchecked("v2"),
            Coin::new(1, "uusd")
        ),
        HostMsg::from(AllianceMsg::Redelegate {
            delegator_address: Addr::unchecked("a1"),
            validator_src_address: Addr::unchecked("v1"),
            validator_dst_address: Addr::unchecked("v2"),
            amount: Coin::new(1, "uusd"),
        })
    );
    assert_eq!(
        HostMsg::alliance_claim_deligation_rewards(
            Addr::unchecked("a1"),
            Addr::unchecked("v1"),
            "uusd".to_string()
        ),
        HostMsg::from(AllianceMsg::ClaimDelegationRewards {
            delegator_address: Addr::unchecked("a1"),
            validator_address: Addr::unchecked("v1"),
            denom: "uusd".to_string(),
        })
    );
}

#[test]
fn the_four_actions_differ() {
    let delegate: AllianceMsg = AllianceMsg::alliance_delegate(
        Addr::unchecked("a1"),
        Addr::unchecked("v1"),
        Coin::new(1, "uusd"),
    );
    let undelegate: AllianceMsg = AllianceMsg::alliance_undelegate(
        Addr::unchecked("a1"),
        Addr::unchecked("v1"),
        Coin::new(1, "uusd"),
    );
    assert_ne!(delegate, undelegate);
    assert_eq!(delegate.clone(), delegate);
}
