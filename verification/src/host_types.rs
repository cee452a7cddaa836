//! The host runtime's value types that the bindings carry.
//!
//! The bindings never look inside an address, a coin, a decimal, a cursor or a
//! block time: they take each from the caller and hand it on, or take it from
//! the host and hand it back. The types are therefore declared to the verifier
//! as opaque, together with the one operation the bindings need of them, the
//! copy.

use cosmwasm_std::{Addr, Binary, Coin, Decimal256, Timestamp};
use vstd::prelude::*;

verus! {

/// `cosmwasm_std::Addr`, an account's or a validator's address: carried, never opened.
#[verifier::external_type_specification]
#[verifier::external_body]
pub struct ExAddr(Addr);

/// `cosmwasm_std::Coin`, a denom with a whole amount: carried, never opened.
#[verifier::external_type_specification]
#[verifier::external_body]
pub struct ExCoin(Coin);

/// `cosmwasm_std::Decimal256`, a decimal of 18 fractional digits: carried, never opened.
#[verifier::external_type_specification]
#[verifier::external_body]
pub struct ExDecimal256(Decimal256);

/// `cosmwasm_std::Binary`, a string of bytes: carried, never opened.
#[verifier::external_type_specification]
#[verifier::external_body]
pub struct ExBinary(Binary);

/// `cosmwasm_std::Timestamp`, a block time: carried, never opened.
#[verifier::external_type_specification]
#[verifier::external_body]
pub struct ExTimestamp(Timestamp);

/// `Clone::clone` of `cosmwasm_std::Addr`, which the type derives: trusted to
/// give an equal address.
pub assume_specification[ <Addr as Clone>::clone ](address: &Addr) -> (copy: Addr)
    ensures
        copy == *address,
;

/// `Clone::clone` of `cosmwasm_std::Coin`, which the type derives: trusted to
/// give an equal coin.
pub assume_specification[ <Coin as Clone>::clone ](coin: &Coin) -> (copy: Coin)
    ensures
        copy == *coin,
;

/// `Clone::clone` of `cosmwasm_std::Decimal256`, which the type derives:
/// trusted to give an equal decimal.
pub assume_specification[ <Decimal256 as Clone>::clone ](decimal: &Decimal256) -> (copy:
    Decimal256)
    ensures
        copy == *decimal,
;

/// `Clone::clone` of `cosmwasm_std::Binary`, which the type derives: trusted
/// to give equal bytes.
pub assume_specification[ <Binary as Clone>::clone ](bytes: &Binary) -> (copy: Binary)
    ensures
        copy == *bytes,
;

/// `Clone::clone` of `cosmwasm_std::Timestamp`, which the type derives:
/// trusted to give an equal time.
pub assume_specification[ <Timestamp as Clone>::clone ](time: &Timestamp) -> (copy: Timestamp)
    ensures
        copy == *time,
;

} // verus!
