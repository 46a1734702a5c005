//! How an asset's share of the protocol relates to its targets.

use crate::primitives::{amount_checked_pow, amount_limit, Address, Amount};
use vstd::arithmetic::power::pow;
use vstd::prelude::*;

verus! {

/// Where an asset's current concentration stands against its target band.
#[derive(Debug, Clone, Copy, PartialEq, Eq)]
pub enum WeightStatus {
    Overweight,
    Underweight,
    InRange,
    Undertemined,
}

impl WeightStatus {
    /// The text under which a status is shown.
    pub open spec fn label_spec(self) -> Seq<char> {
        match self {
            WeightStatus::Overweight => "Overweight"@,
            WeightStatus::Underweight => "Underweight"@,
            WeightStatus::InRange => "InRange"@,
            WeightStatus::Undertemined => "Undetermined"@,
        }
    }

    /// The text under which a status is shown.
    pub fn label(&self) -> (text: String)
        ensures
            text@ == self.label_spec(),
    {
        match self {
            WeightStatus::Overweight => "Overweight".to_owned(),
            WeightStatus::Underweight => "Underweight".to_owned(),
            WeightStatus::InRange => "InRange".to_owned(),
            WeightStatus::Undertemined => "Undetermined".to_owned(),
        }
    }
}

/// The address of the MKR token, whose contract does not report its symbol
/// as text.
pub const MKR_ADDRESS: [u8; 20] = [
    0x9f, 0x8f, 0x72, 0xaa, 0x93, 0x04, 0xc8, 0xb5, 0x93, 0xd5, 0x55, 0xf1, 0x2e, 0xf6, 0x58, 0x9c,
    0xc3, 0xa5, 0x79, 0xa2,
];

/// The symbol of an asset that must not be asked for its symbol: `MKR` for
/// the MKR token, and `None` for every other asset.
pub fn known_symbol(asset: &Address) -> (symbol: Option<String>)
    ensures
        match symbol {
            Some(text) => asset.bytes == MKR_ADDRESS && text@ == "MKR"@,
            None => asset.bytes != MKR_ADDRESS,
        },
{
    let mkr = Address { bytes: MKR_ADDRESS };
    if asset.same(&mkr) {
        Some("MKR".to_owned())
    } else {
        None
    }
}

/// One whole token of an asset with `decimals` decimals, in the asset's
/// smallest unit: the amount for which a price is quoted. `None` where ten to
/// that power passes 2^256 - 1.
pub fn one_token(decimals: u8) -> (unit: Option<Amount>)
    ensures
        match unit {
            Some(amount) => amount.value() == pow(10, decimals as nat),
            None => pow(10, decimals as nat) >= amount_limit(),
        },
{
    let ten = Amount::from_u64(10);
    let exponent = Amount::from_u64(decimals as u64);
    amount_checked_pow(&ten, &exponent)
}

} // verus!
