//! The mint of the wrapped native asset.

use vstd::prelude::*;
use crate::pubkey::Pubkey;

verus! {

/// The identifier of the mint whose accounts mirror host-held balance.
pub open spec fn spec_id() -> Pubkey {
    Pubkey(
        [
            6, 155, 136, 87, 254, 171, 129, 132, 251, 104, 127, 99, 70, 24, 192, 53,
            218, 196, 57, 220, 26, 235, 59, 85, 152, 160, 240, 0, 0, 0, 0, 1,
        ],
    )
}

/// The identifier of the mint of the wrapped native asset.
pub fn id() -> (key: Pubkey)
    ensures
        key == spec_id(),
{
    Pubkey(
        [
            6, 155, 136, 87, 254, 171, 129, 132, 251, 104, 127, 99, 70, 24, 192, 53,
            218, 196, 57, 220, 26, 235, 59, 85, 152, 160, 240, 0, 0, 0, 0, 1,
        ],
    )
}

/// Whether `key` names the mint of the wrapped native asset.
pub fn check_id(key: &Pubkey) -> (r: bool)
    ensures
        r == (*key == spec_id()),
{
    let native = id();
    key == &native
}

} // verus!
