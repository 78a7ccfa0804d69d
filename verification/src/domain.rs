//! Internal value types and the conversions that guard them.
//!
//! The external interface speaks in wide wire types (64-bit asset ids,
//! 128-bit balances, 20-byte addresses); the ledger speaks in narrower
//! internal ones. The conversion policy is deliberately field-specific:
//! asset ids narrow fallibly (an out-of-range id is an explicit error,
//! never a silent truncation), while balances narrow with saturating
//! semantics (an out-of-range value clamps to the internal maximum).

use vstd::prelude::*;

use crate::revert::{Field, Revert};

verus! {

/// The ledger's internal balance unit. External `uint128` balance values
/// saturate into this type.
pub type Balance = u64;

/// The ledger's internal asset identifier. The external interface carries
/// asset ids as `uint64`; only values that fit 32 bits are internal ids.
#[derive(Clone, Copy, PartialEq, Eq, Structural, Debug)]
pub struct AssetId(pub u32);

/// A 20-byte external (EVM-style) address.
#[derive(Clone, Copy, PartialEq, Eq, Debug)]
pub struct EvmAddress(pub [u8; 20]);

impl View for EvmAddress {
    type V = Seq<u8>;

    open spec fn view(&self) -> Seq<u8> {
        self.0@
    }
}

/// A 32-byte internal account identifier.
#[derive(Clone, Copy, PartialEq, Eq, Debug)]
pub struct AccountId(pub [u8; 32]);

impl View for AccountId {
    type V = Seq<u8>;

    open spec fn view(&self) -> Seq<u8> {
        self.0@
    }
}

/// Whether an external 64-bit asset id fits the internal representation.
pub open spec fn fits_internal_id(id: u64) -> bool {
    id <= u32::MAX
}

/// Narrows an external asset id to the internal representation, failing
/// explicitly — scoped to the `id` field — when the value is out of range.
pub fn convert_asset_id(id: u64) -> (r: Result<AssetId, Revert>)
    ensures
        fits_internal_id(id) ==> r == Ok::<AssetId, Revert>(AssetId(id as u32)),
        !fits_internal_id(id) ==> r == Err::<AssetId, Revert>(Revert::ValueTooLarge(Field::Id)),
{
    if id <= u32::MAX as u64 {
        Ok(AssetId(id as u32))
    } else {
        Err(Revert::ValueTooLarge(Field::Id))
    }
}

/// The first internal id of the range reserved for externally-derived
/// assets; ids at or above it may not be newly created here.
pub const RESERVED_ID_FLOOR: u32 = 0x8000_0000;

/// The admissibility rule for newly created assets: id `0` names the native
/// token and the upper range is reserved for externally-derived assets, so
/// an id is admissible exactly when it lies strictly between the two.
pub open spec fn admissible_for_creation(id: u32) -> bool {
    0 < id < RESERVED_ID_FLOOR
}

/// Whether a new asset may be created under this id.
pub fn is_allow_to_create(id: AssetId) -> (b: bool)
    ensures
        b == admissible_for_creation(id.0),
{
    0 < id.0 && id.0 < RESERVED_ID_FLOOR
}

/// The saturating narrowing of an external balance value.
pub open spec fn saturated_balance(v: u128) -> Balance {
    if v > u64::MAX {
        u64::MAX
    } else {
        v as u64
    }
}

/// Narrows an external 128-bit balance to the internal balance type,
/// clamping out-of-range values to the internal maximum; never an error.
pub fn saturate_balance(v: u128) -> (b: Balance)
    ensures
        b == saturated_balance(v),
        v > u64::MAX ==> b == u64::MAX,
        v <= u64::MAX ==> b == v,
{
    if v > u64::MAX as u128 {
        u64::MAX
    } else {
        v as u64
    }
}

/// Every external balance value over the internal maximum converts to
/// exactly that maximum: the conversion saturates and is never an error.
pub proof fn lemma_balance_saturates(v: u128)
    requires
        v > u64::MAX,
    ensures
        saturated_balance(v) == u64::MAX,
{
}

} // verus!
