//! The bridge's failure taxonomy.
//!
//! Every failure a call can meet — malformed input, a value outside the
//! internal numeric domain, a domain rejection, an exhausted gas budget, or
//! a failure reported by the ledger itself — is represented as a [`Revert`]
//! value that is returned to the caller. No failure aborts the process.

use vstd::prelude::*;

verus! {

/// Names the argument a field-scoped failure refers to.
#[derive(Clone, Copy, PartialEq, Eq, Structural, Debug)]
pub enum Field {
    Selector,
    Id,
    Admin,
    MinBalance,
    Name,
    Symbol,
    Decimals,
    Issuer,
    Freezer,
    Owner,
}

/// Domain-specific rejections that carry a fixed custom message.
#[derive(Clone, Copy, PartialEq, Eq, Structural, Debug)]
pub enum CustomReason {
    /// The asset id is reserved and may not be newly created.
    InvalidAssetId,
}

/// An error reported by the asset ledger for a dispatched request.
///
/// The bridge treats it as opaque: the code is carried through to the caller
/// untouched, for diagnostics, and is never interpreted here.
#[derive(Clone, Copy, PartialEq, Eq, Structural, Debug)]
pub struct LedgerError {
    pub code: u32,
}

/// A structured revert value: the single failure type every stage of the
/// pipeline short-circuits to.
#[derive(Clone, Copy, PartialEq, Eq, Structural, Debug)]
pub enum Revert {
    /// The four-byte selector matches none of the exposed operations.
    UnknownSelector,
    /// The argument buffer is too short for the named field.
    ReadOutOfBounds(Field),
    /// A dynamic-data offset points outside the argument buffer.
    PointerOutOfBounds(Field),
    /// A length-prefixed byte string declares a length over the bound.
    OversizedBytes(Field),
    /// A numeric value does not fit the field's internal domain.
    ValueTooLarge(Field),
    /// A domain rule rejected the request before dispatch.
    Custom(CustomReason),
    /// The remaining gas does not cover a required charge.
    OutOfGas,
    /// The ledger rejected the dispatched request; its own error is
    /// passed through untouched.
    Ledger(LedgerError),
}

impl Field {
    /// The field's name as it appears in revert messages.
    pub open spec fn name_spec(self) -> Seq<char> {
        match self {
            Field::Selector => "selector"@,
            Field::Id => "id"@,
            Field::Admin => "admin"@,
            Field::MinBalance => "min_balance"@,
            Field::Name => "name"@,
            Field::Symbol => "symbol"@,
            Field::Decimals => "decimals"@,
            Field::Issuer => "issuer"@,
            Field::Freezer => "freezer"@,
            Field::Owner => "owner"@,
        }
    }

    /// Returns the field's name.
    pub fn name(&self) -> (r: &'static str)
        ensures
            r@ == self.name_spec(),
    {
        match self {
            Field::Selector => "selector",
            Field::Id => "id",
            Field::Admin => "admin",
            Field::MinBalance => "min_balance",
            Field::Name => "name",
            Field::Symbol => "symbol",
            Field::Decimals => "decimals",
            Field::Issuer => "issuer",
            Field::Freezer => "freezer",
            Field::Owner => "owner",
        }
    }
}

impl Revert {
    /// The human-readable message for this revert, with the offending field
    /// named in front where one is involved.
    pub open spec fn message_spec(self) -> Seq<char> {
        match self {
            Revert::UnknownSelector => "Unknown selector"@,
            Revert::ReadOutOfBounds(f) => f.name_spec() + ": Tried to read out of bounds"@,
            Revert::PointerOutOfBounds(f) => f.name_spec() + ": Pointer out of bounds"@,
            Revert::OversizedBytes(f) => f.name_spec() + ": Bytes exceed maximum length"@,
            Revert::ValueTooLarge(f) => f.name_spec() + ": Value is too large"@,
            Revert::Custom(CustomReason::InvalidAssetId) => "Invalid asset id"@,
            Revert::OutOfGas => "Out of gas"@,
            Revert::Ledger(_) => "Dispatched call failed"@,
        }
    }

    /// Renders the human-readable revert message.
    pub fn message(&self) -> (m: String)
        ensures
            m@ == self.message_spec(),
    {
        match self {
            Revert::UnknownSelector => String::from_str("Unknown selector"),
            Revert::ReadOutOfBounds(f) => {
                let mut m = String::from_str(f.name());
                m.append(": Tried to read out of bounds");
                m
            },
            Revert::PointerOutOfBounds(f) => {
                let mut m = String::from_str(f.name());
                m.append(": Pointer out of bounds");
                m
            },
            Revert::OversizedBytes(f) => {
                let mut m = String::from_str(f.name());
                m.append(": Bytes exceed maximum length");
                m
            },
            Revert::ValueTooLarge(f) => {
                let mut m = String::from_str(f.name());
                m.append(": Value is too large");
                m
            },
            Revert::Custom(CustomReason::InvalidAssetId) => String::from_str("Invalid asset id"),
            Revert::OutOfGas => String::from_str("Out of gas"),
            Revert::Ledger(_) => String::from_str("Dispatched call failed"),
        }
    }
}

} // verus!
