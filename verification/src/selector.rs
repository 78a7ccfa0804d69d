//! The selector dispatch table.
//!
//! Every exposed operation is identified by the selector of its canonical
//! signature text: the first four bytes of the text's Keccak-256 digest,
//! read big-endian. The table is fixed; routing matches an incoming
//! selector against the eight known ones in a fixed order and reports an
//! unknown selector otherwise.

use vstd::prelude::*;

verus! {

/// The closed set of operations the bridge exposes.
#[derive(Clone, Copy, PartialEq, Eq, Structural, Debug)]
pub enum OperationKind {
    ConvertAssetIdToAddress,
    Create,
    SetMetadata,
    SetMinBalance,
    SetTeam,
    TransferOwnership,
    StartDestroy,
    FinishDestroy,
}

/// The selector derived from a canonical signature text: a function of the
/// text alone.
pub uninterp spec fn selector_of(sig: Seq<char>) -> u32;

/// Relies on tiny_keccak's `Keccak::v256` (Keccak-256): the digest depends
/// on the hashed bytes alone, so the selector computed here is a function
/// of the signature text alone.
#[verifier::external_body]
fn compute_selector(sig: &str) -> (r: u32)
    ensures
        r == selector_of(sig@),
{
    let mut k = tiny_keccak::Keccak::v256();
    tiny_keccak::Hasher::update(&mut k, sig.as_bytes());
    let mut out = [0u8; 32];
    tiny_keccak::Hasher::finalize(k, &mut out);
    u32::from_be_bytes([out[0], out[1], out[2], out[3]])
}

/// The canonical signature text of each operation.
pub open spec fn signature_spec(op: OperationKind) -> Seq<char> {
    match op {
        OperationKind::ConvertAssetIdToAddress => "convertAssetIdToAddress(uint64)"@,
        OperationKind::Create => "create(uint64,address,uint128)"@,
        OperationKind::SetMetadata => "setMetadata(uint64,bytes,bytes,uint8)"@,
        OperationKind::SetMinBalance => "setMinBalance(uint64,uint128)"@,
        OperationKind::SetTeam => "setTeam(uint64,address,address,address)"@,
        OperationKind::TransferOwnership => "transferOwnership(uint64,address)"@,
        OperationKind::StartDestroy => "startDestroy(uint64)"@,
        OperationKind::FinishDestroy => "finishDestroy(uint64)"@,
    }
}

/// Returns the canonical signature text of an operation.
pub fn signature(op: OperationKind) -> (r: &'static str)
    ensures
        r@ == signature_spec(op),
{
    match op {
        OperationKind::ConvertAssetIdToAddress => "convertAssetIdToAddress(uint64)",
        OperationKind::Create => "create(uint64,address,uint128)",
        OperationKind::SetMetadata => "setMetadata(uint64,bytes,bytes,uint8)",
        OperationKind::SetMinBalance => "setMinBalance(uint64,uint128)",
        OperationKind::SetTeam => "setTeam(uint64,address,address,address)",
        OperationKind::TransferOwnership => "transferOwnership(uint64,address)",
        OperationKind::StartDestroy => "startDestroy(uint64)",
        OperationKind::FinishDestroy => "finishDestroy(uint64)",
    }
}

/// Computes the selector under which an operation is addressed.
pub fn selector_for(op: OperationKind) -> (r: u32)
    ensures
        r == selector_of(signature_spec(op)),
{
    compute_selector(signature(op))
}

/// The routing relation: the operation a selector addresses, matched in a
/// fixed order, or nothing when it matches none.
pub open spec fn route_spec(sel: u32) -> Option<OperationKind> {
    if sel == selector_of(signature_spec(OperationKind::ConvertAssetIdToAddress)) {
        Some(OperationKind::ConvertAssetIdToAddress)
    } else if sel == selector_of(signature_spec(OperationKind::Create)) {
        Some(OperationKind::Create)
    } else if sel == selector_of(signature_spec(OperationKind::SetMetadata)) {
        Some(OperationKind::SetMetadata)
    } else if sel == selector_of(signature_spec(OperationKind::SetMinBalance)) {
        Some(OperationKind::SetMinBalance)
    } else if sel == selector_of(signature_spec(OperationKind::SetTeam)) {
        Some(OperationKind::SetTeam)
    } else if sel == selector_of(signature_spec(OperationKind::TransferOwnership)) {
        Some(OperationKind::TransferOwnership)
    } else if sel == selector_of(signature_spec(OperationKind::StartDestroy)) {
        Some(OperationKind::StartDestroy)
    } else if sel == selector_of(signature_spec(OperationKind::FinishDestroy)) {
        Some(OperationKind::FinishDestroy)
    } else {
        None
    }
}

/// Routes a selector to the operation it addresses.
pub fn lookup_operation(sel: u32) -> (r: Option<OperationKind>)
    ensures
        r == route_spec(sel),
{
    if sel == selector_for(OperationKind::ConvertAssetIdToAddress) {
        Some(OperationKind::ConvertAssetIdToAddress)
    } else if sel == selector_for(OperationKind::Create) {
        Some(OperationKind::Create)
    } else if sel == selector_for(OperationKind::SetMetadata) {
        Some(OperationKind::SetMetadata)
    } else if sel == selector_for(OperationKind::SetMinBalance) {
        Some(OperationKind::SetMinBalance)
    } else if sel == selector_for(OperationKind::SetTeam) {
        Some(OperationKind::SetTeam)
    } else if sel == selector_for(OperationKind::TransferOwnership) {
        Some(OperationKind::TransferOwnership)
    } else if sel == selector_for(OperationKind::StartDestroy) {
        Some(OperationKind::StartDestroy)
    } else if sel == selector_for(OperationKind::FinishDestroy) {
        Some(OperationKind::FinishDestroy)
    } else {
        None
    }
}

} // verus!
