//! The dispatch bridge: the verified pipeline of one invocation.
//!
//! A call runs the strict linear pipeline decode, validate and resolve,
//! cost-charge, dispatch, result mapping; a failure at any stage
//! short-circuits to a revert without proceeding further.
//! Each handler's contract equates what it leaves behind — its result, the
//! ledger's dispatch history and the gas drawn — with the outcome spec of
//! its stage, so the whole pipeline is pinned down mathematically.
//!
//! One ordering property is deliberate and kept: every mutating operation
//! pre-charges the fixed log footprint of the ledger event it is expected
//! to cause (three indexed topics, 32 bytes of data) right after its
//! arguments have decoded — before the id range check, and in particular
//! before the admissibility check of a creation. A locally rejected
//! creation therefore still incurs the pre-charge.

use vstd::prelude::*;

use crate::abi::{
    address_word, encode_address, parse_selector, read_address, read_address_spec, read_bytes,
    read_bytes_spec, read_u128, read_u64, read_u8, read_uint_spec, selector_spec,
};
use crate::domain::{
    admissible_for_creation, convert_asset_id, fits_internal_id, is_allow_to_create,
    saturate_balance, saturated_balance, EvmAddress,
};
use crate::gas::{log_cost, CallContext};
use crate::ledger::{AddressMapper, AssetCall, AssetCallV, AssetLedger, Request, RequestV};
use crate::revert::{CustomReason, Field, LedgerError, Revert};
use crate::selector::{lookup_operation, route_spec, OperationKind};

verus! {

/// What one mutating handler leaves behind: its result, the ledger's
/// dispatch history, and the total gas drawn from the budget.
pub ghost struct StepOutcome {
    pub result: Result<(), Revert>,
    pub history: Seq<RequestV>,
    pub gas_used: int,
}

/// What a whole call leaves behind: its output or revert, the ledger's
/// dispatch history, and the total gas drawn from the budget.
pub ghost struct CallOutcome {
    pub result: Result<Seq<u8>, Revert>,
    pub history: Seq<RequestV>,
    pub gas_used: int,
}

/// The ledger's verdict as the caller sees it: success has no payload, a
/// failure passes the ledger's own error through untouched.
pub open spec fn verdict_result(v: Option<LedgerError>) -> Result<(), Revert> {
    match v {
        None => Ok(()),
        Some(e) => Err(Revert::Ledger(e)),
    }
}

/// The outcome of submitting a request to the engine with `gas_used` of
/// `gas_limit` already drawn: if the remaining budget does not cover the
/// metered cost the request is never dispatched; otherwise the cost is
/// drawn, the request is appended to the history, and the ledger's verdict
/// decides the result.
pub open spec fn dispatch_outcome<L: AssetLedger>(
    ledger: L,
    gas_limit: int,
    gas_used: int,
    req: RequestV,
) -> StepOutcome {
    let g = ledger.weight_to_gas(ledger.weight_of(req));
    if gas_used + g > gas_limit {
        StepOutcome { result: Err(Revert::OutOfGas), history: ledger.history(), gas_used }
    } else {
        StepOutcome {
            result: verdict_result(ledger.verdict(req)),
            history: ledger.history().push(req),
            gas_used: gas_used + g,
        }
    }
}

/// Submits a fully-formed request: checks the engine's metered cost against
/// the remaining budget and fails closed before the ledger is touched;
/// otherwise draws the cost, forwards the request, and maps the
/// ledger's verdict.
pub fn try_dispatch<L: AssetLedger>(ledger: &mut L, ctx: &mut CallContext, req: Request) -> (r:
    Result<(), Revert>)
    requires
        old(ctx).wf(),
    ensures
        final(ctx).wf(),
        final(ctx).caller == old(ctx).caller,
        final(ctx).gas_limit == old(ctx).gas_limit,
        ({
            let o = dispatch_outcome::<L>(
                *old(ledger),
                old(ctx).gas_limit as int,
                old(ctx).gas_used as int,
                req@,
            );
            r == o.result && final(ledger).history() == o.history && final(ctx).gas_used
                == o.gas_used
        }),
{
    let g = ledger.required_gas(&req);
    match ctx.record_cost(g) {
        Err(e) => {
            return Err(e);
        },
        Ok(()) => {},
    }
    let v = ledger.dispatch(req);
    match v {
        None => Ok(()),
        Some(e) => Err(Revert::Ledger(e)),
    }
}

/// The bridge: one handler per exposed operation.
pub struct AssetsFactoryPrecompile;

/// The outcome of a creation: the log pre-charge, the fallible id
/// narrowing, the admissibility rule, the saturating balance conversion,
/// and the dispatch of the built request under the caller's mapped origin.
pub open spec fn create_outcome<M: AddressMapper, L: AssetLedger>(
    ledger: L,
    ctx: CallContext,
    id: u64,
    admin: Seq<u8>,
    min_balance: u128,
) -> StepOutcome {
    if ctx.gas_used + log_cost(3, 32) > ctx.gas_limit {
        StepOutcome {
            result: Err(Revert::OutOfGas),
            history: ledger.history(),
            gas_used: ctx.gas_used as int,
        }
    } else {
        let g1 = ctx.gas_used + log_cost(3, 32);
        if !fits_internal_id(id) {
            StepOutcome {
                result: Err(Revert::ValueTooLarge(Field::Id)),
                history: ledger.history(),
                gas_used: g1,
            }
        } else if !admissible_for_creation(id as u32) {
            StepOutcome {
                result: Err(Revert::Custom(CustomReason::InvalidAssetId)),
                history: ledger.history(),
                gas_used: g1,
            }
        } else {
            dispatch_outcome::<L>(
                ledger,
                ctx.gas_limit as int,
                g1,
                RequestV {
                    origin: M::account_of(ctx.caller@),
                    call: AssetCallV::Create {
                        id: id as u32,
                        admin: M::account_of(admin),
                        min_balance: saturated_balance(min_balance),
                    },
                },
            )
        }
    }
}

/// The outcome of a metadata update: the log pre-charge, the fallible id
/// narrowing, and the dispatch of the built request. The byte strings have
/// already passed the decoder's length bound.
pub open spec fn set_metadata_outcome<M: AddressMapper, L: AssetLedger>(
    ledger: L,
    ctx: CallContext,
    id: u64,
    name: Seq<u8>,
    symbol: Seq<u8>,
    decimals: u8,
) -> StepOutcome {
    if ctx.gas_used + log_cost(3, 32) > ctx.gas_limit {
        StepOutcome {
            result: Err(Revert::OutOfGas),
            history: ledger.history(),
            gas_used: ctx.gas_used as int,
        }
    } else {
        let g1 = ctx.gas_used + log_cost(3, 32);
        if !fits_internal_id(id) {
            StepOutcome {
                result: Err(Revert::ValueTooLarge(Field::Id)),
                history: ledger.history(),
                gas_used: g1,
            }
        } else {
            dispatch_outcome::<L>(
                ledger,
                ctx.gas_limit as int,
                g1,
                RequestV {
                    origin: M::account_of(ctx.caller@),
                    call: AssetCallV::SetMetadata { id: id as u32, name, symbol, decimals },
                },
            )
        }
    }
}

/// The outcome of a minimum-balance update: the log pre-charge, the
/// fallible id narrowing, the saturating balance conversion, and the
/// dispatch of the built request.
pub open spec fn set_min_balance_outcome<M: AddressMapper, L: AssetLedger>(
    ledger: L,
    ctx: CallContext,
    id: u64,
    min_balance: u128,
) -> StepOutcome {
    if ctx.gas_used + log_cost(3, 32) > ctx.gas_limit {
        StepOutcome {
            result: Err(Revert::OutOfGas),
            history: ledger.history(),
            gas_used: ctx.gas_used as int,
        }
    } else {
        let g1 = ctx.gas_used + log_cost(3, 32);
        if !fits_internal_id(id) {
            StepOutcome {
                result: Err(Revert::ValueTooLarge(Field::Id)),
                history: ledger.history(),
                gas_used: g1,
            }
        } else {
            dispatch_outcome::<L>(
                ledger,
                ctx.gas_limit as int,
                g1,
                RequestV {
                    origin: M::account_of(ctx.caller@),
                    call: AssetCallV::SetMinBalance {
                        id: id as u32,
                        min_balance: saturated_balance(min_balance),
                    },
                },
            )
        }
    }
}

/// The outcome of a team update: the log pre-charge, the fallible id
/// narrowing, the resolution of the three role addresses, and the dispatch
/// of the built request.
pub open spec fn set_team_outcome<M: AddressMapper, L: AssetLedger>(
    ledger: L,
    ctx: CallContext,
    id: u64,
    issuer: Seq<u8>,
    admin: Seq<u8>,
    freezer: Seq<u8>,
) -> StepOutcome {
    if ctx.gas_used + log_cost(3, 32) > ctx.gas_limit {
        StepOutcome {
            result: Err(Revert::OutOfGas),
            history: ledger.history(),
            gas_used: ctx.gas_used as int,
        }
    } else {
        let g1 = ctx.gas_used + log_cost(3, 32);
        if !fits_internal_id(id) {
            StepOutcome {
                result: Err(Revert::ValueTooLarge(Field::Id)),
                history: ledger.history(),
                gas_used: g1,
            }
        } else {
            dispatch_outcome::<L>(
                ledger,
                ctx.gas_limit as int,
                g1,
                RequestV {
                    origin: M::account_of(ctx.caller@),
                    call: AssetCallV::SetTeam {
                        id: id as u32,
                        issuer: M::account_of(issuer),
                        admin: M::account_of(admin),
                        freezer: M::account_of(freezer),
                    },
                },
            )
        }
    }
}

/// The outcome of an ownership transfer: the log pre-charge, the fallible
/// id narrowing, the resolution of the new owner, and the dispatch of the
/// built request.
pub open spec fn transfer_ownership_outcome<M: AddressMapper, L: AssetLedger>(
    ledger: L,
    ctx: CallContext,
    id: u64,
    owner: Seq<u8>,
) -> StepOutcome {
    if ctx.gas_used + log_cost(3, 32) > ctx.gas_limit {
        StepOutcome {
            result: Err(Revert::OutOfGas),
            history: ledger.history(),
            gas_used: ctx.gas_used as int,
        }
    } else {
        let g1 = ctx.gas_used + log_cost(3, 32);
        if !fits_internal_id(id) {
            StepOutcome {
                result: Err(Revert::ValueTooLarge(Field::Id)),
                history: ledger.history(),
                gas_used: g1,
            }
        } else {
            dispatch_outcome::<L>(
                ledger,
                ctx.gas_limit as int,
                g1,
                RequestV {
                    origin: M::account_of(ctx.caller@),
                    call: AssetCallV::TransferOwnership {
                        id: id as u32,
                        owner: M::account_of(owner),
                    },
                },
            )
        }
    }
}

/// The outcome of starting a destruction: the log pre-charge, the fallible
/// id narrowing, and the dispatch of the built request.
pub open spec fn start_destroy_outcome<M: AddressMapper, L: AssetLedger>(
    ledger: L,
    ctx: CallContext,
    id: u64,
) -> StepOutcome {
    if ctx.gas_used + log_cost(3, 32) > ctx.gas_limit {
        StepOutcome {
            result: Err(Revert::OutOfGas),
            history: ledger.history(),
            gas_used: ctx.gas_used as int,
        }
    } else {
        let g1 = ctx.gas_used + log_cost(3, 32);
        if !fits_internal_id(id) {
            StepOutcome {
                result: Err(Revert::ValueTooLarge(Field::Id)),
                history: ledger.history(),
                gas_used: g1,
            }
        } else {
            dispatch_outcome::<L>(
                ledger,
                ctx.gas_limit as int,
                g1,
                RequestV {
                    origin: M::account_of(ctx.caller@),
                    call: AssetCallV::StartDestroy { id: id as u32 },
                },
            )
        }
    }
}

/// The outcome of finishing a destruction: the log pre-charge, the
/// fallible id narrowing, and the dispatch of the built request.
pub open spec fn finish_destroy_outcome<M: AddressMapper, L: AssetLedger>(
    ledger: L,
    ctx: CallContext,
    id: u64,
) -> StepOutcome {
    if ctx.gas_used + log_cost(3, 32) > ctx.gas_limit {
        StepOutcome {
            result: Err(Revert::OutOfGas),
            history: ledger.history(),
            gas_used: ctx.gas_used as int,
        }
    } else {
        let g1 = ctx.gas_used + log_cost(3, 32);
        if !fits_internal_id(id) {
            StepOutcome {
                result: Err(Revert::ValueTooLarge(Field::Id)),
                history: ledger.history(),
                gas_used: g1,
            }
        } else {
            dispatch_outcome::<L>(
                ledger,
                ctx.gas_limit as int,
                g1,
                RequestV {
                    origin: M::account_of(ctx.caller@),
                    call: AssetCallV::FinishDestroy { id: id as u32 },
                },
            )
        }
    }
}

impl AssetsFactoryPrecompile {
    /// Derives the external address an asset is reachable under: a pure,
    /// read-only function of the id, touching neither ledger nor budget.
    pub fn convert_asset_id_to_address<M: AddressMapper>(id: u64) -> (r: Result<
        EvmAddress,
        Revert,
    >)
        ensures
            fits_internal_id(id) ==> (r matches Ok(a) && a@ == M::address_of_asset(id as u32)),
            !fits_internal_id(id) ==> r == Err::<EvmAddress, Revert>(
                Revert::ValueTooLarge(Field::Id),
            ),
    {
        let asset_id = match convert_asset_id(id) {
            Err(e) => {
                return Err(e);
            },
            Ok(a) => a,
        };
        Ok(M::asset_id_to_address(asset_id))
    }

    /// Creates a new asset under `id` with `admin` and `min_balance`,
    /// rejecting inadmissible ids after the unconditional log pre-charge.
    pub fn create<M: AddressMapper, L: AssetLedger>(
        ledger: &mut L,
        ctx: &mut CallContext,
        id: u64,
        admin: EvmAddress,
        min_balance: u128,
    ) -> (r: Result<(), Revert>)
        requires
            old(ctx).wf(),
        ensures
            final(ctx).wf(),
            final(ctx).caller == old(ctx).caller,
            final(ctx).gas_limit == old(ctx).gas_limit,
            ({
                let o = create_outcome::<M, L>(*old(ledger), *old(ctx), id, admin@, min_balance);
                r == o.result && final(ledger).history() == o.history && final(ctx).gas_used
                    == o.gas_used
            }),
    {
        match ctx.record_log_costs_manual(3, 32) {
            Err(e) => {
                return Err(e);
            },
            Ok(()) => {},
        }
        let asset_id = match convert_asset_id(id) {
            Err(e) => {
                return Err(e);
            },
            Ok(a) => a,
        };
        if !is_allow_to_create(asset_id) {
            return Err(Revert::Custom(CustomReason::InvalidAssetId));
        }
        let bal = saturate_balance(min_balance);
        let origin = M::into_account_id(&ctx.caller);
        let admin_acc = M::into_account_id(&admin);
        let req = Request {
            origin,
            call: AssetCall::Create { id: asset_id, admin: admin_acc, min_balance: bal },
        };
        try_dispatch(ledger, ctx, req)
    }

    /// Sets an asset's metadata. The byte strings have already passed the
    /// decoder's length bound.
    pub fn set_metadata<M: AddressMapper, L: AssetLedger>(
        ledger: &mut L,
        ctx: &mut CallContext,
        id: u64,
        name: Vec<u8>,
        symbol: Vec<u8>,
        decimals: u8,
    ) -> (r: Result<(), Revert>)
        requires
            old(ctx).wf(),
        ensures
            final(ctx).wf(),
            final(ctx).caller == old(ctx).caller,
            final(ctx).gas_limit == old(ctx).gas_limit,
            ({
                let o = set_metadata_outcome::<M, L>(
                    *old(ledger),
                    *old(ctx),
                    id,
                    name@,
                    symbol@,
                    decimals,
                );
                r == o.result && final(ledger).history() == o.history && final(ctx).gas_used
                    == o.gas_used
            }),
    {
        match ctx.record_log_costs_manual(3, 32) {
            Err(e) => {
                return Err(e);
            },
            Ok(()) => {},
        }
        let asset_id = match convert_asset_id(id) {
            Err(e) => {
                return Err(e);
            },
            Ok(a) => a,
        };
        let origin = M::into_account_id(&ctx.caller);
        let req = Request {
            origin,
            call: AssetCall::SetMetadata { id: asset_id, name, symbol, decimals },
        };
        try_dispatch(ledger, ctx, req)
    }

    /// Sets an asset's minimum balance, converting the external value with
    /// saturating semantics.
    pub fn set_min_balance<M: AddressMapper, L: AssetLedger>(
        ledger: &mut L,
        ctx: &mut CallContext,
        id: u64,
        min_balance: u128,
    ) -> (r: Result<(), Revert>)
        requires
            old(ctx).wf(),
        ensures
            final(ctx).wf(),
            final(ctx).caller == old(ctx).caller,
            final(ctx).gas_limit == old(ctx).gas_limit,
            ({
                let o = set_min_balance_outcome::<M, L>(*old(ledger), *old(ctx), id, min_balance);
                r == o.result && final(ledger).history() == o.history && final(ctx).gas_used
                    == o.gas_used
            }),
    {
        match ctx.record_log_costs_manual(3, 32) {
            Err(e) => {
                return Err(e);
            },
            Ok(()) => {},
        }
        let asset_id = match convert_asset_id(id) {
            Err(e) => {
                return Err(e);
            },
            Ok(a) => a,
        };
        let bal = saturate_balance(min_balance);
        let origin = M::into_account_id(&ctx.caller);
        let req = Request { origin, call: AssetCall::SetMinBalance { id: asset_id, min_balance: bal } };
        try_dispatch(ledger, ctx, req)
    }

    /// Sets an asset's team: issuer, admin and freezer.
    pub fn set_team<M: AddressMapper, L: AssetLedger>(
        ledger: &mut L,
        ctx: &mut CallContext,
        id: u64,
        issuer: EvmAddress,
        admin: EvmAddress,
        freezer: EvmAddress,
    ) -> (r: Result<(), Revert>)
        requires
            old(ctx).wf(),
        ensures
            final(ctx).wf(),
            final(ctx).caller == old(ctx).caller,
            final(ctx).gas_limit == old(ctx).gas_limit,
            ({
                let o = set_team_outcome::<M, L>(
                    *old(ledger),
                    *old(ctx),
                    id,
                    issuer@,
                    admin@,
                    freezer@,
                );
                r == o.result && final(ledger).history() == o.history && final(ctx).gas_used
                    == o.gas_used
            }),
    {
        match ctx.record_log_costs_manual(3, 32) {
            Err(e) => {
                return Err(e);
            },
            Ok(()) => {},
        }
        let asset_id = match convert_asset_id(id) {
            Err(e) => {
                return Err(e);
            },
            Ok(a) => a,
        };
        let origin = M::into_account_id(&ctx.caller);
        let issuer_acc = M::into_account_id(&issuer);
        let admin_acc = M::into_account_id(&admin);
        let freezer_acc = M::into_account_id(&freezer);
        let req = Request {
            origin,
            call: AssetCall::SetTeam {
                id: asset_id,
                issuer: issuer_acc,
                admin: admin_acc,
                freezer: freezer_acc,
            },
        };
        try_dispatch(ledger, ctx, req)
    }

    /// Transfers an asset's ownership to `owner`.
    pub fn transfer_ownership<M: AddressMapper, L: AssetLedger>(
        ledger: &mut L,
        ctx: &mut CallContext,
        id: u64,
        owner: EvmAddress,
    ) -> (r: Result<(), Revert>)
        requires
            old(ctx).wf(),
        ensures
            final(ctx).wf(),
            final(ctx).caller == old(ctx).caller,
            final(ctx).gas_limit == old(ctx).gas_limit,
            ({
                let o = transfer_ownership_outcome::<M, L>(*old(ledger), *old(ctx), id, owner@);
                r == o.result && final(ledger).history() == o.history && final(ctx).gas_used
                    == o.gas_used
            }),
    {
        match ctx.record_log_costs_manual(3, 32) {
            Err(e) => {
                return Err(e);
            },
            Ok(()) => {},
        }
        let asset_id = match convert_asset_id(id) {
            Err(e) => {
                return Err(e);
            },
            Ok(a) => a,
        };
        let origin = M::into_account_id(&ctx.caller);
        let owner_acc = M::into_account_id(&owner);
        let req = Request {
            origin,
            call: AssetCall::TransferOwnership { id: asset_id, owner: owner_acc },
        };
        try_dispatch(ledger, ctx, req)
    }

    /// Starts the destruction of an asset.
    pub fn start_destroy<M: AddressMapper, L: AssetLedger>(
        ledger: &mut L,
        ctx: &mut CallContext,
        id: u64,
    ) -> (r: Result<(), Revert>)
        requires
            old(ctx).wf(),
        ensures
            final(ctx).wf(),
            final(ctx).caller == old(ctx).caller,
            final(ctx).gas_limit == old(ctx).gas_limit,
            ({
                let o = start_destroy_outcome::<M, L>(*old(ledger), *old(ctx), id);
                r == o.result && final(ledger).history() == o.history && final(ctx).gas_used
                    == o.gas_used
            }),
    {
        match ctx.record_log_costs_manual(3, 32) {
            Err(e) => {
                return Err(e);
            },
            Ok(()) => {},
        }
        let asset_id = match convert_asset_id(id) {
            Err(e) => {
                return Err(e);
            },
            Ok(a) => a,
        };
        let origin = M::into_account_id(&ctx.caller);
        let req = Request { origin, call: AssetCall::StartDestroy { id: asset_id } };
        try_dispatch(ledger, ctx, req)
    }

    /// Finishes the destruction of an asset.
    pub fn finish_destroy<M: AddressMapper, L: AssetLedger>(
        ledger: &mut L,
        ctx: &mut CallContext,
        id: u64,
    ) -> (r: Result<(), Revert>)
        requires
            old(ctx).wf(),
        ensures
            final(ctx).wf(),
            final(ctx).caller == old(ctx).caller,
            final(ctx).gas_limit == old(ctx).gas_limit,
            ({
                let o = finish_destroy_outcome::<M, L>(*old(ledger), *old(ctx), id);
                r == o.result && final(ledger).history() == o.history && final(ctx).gas_used
                    == o.gas_used
            }),
    {
        match ctx.record_log_costs_manual(3, 32) {
            Err(e) => {
                return Err(e);
            },
            Ok(()) => {},
        }
        let asset_id = match convert_asset_id(id) {
            Err(e) => {
                return Err(e);
            },
            Ok(a) => a,
        };
        let origin = M::into_account_id(&ctx.caller);
        let req = Request { origin, call: AssetCall::FinishDestroy { id: asset_id } };
        try_dispatch(ledger, ctx, req)
    }
}

/// Lifts a handler outcome to a call outcome: a mutating operation's
/// success carries no payload.
pub open spec fn step_to_call(o: StepOutcome) -> CallOutcome {
    CallOutcome {
        result: match o.result {
            Ok(u) => Ok(Seq::<u8>::empty()),
            Err(e) => Err(e),
        },
        history: o.history,
        gas_used: o.gas_used,
    }
}

/// A call outcome that failed before any charge or dispatch.
pub open spec fn failed_call<L: AssetLedger>(ledger: L, ctx: CallContext, e: Revert) -> CallOutcome {
    CallOutcome { result: Err(e), history: ledger.history(), gas_used: ctx.gas_used as int }
}

/// The outcome of one whole invocation on `input`: selector routing,
/// argument decoding in declared order, and the routed operation's own
/// outcome. Argument word offsets follow the packed layout: the selector's
/// four bytes, then one 32-byte word per static argument; dynamic byte
/// strings sit behind offset words counted from the start of the argument
/// section.
pub open spec fn execute_outcome<M: AddressMapper, L: AssetLedger>(
    ledger: L,
    ctx: CallContext,
    input: Seq<u8>,
) -> CallOutcome {
    match selector_spec(input) {
        Err(e) => failed_call::<L>(ledger, ctx, e),
        Ok(sel) => match route_spec(sel) {
            None => failed_call::<L>(ledger, ctx, Revert::UnknownSelector),
            Some(op) => match op {
                OperationKind::ConvertAssetIdToAddress => match read_uint_spec(
                    input,
                    4,
                    8,
                    Field::Id,
                ) {
                    Err(e) => failed_call::<L>(ledger, ctx, e),
                    Ok(id) => if fits_internal_id(id as u64) {
                        CallOutcome {
                            result: Ok(address_word(M::address_of_asset(id as u32))),
                            history: ledger.history(),
                            gas_used: ctx.gas_used as int,
                        }
                    } else {
                        failed_call::<L>(ledger, ctx, Revert::ValueTooLarge(Field::Id))
                    },
                },
                OperationKind::Create => match read_uint_spec(input, 4, 8, Field::Id) {
                    Err(e) => failed_call::<L>(ledger, ctx, e),
                    Ok(id) => match read_address_spec(input, 36, Field::Admin) {
                        Err(e) => failed_call::<L>(ledger, ctx, e),
                        Ok(admin) => match read_uint_spec(input, 68, 16, Field::MinBalance) {
                            Err(e) => failed_call::<L>(ledger, ctx, e),
                            Ok(mb) => step_to_call(
                                create_outcome::<M, L>(ledger, ctx, id as u64, admin, mb as u128),
                            ),
                        },
                    },
                },
                OperationKind::SetMetadata => match read_uint_spec(input, 4, 8, Field::Id) {
                    Err(e) => failed_call::<L>(ledger, ctx, e),
                    Ok(id) => match read_bytes_spec(input, 4, 36, Field::Name) {
                        Err(e) => failed_call::<L>(ledger, ctx, e),
                        Ok(name) => match read_bytes_spec(input, 4, 68, Field::Symbol) {
                            Err(e) => failed_call::<L>(ledger, ctx, e),
                            Ok(symbol) => match read_uint_spec(input, 100, 1, Field::Decimals) {
                                Err(e) => failed_call::<L>(ledger, ctx, e),
                                Ok(decimals) => step_to_call(
                                    set_metadata_outcome::<M, L>(
                                        ledger,
                                        ctx,
                                        id as u64,
                                        name,
                                        symbol,
                                        decimals as u8,
                                    ),
                                ),
                            },
                        },
                    },
                },
                OperationKind::SetMinBalance => match read_uint_spec(input, 4, 8, Field::Id) {
                    Err(e) => failed_call::<L>(ledger, ctx, e),
                    Ok(id) => match read_uint_spec(input, 36, 16, Field::MinBalance) {
                        Err(e) => failed_call::<L>(ledger, ctx, e),
                        Ok(mb) => step_to_call(
                            set_min_balance_outcome::<M, L>(ledger, ctx, id as u64, mb as u128),
                        ),
                    },
                },
                OperationKind::SetTeam => match read_uint_spec(input, 4, 8, Field::Id) {
                    Err(e) => failed_call::<L>(ledger, ctx, e),
                    Ok(id) => match read_address_spec(input, 36, Field::Issuer) {
                        Err(e) => failed_call::<L>(ledger, ctx, e),
                        Ok(issuer) => match read_address_spec(input, 68, Field::Admin) {
                            Err(e) => failed_call::<L>(ledger, ctx, e),
                            Ok(admin) => match read_address_spec(input, 100, Field::Freezer) {
                                Err(e) => failed_call::<L>(ledger, ctx, e),
                                Ok(freezer) => step_to_call(
                                    set_team_outcome::<M, L>(
                                        ledger,
                                        ctx,
                                        id as u64,
                                        issuer,
                                        admin,
                                        freezer,
                                    ),
                                ),
                            },
                        },
                    },
                },
                OperationKind::TransferOwnership => match read_uint_spec(input, 4, 8, Field::Id) {
                    Err(e) => failed_call::<L>(ledger, ctx, e),
                    Ok(id) => match read_address_spec(input, 36, Field::Owner) {
                        Err(e) => failed_call::<L>(ledger, ctx, e),
                        Ok(owner) => step_to_call(
                            transfer_ownership_outcome::<M, L>(ledger, ctx, id as u64, owner),
                        ),
                    },
                },
                OperationKind::StartDestroy => match read_uint_spec(input, 4, 8, Field::Id) {
                    Err(e) => failed_call::<L>(ledger, ctx, e),
                    Ok(id) => step_to_call(start_destroy_outcome::<M, L>(ledger, ctx, id as u64)),
                },
                OperationKind::FinishDestroy => match read_uint_spec(input, 4, 8, Field::Id) {
                    Err(e) => failed_call::<L>(ledger, ctx, e),
                    Ok(id) => step_to_call(finish_destroy_outcome::<M, L>(ledger, ctx, id as u64)),
                },
            },
        },
    }
}

impl AssetsFactoryPrecompile {
    /// Runs one whole invocation: routes the selector, decodes the
    /// arguments in declared order, and executes the routed operation,
    /// returning its ABI-encoded output or the revert it short-circuited
    /// to.
    pub fn execute<M: AddressMapper, L: AssetLedger>(
        ledger: &mut L,
        ctx: &mut CallContext,
        input: &Vec<u8>,
    ) -> (r: Result<Vec<u8>, Revert>)
        requires
            old(ctx).wf(),
        ensures
            final(ctx).wf(),
            final(ctx).caller == old(ctx).caller,
            final(ctx).gas_limit == old(ctx).gas_limit,
            ({
                let o = execute_outcome::<M, L>(*old(ledger), *old(ctx), input@);
                final(ledger).history() == o.history && final(ctx).gas_used == o.gas_used && (
                r matches Ok(v) ==> o.result matches Ok(s) && v@ == s) && (r matches Err(e)
                    ==> o.result == Err::<Seq<u8>, Revert>(e))
            }),
    {
        let sel = match parse_selector(input) {
            Err(e) => {
                return Err(e);
            },
            Ok(s) => s,
        };
        let op = match lookup_operation(sel) {
            None => {
                return Err(Revert::UnknownSelector);
            },
            Some(op) => op,
        };
        match op {
            OperationKind::ConvertAssetIdToAddress => {
                let id = match read_u64(input, 4, Field::Id) {
                    Err(e) => {
                        return Err(e);
                    },
                    Ok(v) => v,
                };
                match Self::convert_asset_id_to_address::<M>(id) {
                    Err(e) => Err(e),
                    Ok(a) => Ok(encode_address(&a)),
                }
            },
            OperationKind::Create => {
                let id = match read_u64(input, 4, Field::Id) {
                    Err(e) => {
                        return Err(e);
                    },
                    Ok(v) => v,
                };
                let admin = match read_address(input, 36, Field::Admin) {
                    Err(e) => {
                        return Err(e);
                    },
                    Ok(a) => a,
                };
                let mb = match read_u128(input, 68, Field::MinBalance) {
                    Err(e) => {
                        return Err(e);
                    },
                    Ok(v) => v,
                };
                match Self::create::<M, L>(ledger, ctx, id, admin, mb) {
                    Err(e) => Err(e),
                    Ok(()) => Ok(Vec::new()),
                }
            },
            OperationKind::SetMetadata => {
                let id = match read_u64(input, 4, Field::Id) {
                    Err(e) => {
                        return Err(e);
                    },
                    Ok(v) => v,
                };
                let name = match read_bytes(input, 4, 36, Field::Name) {
                    Err(e) => {
                        return Err(e);
                    },
                    Ok(b) => b,
                };
                let symbol = match read_bytes(input, 4, 68, Field::Symbol) {
                    Err(e) => {
                        return Err(e);
                    },
                    Ok(b) => b,
                };
                let decimals = match read_u8(input, 100, Field::Decimals) {
                    Err(e) => {
                        return Err(e);
                    },
                    Ok(v) => v,
                };
                match Self::set_metadata::<M, L>(ledger, ctx, id, name, symbol, decimals) {
                    Err(e) => Err(e),
                    Ok(()) => Ok(Vec::new()),
                }
            },
            OperationKind::SetMinBalance => {
                let id = match read_u64(input, 4, Field::Id) {
                    Err(e) => {
                        return Err(e);
                    },
                    Ok(v) => v,
                };
                let mb = match read_u128(input, 36, Field::MinBalance) {
                    Err(e) => {
                        return Err(e);
                    },
                    Ok(v) => v,
                };
                match Self::set_min_balance::<M, L>(ledger, ctx, id, mb) {
                    Err(e) => Err(e),
                    Ok(()) => Ok(Vec::new()),
                }
            },
            OperationKind::SetTeam => {
                let id = match read_u64(input, 4, Field::Id) {
                    Err(e) => {
                        return Err(e);
                    },
                    Ok(v) => v,
                };
                let issuer = match read_address(input, 36, Field::Issuer) {
                    Err(e) => {
                        return Err(e);
                    },
                    Ok(a) => a,
                };
                let admin = match read_address(input, 68, Field::Admin) {
                    Err(e) => {
                        return Err(e);
                    },
                    Ok(a) => a,
                };
                let freezer = match read_address(input, 100, Field::Freezer) {
                    Err(e) => {
                        return Err(e);
                    },
                    Ok(a) => a,
                };
                match Self::set_team::<M, L>(ledger, ctx, id, issuer, admin, freezer) {
                    Err(e) => Err(e),
                    Ok(()) => Ok(Vec::new()),
                }
            },
            OperationKind::TransferOwnership => {
                let id = match read_u64(input, 4, Field::Id) {
                    Err(e) => {
                        return Err(e);
                    },
                    Ok(v) => v,
                };
                let owner = match read_address(input, 36, Field::Owner) {
                    Err(e) => {
                        return Err(e);
                    },
                    Ok(a) => a,
                };
                match Self::transfer_ownership::<M, L>(ledger, ctx, id, owner) {
                    Err(e) => Err(e),
                    Ok(()) => Ok(Vec::new()),
                }
            },
            OperationKind::StartDestroy => {
                let id = match read_u64(input, 4, Field::Id) {
                    Err(e) => {
                        return Err(e);
                    },
                    Ok(v) => v,
                };
                match Self::start_destroy::<M, L>(ledger, ctx, id) {
                    Err(e) => Err(e),
                    Ok(()) => Ok(Vec::new()),
                }
            },
            OperationKind::FinishDestroy => {
                let id = match read_u64(input, 4, Field::Id) {
                    Err(e) => {
                        return Err(e);
                    },
                    Ok(v) => v,
                };
                match Self::finish_destroy::<M, L>(ledger, ctx, id) {
                    Err(e) => Err(e),
                    Ok(()) => Ok(Vec::new()),
                }
            },
        }
    }
}

/// A call routed to the read-only address derivation is a pure function of
/// its input: it dispatches nothing, draws no gas, and its result does not
/// depend on the ledger's state or the call context, so repeating it under
/// any states yields the same result.
pub proof fn lemma_convert_is_read_only<M: AddressMapper, L: AssetLedger>(
    l1: L,
    l2: L,
    c1: CallContext,
    c2: CallContext,
    input: Seq<u8>,
)
    requires
        selector_spec(input) matches Ok(sel) && route_spec(sel) == Some(
            OperationKind::ConvertAssetIdToAddress,
        ),
    ensures
        execute_outcome::<M, L>(l1, c1, input).history == l1.history(),
        execute_outcome::<M, L>(l1, c1, input).gas_used == c1.gas_used,
        execute_outcome::<M, L>(l1, c1, input).result == execute_outcome::<M, L>(
            l2,
            c2,
            input,
        ).result,
{
}

/// A creation under an inadmissible id never reaches the ledger: the
/// dispatch history is unchanged and the result is the fixed custom
/// rejection — while the log pre-charge, which deliberately precedes the
/// admissibility check, has already been drawn whenever the budget covered
/// it.
pub proof fn lemma_inadmissible_create_no_dispatch<M: AddressMapper, L: AssetLedger>(
    ledger: L,
    ctx: CallContext,
    id: u64,
    admin: Seq<u8>,
    min_balance: u128,
)
    requires
        fits_internal_id(id),
        !admissible_for_creation(id as u32),
    ensures
        ({
            let o = create_outcome::<M, L>(ledger, ctx, id, admin, min_balance);
            o.history == ledger.history() && (ctx.gas_used + log_cost(3, 32) <= ctx.gas_limit
                ==> o.result == Err::<(), Revert>(Revert::Custom(CustomReason::InvalidAssetId))
                && o.gas_used == ctx.gas_used + log_cost(3, 32)) && (ctx.gas_used + log_cost(3, 32)
                > ctx.gas_limit ==> o.result == Err::<(), Revert>(Revert::OutOfGas) && o.gas_used
                == ctx.gas_used)
        }),
{
}

/// An oversized metadata byte string stops the call at decode time: the
/// oversized-data revert comes back with no gas drawn and nothing
/// dispatched — neither validation nor the ledger is ever reached.
pub proof fn lemma_oversized_metadata_stops_at_decode<M: AddressMapper, L: AssetLedger>(
    ledger: L,
    ctx: CallContext,
    input: Seq<u8>,
    f: Field,
)
    requires
        selector_spec(input) matches Ok(sel) && route_spec(sel) == Some(OperationKind::SetMetadata),
        read_uint_spec(input, 4, 8, Field::Id) is Ok,
        (read_bytes_spec(input, 4, 36, Field::Name) == Err::<Seq<u8>, Revert>(
            Revert::OversizedBytes(Field::Name),
        ) && f == Field::Name) || (read_bytes_spec(input, 4, 36, Field::Name) is Ok
            && read_bytes_spec(input, 4, 68, Field::Symbol) == Err::<Seq<u8>, Revert>(
            Revert::OversizedBytes(Field::Symbol),
        ) && f == Field::Symbol),
    ensures
        ({
            let o = execute_outcome::<M, L>(ledger, ctx, input);
            o.result == Err::<Seq<u8>, Revert>(Revert::OversizedBytes(f)) && o.history
                == ledger.history() && o.gas_used == ctx.gas_used
        }),
{
}

/// Whatever the operation and whatever its arguments decode to, a request
/// the bridge dispatches carries as origin the identifier mapped from the
/// invocation's authenticated caller address — never one from a decoded
/// argument.
pub proof fn lemma_origin_is_mapped_caller<M: AddressMapper, L: AssetLedger>(
    ledger: L,
    ctx: CallContext,
    input: Seq<u8>,
)
    ensures
        ({
            let o = execute_outcome::<M, L>(ledger, ctx, input);
            o.history.len() > ledger.history().len() ==> o.history == ledger.history().push(
                RequestV { origin: M::account_of(ctx.caller@), call: o.history.last().call },
            )
        }),
{
}

} // verus!
