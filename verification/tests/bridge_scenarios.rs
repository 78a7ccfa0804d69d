use assets_factory::bridge::AssetsFactoryPrecompile;
use assets_factory::domain::{AccountId, AssetId, EvmAddress};
use assets_factory::gas::CallContext;
use assets_factory::ledger::{AssetCall, EmbeddingAddressMapper, RecordingLedger, Request};
use assets_factory::revert::{CustomReason, Field, LedgerError, Revert};
use assets_factory::selector::{selector_for, OperationKind};

// log pre-charge of every mutating operation: 375 + 3 * 375 + 32 * 8
const LOG_CHARGE: u64 = 1756;

// metered cost the test engine charges per dispatched request
const DISPATCH_GAS: u64 = 100;

fn calldata(op: OperationKind) -> Vec<u8> {
    selector_for(op).to_be_bytes().to_vec()
}

fn push_word(buf: &mut Vec<u8>, v: u128) {
    let mut w = [0u8; 32];
    w[16..].copy_from_slice(&v.to_be_bytes());
    buf.extend_from_slice(&w);
}

fn push_address_word(buf: &mut Vec<u8>, a: &[u8; 20]) {
    buf.extend_from_slice(&[0u8; 12]);
    buf.extend_from_slice(a);
}

fn mapped(a: [u8; 20]) -> AccountId {
    let mut b = [0u8; 32];
    b[..20].copy_from_slice(&a);
    AccountId(b)
}

fn run(
    ledger: &mut RecordingLedger,
    ctx: &mut CallContext,
    input: &Vec<u8>,
) -> Result<Vec<u8>, Revert> {
    AssetsFactoryPrecompile::execute::<EmbeddingAddressMapper, RecordingLedger>(ledger, ctx, input)
}

#[test]
fn create_dispatches_with_mapped_origin_and_admin() {
    let mut ledger = RecordingLedger::new(DISPATCH_GAS);
    let mut ctx = CallContext::new(EvmAddress([0xBB; 20]), 1_000_000);
    let mut input = calldata(OperationKind::Create);
    push_word(&mut input, 5);
    push_address_word(&mut input, &[0xAA; 20]);
    push_word(&mut input, 1000);

    let r = run(&mut ledger, &mut ctx, &input);
    assert_eq!(r, Ok(vec![]));
    assert_eq!(ledger.requests.len(), 1);
    assert_eq!(
        ledger.requests[0],
        Request {
            origin: mapped([0xBB; 20]),
            call: AssetCall::Create {
                id: AssetId(5),
                admin: mapped([0xAA; 20]),
                min_balance: 1000,
            },
        }
    );
    assert_eq!(ctx.gas_used, LOG_CHARGE + DISPATCH_GAS);
}

#[test]
fn create_rejects_a_reserved_id_without_dispatching() {
    for reserved in [0u64, 0x8000_0000u64] {
        let mut ledger = RecordingLedger::new(DISPATCH_GAS);
        let mut ctx = CallContext::new(EvmAddress([0xBB; 20]), 1_000_000);
        let mut input = calldata(OperationKind::Create);
        push_word(&mut input, reserved as u128);
        push_address_word(&mut input, &[0xAA; 20]);
        push_word(&mut input, 1000);

        let r = run(&mut ledger, &mut ctx, &input);
        assert_eq!(r, Err(Revert::Custom(CustomReason::InvalidAssetId)));
        assert_eq!(r.unwrap_err().message(), "Invalid asset id");
        assert_eq!(ledger.requests.len(), 0);
        // the log pre-charge deliberately precedes the admissibility check
        assert_eq!(ctx.gas_used, LOG_CHARGE);
    }
}

#[test]
fn create_rejects_an_id_over_the_internal_range() {
    let mut ledger = RecordingLedger::new(DISPATCH_GAS);
    let mut ctx = CallContext::new(EvmAddress([0xBB; 20]), 1_000_000);
    let mut input = calldata(OperationKind::Create);
    push_word(&mut input, (u32::MAX as u128) + 1);
    push_address_word(&mut input, &[0xAA; 20]);
    push_word(&mut input, 1000);

    let r = run(&mut ledger, &mut ctx, &input);
    assert_eq!(r, Err(Revert::ValueTooLarge(Field::Id)));
    assert_eq!(r.unwrap_err().message(), "id: Value is too large");
    assert_eq!(ledger.requests.len(), 0);
    // the id narrows after the pre-charge, so the charge is already drawn
    assert_eq!(ctx.gas_used, LOG_CHARGE);
}

#[test]
fn create_rejects_an_id_over_the_declared_width_at_decode() {
    let mut ledger = RecordingLedger::new(DISPATCH_GAS);
    let mut ctx = CallContext::new(EvmAddress([0xBB; 20]), 1_000_000);
    let mut input = calldata(OperationKind::Create);
    push_word(&mut input, (u64::MAX as u128) + 1);
    push_address_word(&mut input, &[0xAA; 20]);
    push_word(&mut input, 1000);

    let r = run(&mut ledger, &mut ctx, &input);
    assert_eq!(r, Err(Revert::ValueTooLarge(Field::Id)));
    assert_eq!(ledger.requests.len(), 0);
    // a decode failure precedes every charge
    assert_eq!(ctx.gas_used, 0);
}

#[test]
fn create_truncated_arguments_fail_per_field() {
    let mut ledger = RecordingLedger::new(DISPATCH_GAS);
    let mut ctx = CallContext::new(EvmAddress([0xBB; 20]), 1_000_000);
    let mut input = calldata(OperationKind::Create);
    push_word(&mut input, 5);

    let r = run(&mut ledger, &mut ctx, &input);
    assert_eq!(r, Err(Revert::ReadOutOfBounds(Field::Admin)));
    assert_eq!(ctx.gas_used, 0);
    assert_eq!(ledger.requests.len(), 0);
}

#[test]
fn set_min_balance_saturates_an_oversized_balance() {
    let mut ledger = RecordingLedger::new(DISPATCH_GAS);
    let mut ctx = CallContext::new(EvmAddress([0xBB; 20]), 1_000_000);
    let mut input = calldata(OperationKind::SetMinBalance);
    push_word(&mut input, 5);
    push_word(&mut input, 1u128 << 100);

    let r = run(&mut ledger, &mut ctx, &input);
    assert_eq!(r, Ok(vec![]));
    assert_eq!(ledger.requests.len(), 1);
    assert_eq!(
        ledger.requests[0],
        Request {
            origin: mapped([0xBB; 20]),
            call: AssetCall::SetMinBalance { id: AssetId(5), min_balance: u64::MAX },
        }
    );
}

#[test]
fn set_min_balance_keeps_an_in_range_balance_exact() {
    let mut ledger = RecordingLedger::new(DISPATCH_GAS);
    let mut ctx = CallContext::new(EvmAddress([0xBB; 20]), 1_000_000);
    let mut input = calldata(OperationKind::SetMinBalance);
    push_word(&mut input, 5);
    push_word(&mut input, u64::MAX as u128);

    let r = run(&mut ledger, &mut ctx, &input);
    assert_eq!(r, Ok(vec![]));
    assert_eq!(
        ledger.requests[0].call,
        AssetCall::SetMinBalance { id: AssetId(5), min_balance: u64::MAX }
    );
}

#[test]
fn set_min_balance_rejects_a_balance_over_the_declared_width() {
    let mut ledger = RecordingLedger::new(DISPATCH_GAS);
    let mut ctx = CallContext::new(EvmAddress([0xBB; 20]), 1_000_000);
    let mut input = calldata(OperationKind::SetMinBalance);
    push_word(&mut input, 5);
    // a word holding 2^130: over the 128-bit declared width of the field
    let mut w = [0u8; 32];
    w[15] = 4;
    input.extend_from_slice(&w);

    let r = run(&mut ledger, &mut ctx, &input);
    assert_eq!(r, Err(Revert::ValueTooLarge(Field::MinBalance)));
    assert_eq!(ledger.requests.len(), 0);
    assert_eq!(ctx.gas_used, 0);
}

#[test]
fn out_of_gas_on_the_log_charge_precedes_any_dispatch() {
    let mut ledger = RecordingLedger::new(DISPATCH_GAS);
    let mut ctx = CallContext::new(EvmAddress([0xBB; 20]), LOG_CHARGE - 1);
    let mut input = calldata(OperationKind::Create);
    push_word(&mut input, 5);
    push_address_word(&mut input, &[0xAA; 20]);
    push_word(&mut input, 1000);

    let r = run(&mut ledger, &mut ctx, &input);
    assert_eq!(r, Err(Revert::OutOfGas));
    assert_eq!(r.unwrap_err().message(), "Out of gas");
    assert_eq!(ledger.requests.len(), 0);
    assert_eq!(ctx.gas_used, 0);
}

#[test]
fn out_of_gas_on_the_dispatch_charge_leaves_the_ledger_untouched() {
    let mut ledger = RecordingLedger::new(DISPATCH_GAS);
    let mut ctx = CallContext::new(EvmAddress([0xBB; 20]), LOG_CHARGE + DISPATCH_GAS - 1);
    let mut input = calldata(OperationKind::StartDestroy);
    push_word(&mut input, 5);

    let r = run(&mut ledger, &mut ctx, &input);
    assert_eq!(r, Err(Revert::OutOfGas));
    assert_eq!(ledger.requests.len(), 0);
    assert_eq!(ctx.gas_used, LOG_CHARGE);
}

#[test]
fn set_metadata_dispatches_name_symbol_and_decimals() {
    let mut ledger = RecordingLedger::new(DISPATCH_GAS);
    let mut ctx = CallContext::new(EvmAddress([0xBB; 20]), 1_000_000);
    let mut input = calldata(OperationKind::SetMetadata);
    push_word(&mut input, 5);
    push_word(&mut input, 128); // offset of name, from the argument section
    push_word(&mut input, 192); // offset of symbol
    push_word(&mut input, 12);
    push_word(&mut input, 4); // name length
    input.extend_from_slice(b"Peaq");
    input.extend_from_slice(&[0u8; 28]);
    push_word(&mut input, 3); // symbol length
    input.extend_from_slice(b"PEQ");
    input.extend_from_slice(&[0u8; 29]);

    let r = run(&mut ledger, &mut ctx, &input);
    assert_eq!(r, Ok(vec![]));
    assert_eq!(
        ledger.requests[0],
        Request {
            origin: mapped([0xBB; 20]),
            call: AssetCall::SetMetadata {
                id: AssetId(5),
                name: b"Peaq".to_vec(),
                symbol: b"PEQ".to_vec(),
                decimals: 12,
            },
        }
    );
}

#[test]
fn set_metadata_rejects_an_oversized_name_at_decode() {
    let mut ledger = RecordingLedger::new(DISPATCH_GAS);
    let mut ctx = CallContext::new(EvmAddress([0xBB; 20]), 1_000_000);
    let mut input = calldata(OperationKind::SetMetadata);
    push_word(&mut input, 5);
    push_word(&mut input, 128);
    push_word(&mut input, 192);
    push_word(&mut input, 12);
    push_word(&mut input, 65537); // name length over the bound
    input.extend_from_slice(&[0u8; 64]);

    let r = run(&mut ledger, &mut ctx, &input);
    assert_eq!(r, Err(Revert::OversizedBytes(Field::Name)));
    assert_eq!(r.unwrap_err().message(), "name: Bytes exceed maximum length");
    assert_eq!(ledger.requests.len(), 0);
    // decoding fails before any charge is drawn
    assert_eq!(ctx.gas_used, 0);
}

#[test]
fn set_metadata_rejects_an_oversized_symbol_at_decode() {
    let mut ledger = RecordingLedger::new(DISPATCH_GAS);
    let mut ctx = CallContext::new(EvmAddress([0xBB; 20]), 1_000_000);
    let mut input = calldata(OperationKind::SetMetadata);
    push_word(&mut input, 5);
    push_word(&mut input, 128);
    push_word(&mut input, 192);
    push_word(&mut input, 12);
    push_word(&mut input, 0); // empty name
    push_word(&mut input, 0);
    push_word(&mut input, 70000); // symbol length over the bound
    input.extend_from_slice(&[0u8; 32]);

    let r = run(&mut ledger, &mut ctx, &input);
    assert_eq!(r, Err(Revert::OversizedBytes(Field::Symbol)));
    assert_eq!(ledger.requests.len(), 0);
    assert_eq!(ctx.gas_used, 0);
}

#[test]
fn set_team_resolves_all_three_roles() {
    let mut ledger = RecordingLedger::new(DISPATCH_GAS);
    let mut ctx = CallContext::new(EvmAddress([0xBB; 20]), 1_000_000);
    let mut input = calldata(OperationKind::SetTeam);
    push_word(&mut input, 7);
    push_address_word(&mut input, &[0x11; 20]);
    push_address_word(&mut input, &[0x22; 20]);
    push_address_word(&mut input, &[0x33; 20]);

    let r = run(&mut ledger, &mut ctx, &input);
    assert_eq!(r, Ok(vec![]));
    assert_eq!(
        ledger.requests[0],
        Request {
            origin: mapped([0xBB; 20]),
            call: AssetCall::SetTeam {
                id: AssetId(7),
                issuer: mapped([0x11; 20]),
                admin: mapped([0x22; 20]),
                freezer: mapped([0x33; 20]),
            },
        }
    );
}

#[test]
fn transfer_ownership_resolves_the_new_owner() {
    let mut ledger = RecordingLedger::new(DISPATCH_GAS);
    let mut ctx = CallContext::new(EvmAddress([0xBB; 20]), 1_000_000);
    let mut input = calldata(OperationKind::TransferOwnership);
    push_word(&mut input, 9);
    push_address_word(&mut input, &[0x44; 20]);

    let r = run(&mut ledger, &mut ctx, &input);
    assert_eq!(r, Ok(vec![]));
    assert_eq!(
        ledger.requests[0],
        Request {
            origin: mapped([0xBB; 20]),
            call: AssetCall::TransferOwnership { id: AssetId(9), owner: mapped([0x44; 20]) },
        }
    );
}

#[test]
fn start_and_finish_destroy_dispatch_their_requests() {
    let mut ledger = RecordingLedger::new(DISPATCH_GAS);
    let mut ctx = CallContext::new(EvmAddress([0xBB; 20]), 1_000_000);
    let mut start = calldata(OperationKind::StartDestroy);
    push_word(&mut start, 5);
    let mut finish = calldata(OperationKind::FinishDestroy);
    push_word(&mut finish, 5);

    assert_eq!(run(&mut ledger, &mut ctx, &start), Ok(vec![]));
    assert_eq!(run(&mut ledger, &mut ctx, &finish), Ok(vec![]));
    assert_eq!(ledger.requests.len(), 2);
    assert_eq!(
        ledger.requests[0],
        Request { origin: mapped([0xBB; 20]), call: AssetCall::StartDestroy { id: AssetId(5) } }
    );
    assert_eq!(
        ledger.requests[1],
        Request { origin: mapped([0xBB; 20]), call: AssetCall::FinishDestroy { id: AssetId(5) } }
    );
    assert_eq!(ctx.gas_used, 2 * (LOG_CHARGE + DISPATCH_GAS));
}

#[test]
fn convert_asset_id_to_address_is_pure_and_deterministic() {
    let mut ledger = RecordingLedger::new(DISPATCH_GAS);
    let mut ctx = CallContext::new(EvmAddress([0xBB; 20]), 1_000_000);
    let mut input = calldata(OperationKind::ConvertAssetIdToAddress);
    push_word(&mut input, 5);

    let first = run(&mut ledger, &mut ctx, &input);
    let second = run(&mut ledger, &mut ctx, &input);
    assert_eq!(first, second);

    let mut expected = vec![0u8; 12];
    expected.extend_from_slice(&[0xFF, 0xFF, 0xFF, 0xFF]);
    expected.extend_from_slice(&[0u8; 12]);
    expected.extend_from_slice(&[0, 0, 0, 5]);
    assert_eq!(first, Ok(expected));

    // read-only: no dispatch, no gas drawn
    assert_eq!(ledger.requests.len(), 0);
    assert_eq!(ctx.gas_used, 0);
}

#[test]
fn convert_asset_id_to_address_rejects_an_out_of_range_id() {
    let mut ledger = RecordingLedger::new(DISPATCH_GAS);
    let mut ctx = CallContext::new(EvmAddress([0xBB; 20]), 1_000_000);
    let mut input = calldata(OperationKind::ConvertAssetIdToAddress);
    push_word(&mut input, (u32::MAX as u128) + 1);

    let r = run(&mut ledger, &mut ctx, &input);
    assert_eq!(r, Err(Revert::ValueTooLarge(Field::Id)));
    assert_eq!(ctx.gas_used, 0);
}

#[test]
fn a_ledger_failure_passes_through_untouched() {
    let mut ledger = RecordingLedger::rejecting(DISPATCH_GAS, LedgerError { code: 7 });
    let mut ctx = CallContext::new(EvmAddress([0xBB; 20]), 1_000_000);
    let mut input = calldata(OperationKind::StartDestroy);
    push_word(&mut input, 5);

    let r = run(&mut ledger, &mut ctx, &input);
    assert_eq!(r, Err(Revert::Ledger(LedgerError { code: 7 })));
    assert_eq!(r.unwrap_err().message(), "Dispatched call failed");
    // the request reached the ledger; the rejection is the ledger's own
    assert_eq!(ledger.requests.len(), 1);
    assert_eq!(ctx.gas_used, LOG_CHARGE + DISPATCH_GAS);
}

#[test]
fn an_unknown_selector_is_rejected() {
    let mut ledger = RecordingLedger::new(DISPATCH_GAS);
    let mut ctx = CallContext::new(EvmAddress([0xBB; 20]), 1_000_000);
    let input = vec![0xDE, 0xAD, 0xBE, 0xEF];

    let r = run(&mut ledger, &mut ctx, &input);
    assert_eq!(r, Err(Revert::UnknownSelector));
    assert_eq!(r.unwrap_err().message(), "Unknown selector");
}

#[test]
fn an_input_shorter_than_a_selector_is_rejected() {
    let mut ledger = RecordingLedger::new(DISPATCH_GAS);
    let mut ctx = CallContext::new(EvmAddress([0xBB; 20]), 1_000_000);
    let input = vec![0xDE, 0xAD];

    let r = run(&mut ledger, &mut ctx, &input);
    assert_eq!(r, Err(Revert::ReadOutOfBounds(Field::Selector)));
    assert_eq!(r.unwrap_err().message(), "selector: Tried to read out of bounds");
}
