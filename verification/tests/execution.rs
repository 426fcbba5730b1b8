//! Runs the generated contract and the invocation script on the FuelVM
//! interpreter: deploy, fund, withdraw, and watch where the coins go.

use fee_collection_contract::{build_invocation, generate};

use fuel_core_types::fuel_asm::PanicReason;
use fuel_core_types::fuel_tx::field::Outputs;
use fuel_core_types::fuel_tx::{AssetId, Output, Receipt, ScriptExecutionResult};
use fuel_core_types::fuel_vm::util::test_helpers::TestBuilder;

/// The index at which the invocation transaction declares its variable
/// output: outputs are [contract output, variable output].
const VARIABLE_OUTPUT_INDEX: u64 = 1;

fn sweep(
    ctx: &mut TestBuilder,
    contract_id: fuel_core_types::fuel_tx::ContractId,
    declare_variable_output: bool,
) -> (Vec<Receipt>, Vec<Output>) {
    let asset_id = AssetId::zeroed();
    let (script, data) =
        build_invocation(&asset_id, VARIABLE_OUTPUT_INDEX, &contract_id);

    let builder = ctx
        .start_script_bytes(script, data)
        .script_gas_limit(1_000_000)
        .contract_input(contract_id)
        .fee_input()
        .contract_output(&contract_id);
    if declare_variable_output {
        builder.variable_output(AssetId::zeroed());
    }
    let state = builder.execute();
    (state.receipts().to_vec(), state.tx().outputs().to_vec())
}

fn script_result(receipts: &[Receipt]) -> ScriptExecutionResult {
    receipts
        .iter()
        .find_map(|receipt| match receipt {
            Receipt::ScriptResult { result, .. } => Some(*result),
            _ => None,
        })
        .expect("script execution leaves a result receipt")
}

fn transfer_out(receipts: &[Receipt]) -> Option<([u8; 32], u64)> {
    receipts.iter().find_map(|receipt| match receipt {
        Receipt::TransferOut { to, amount, .. } => Some((**to, *amount)),
        _ => None,
    })
}

#[test]
fn withdrawal_sweeps_full_balance_to_recipient() {
    let recipient: [u8; 32] = [0x5B; 32];
    let balance: u64 = 1000;
    let mut ctx = TestBuilder::new(1234);
    let contract_id = ctx
        .setup_contract_bytes(generate(&recipient), Some((AssetId::zeroed(), balance)), None)
        .contract_id;

    let (receipts, outputs) = sweep(&mut ctx, contract_id, true);

    assert_eq!(script_result(&receipts), ScriptExecutionResult::Success);

    // The transfer goes to exactly the address embedded at generation time,
    // for the full balance.
    let (to, amount) = transfer_out(&receipts).expect("expected a transfer");
    assert_eq!(to, recipient);
    assert_eq!(amount, balance);

    // The variable output is filled in with the recipient and the amount.
    let filled = outputs
        .iter()
        .find_map(|output| match output {
            Output::Variable { to, amount, .. } => Some((**to, *amount)),
            _ => None,
        })
        .expect("expected a variable output");
    assert_eq!(filled, (recipient, balance));

    // The contract is left empty.
    assert_eq!(ctx.get_contract_balance(&contract_id, &AssetId::zeroed()), 0);
}

#[test]
fn withdrawal_recipient_follows_generation_address() {
    // Two contracts generated from different addresses route their balances
    // to their own recipients.
    for recipient in [[0x01u8; 32], [0xEEu8; 32]] {
        let mut ctx = TestBuilder::new(42);
        let contract_id = ctx
            .setup_contract_bytes(generate(&recipient), Some((AssetId::zeroed(), 7)), None)
            .contract_id;
        let (receipts, _) = sweep(&mut ctx, contract_id, true);
        assert_eq!(transfer_out(&receipts), Some((recipient, 7)));
    }
}

#[test]
fn withdrawal_with_zero_balance_is_successful_noop() {
    let recipient: [u8; 32] = [0x33; 32];
    let mut ctx = TestBuilder::new(1234);
    let contract_id = ctx
        .setup_contract_bytes(generate(&recipient), Some((AssetId::zeroed(), 0)), None)
        .contract_id;

    let (receipts, outputs) = sweep(&mut ctx, contract_id, true);

    // The call reports success, nothing is transferred, and the variable
    // output stays unfilled.
    assert_eq!(script_result(&receipts), ScriptExecutionResult::Success);
    assert_eq!(transfer_out(&receipts), None);
    let unfilled = outputs
        .iter()
        .find_map(|output| match output {
            Output::Variable { amount, .. } => Some(*amount),
            _ => None,
        })
        .expect("expected a variable output");
    assert_eq!(unfilled, 0);
    assert_eq!(ctx.get_contract_balance(&contract_id, &AssetId::zeroed()), 0);
}

#[test]
fn withdrawal_without_variable_output_fails_and_keeps_balance() {
    let recipient: [u8; 32] = [0x44; 32];
    let mut ctx = TestBuilder::new(1234);
    let contract_id = ctx
        .setup_contract_bytes(generate(&recipient), Some((AssetId::zeroed(), 1)), None)
        .contract_id;

    let (receipts, _) = sweep(&mut ctx, contract_id, false);

    // The transfer step cannot find the declared output and the call fails.
    let reason = receipts
        .iter()
        .find_map(|receipt| match receipt {
            Receipt::Panic { reason, .. } => Some(*reason.reason()),
            _ => None,
        })
        .expect("expected the execution to panic");
    assert_eq!(reason, PanicReason::OutputNotFound);
    assert_ne!(script_result(&receipts), ScriptExecutionResult::Success);

    // Nothing was withdrawn.
    assert_eq!(ctx.get_contract_balance(&contract_id, &AssetId::zeroed()), 1);
}
