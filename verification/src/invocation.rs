//! The invocation script builder: the caller's side of a withdrawal.
//!
//! A withdrawal transaction carries a small script and a script-data blob.
//! The blob starts with the asset id and the output index the contract
//! reads, followed by the call descriptor (the target contract id and two
//! reserved parameter words) the call instruction reads. The script points
//! a register at that descriptor and calls the contract.

use vstd::prelude::*;
use crate::isa::{
    ASSET_ID_WIDTH, CONTRACT_ID_WIDTH, WORD_WIDTH,
    REG_ZERO, REG_ONE, REG_CGAS,
    GTF_SCRIPT_DATA,
    enc_gtf, enc_addi, enc_call, enc_ret, is_reserved_register,
    op_gtf, op_addi, op_call, op_ret,
};

verus! {

/// Scratch register holding the pointer to the call descriptor.
pub const REG_CALL_STRUCT: u8 = 0x10;

/// An unsigned 64-bit value as 8 bytes in the VM's word order, most
/// significant byte first.
pub open spec fn be_word_bytes(value: u64) -> Seq<u8> {
    seq![
        ((value / 0x100000000000000) % 0x100) as u8,
        ((value / 0x1000000000000) % 0x100) as u8,
        ((value / 0x10000000000) % 0x100) as u8,
        ((value / 0x100000000) % 0x100) as u8,
        ((value / 0x1000000) % 0x100) as u8,
        ((value / 0x10000) % 0x100) as u8,
        ((value / 0x100) % 0x100) as u8,
        (value % 0x100) as u8,
    ]
}

/// The caller-side instruction stream: point a register at the call
/// descriptor inside the script data, call the contract with no forwarded
/// coins and all remaining gas, and return success.
pub open spec fn invocation_script_bytes() -> Seq<u8> {
    // Pointer to the script-data region.
    enc_gtf(REG_CALL_STRUCT, REG_ZERO, GTF_SCRIPT_DATA)
    // Advance past the asset id and the output index, onto the descriptor.
    + enc_addi(REG_CALL_STRUCT, REG_CALL_STRUCT, (ASSET_ID_WIDTH + WORD_WIDTH) as u16)
    + enc_call(REG_CALL_STRUCT, REG_ZERO, REG_ZERO, REG_CGAS)
    + enc_ret(REG_ONE)
}

/// The script-data blob: asset id, output index, then the call descriptor —
/// the target contract id and two reserved parameter words, always zero
/// here since the generated program ignores them.
pub open spec fn invocation_data_bytes(
    asset_id: Seq<u8>,
    output_index: u64,
    contract_id: Seq<u8>,
) -> Seq<u8> {
    asset_id + be_word_bytes(output_index) + contract_id + be_word_bytes(0) + be_word_bytes(0)
}

/// An unsigned 64-bit value as 8 bytes in the VM's word order, most
/// significant byte first — the order in which the generated program's
/// word-load instruction reads it back.
pub fn encode_word(value: u64) -> (r: Vec<u8>)
    ensures
        r@ == be_word_bytes(value),
{
    let mut r: Vec<u8> = Vec::new();
    r.push(((value / 0x100000000000000) % 0x100) as u8);
    r.push(((value / 0x1000000000000) % 0x100) as u8);
    r.push(((value / 0x10000000000) % 0x100) as u8);
    r.push(((value / 0x100000000) % 0x100) as u8);
    r.push(((value / 0x1000000) % 0x100) as u8);
    r.push(((value / 0x10000) % 0x100) as u8);
    r.push(((value / 0x100) % 0x100) as u8);
    r.push((value % 0x100) as u8);
    proof {
        assert(r@ =~= be_word_bytes(value));
    }
    r
}

/// Builds the caller side of a withdrawal from the contract deployed at
/// `contract_id`: the script instruction stream and the script-data blob.
/// The transaction that runs them must declare a variable output at
/// `output_index`; whether one is there is checked by the executing VM, not
/// here.
pub fn build_invocation(
    asset_id: &[u8; 32],
    output_index: u64,
    contract_id: &[u8; 32],
) -> (r: (Vec<u8>, Vec<u8>))
    ensures
        r.0@ == invocation_script_bytes(),
        r.1@ == invocation_data_bytes(asset_id@, output_index, contract_id@),
{
    proof {
        // The chosen scratch register shadows no reserved one.
        assert(!is_reserved_register(REG_CALL_STRUCT));
    }
    let mut script: Vec<u8> = Vec::new();
    let mut word = op_gtf(REG_CALL_STRUCT, REG_ZERO, GTF_SCRIPT_DATA);
    script.append(&mut word);
    let mut word = op_addi(REG_CALL_STRUCT, REG_CALL_STRUCT, (ASSET_ID_WIDTH + WORD_WIDTH) as u16);
    script.append(&mut word);
    let mut word = op_call(REG_CALL_STRUCT, REG_ZERO, REG_ZERO, REG_CGAS);
    script.append(&mut word);
    let mut word = op_ret(REG_ONE);
    script.append(&mut word);

    let mut data: Vec<u8> = Vec::new();
    data.extend_from_slice(vstd::array::array_as_slice(asset_id));
    let mut field = encode_word(output_index);
    data.append(&mut field);
    data.extend_from_slice(vstd::array::array_as_slice(contract_id));
    let mut field = encode_word(0);
    data.append(&mut field);
    let mut field = encode_word(0);
    data.append(&mut field);

    proof {
        assert(script@ =~= invocation_script_bytes());
        assert(data@ =~= invocation_data_bytes(asset_id@, output_index, contract_id@));
    }
    (script, data)
}

/// Determinism: both halves of the invocation are functions of the inputs
/// alone, so any two outputs that meet `build_invocation`'s contract for
/// the same inputs are byte-identical.
pub proof fn lemma_build_invocation_deterministic(
    asset_id: Seq<u8>,
    output_index: u64,
    contract_id: Seq<u8>,
    first: (Seq<u8>, Seq<u8>),
    second: (Seq<u8>, Seq<u8>),
)
    requires
        first.0 == invocation_script_bytes(),
        first.1 == invocation_data_bytes(asset_id, output_index, contract_id),
        second.0 == invocation_script_bytes(),
        second.1 == invocation_data_bytes(asset_id, output_index, contract_id),
    ensures
        first == second,
{
}

/// The script-data blob carries its fields at fixed offsets: the asset id
/// first, the output index next, then the contract id, then the two
/// reserved words, both zero.
pub proof fn lemma_invocation_data_layout(
    asset_id: Seq<u8>,
    output_index: u64,
    contract_id: Seq<u8>,
)
    requires
        asset_id.len() == ASSET_ID_WIDTH,
        contract_id.len() == CONTRACT_ID_WIDTH,
    ensures
        invocation_data_bytes(asset_id, output_index, contract_id).len() == ASSET_ID_WIDTH
            + WORD_WIDTH + CONTRACT_ID_WIDTH + 2 * WORD_WIDTH,
        invocation_data_bytes(asset_id, output_index, contract_id).subrange(
            0,
            ASSET_ID_WIDTH as int,
        ) == asset_id,
        invocation_data_bytes(asset_id, output_index, contract_id).subrange(
            ASSET_ID_WIDTH as int,
            (ASSET_ID_WIDTH + WORD_WIDTH) as int,
        ) == be_word_bytes(output_index),
        invocation_data_bytes(asset_id, output_index, contract_id).subrange(
            (ASSET_ID_WIDTH + WORD_WIDTH) as int,
            (ASSET_ID_WIDTH + WORD_WIDTH + CONTRACT_ID_WIDTH) as int,
        ) == contract_id,
        invocation_data_bytes(asset_id, output_index, contract_id).subrange(
            (ASSET_ID_WIDTH + WORD_WIDTH + CONTRACT_ID_WIDTH) as int,
            (ASSET_ID_WIDTH + WORD_WIDTH + CONTRACT_ID_WIDTH + 2 * WORD_WIDTH) as int,
        ) == be_word_bytes(0) + be_word_bytes(0),
{
    let data = invocation_data_bytes(asset_id, output_index, contract_id);
    assert(data.subrange(0, ASSET_ID_WIDTH as int) =~= asset_id);
    assert(data.subrange(ASSET_ID_WIDTH as int, (ASSET_ID_WIDTH + WORD_WIDTH) as int)
        =~= be_word_bytes(output_index));
    assert(data.subrange(
        (ASSET_ID_WIDTH + WORD_WIDTH) as int,
        (ASSET_ID_WIDTH + WORD_WIDTH + CONTRACT_ID_WIDTH) as int,
    ) =~= contract_id);
    assert(data.subrange(
        (ASSET_ID_WIDTH + WORD_WIDTH + CONTRACT_ID_WIDTH) as int,
        (ASSET_ID_WIDTH + WORD_WIDTH + CONTRACT_ID_WIDTH + 2 * WORD_WIDTH) as int,
    ) =~= be_word_bytes(0) + be_word_bytes(0));
}

} // verus!
