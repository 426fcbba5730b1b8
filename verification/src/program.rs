//! The program generator: machine code for the fee-sweeping contract.
//!
//! The generated program is `[jump word] [embedded recipient address] [body]`.
//! Execution begins at word 0; the leading jump skips the embedded address,
//! and the body then reads the caller's script data, checks the contract's
//! balance of the named asset, and either returns at once (zero balance) or
//! transfers the whole balance to the embedded recipient and returns. Both
//! paths return success: the program has no failure path of its own.

use vstd::prelude::*;
use crate::isa::{
    ADDRESS_WIDTH, ASSET_ID_WIDTH, INSTRUCTION_WIDTH, REGISTER_COUNT,
    REG_ZERO, REG_ONE, REG_FP, REG_CGAS, REG_IS,
    GTF_SCRIPT_DATA, OPC_RET, is_reserved_register,
    enc_ji, enc_gtf, enc_addi, enc_lw, enc_move, enc_bal, enc_jnzf, enc_ret, enc_tro,
    ji_jump_target,
    op_ji, op_gtf, op_addi, op_lw, op_move, op_bal, op_jnzf, op_ret, op_tro,
};

verus! {

// Scratch registers used by the program body. Arbitrary, but they must not
// collide with the reserved registers; `lemma_scratch_registers_valid`
// states that they do not.
pub const REG_ASSET_ID: u8 = 0x10;
pub const REG_BALANCE: u8 = 0x11;
pub const REG_CONTRACT_ID: u8 = 0x12;
pub const REG_OUTPUT_INDEX: u8 = 0x13;
pub const REG_RECIPIENT: u8 = 0x14;

/// Word index the leading jump lands on: one word for the jump itself plus
/// however many whole instruction words the embedded address occupies,
/// rounded up.
pub const JUMP_TARGET_WORDS: usize = 1 + (ADDRESS_WIDTH + INSTRUCTION_WIDTH - 1)
    / INSTRUCTION_WIDTH;

/// Number of instructions in the program body.
pub const BODY_INSTRUCTION_COUNT: usize = 10;

/// The scratch registers are valid register ids and collide with no
/// reserved register.
pub proof fn lemma_scratch_registers_valid()
    ensures
        forall|r: u8|
            (r == REG_ASSET_ID || r == REG_BALANCE || r == REG_CONTRACT_ID
                || r == REG_OUTPUT_INDEX || r == REG_RECIPIENT)
                ==> r < REGISTER_COUNT && !is_reserved_register(r),
{
}

/// The instruction stream executed after the leading jump.
pub open spec fn body_bytes() -> Seq<u8> {
    // Pointer to the script-data region, which starts with the asset id.
    enc_gtf(REG_ASSET_ID, REG_ZERO, GTF_SCRIPT_DATA)
    // Pointer to the output-index field that follows the asset id, ...
    + enc_addi(REG_OUTPUT_INDEX, REG_ASSET_ID, ASSET_ID_WIDTH as u16)
    // ... replaced by the output index itself.
    + enc_lw(REG_OUTPUT_INDEX, REG_OUTPUT_INDEX, 0)
    // The call frame begins with this contract's own id.
    + enc_move(REG_CONTRACT_ID, REG_FP)
    // Balance of the asset held by this contract.
    + enc_bal(REG_BALANCE, REG_ASSET_ID, REG_CONTRACT_ID)
    // A nonzero balance skips the early return.
    + enc_jnzf(REG_BALANCE, REG_ZERO, 1)
    + enc_ret(REG_ONE)
    // The embedded recipient address sits one instruction word past the
    // start of the code.
    + enc_addi(REG_RECIPIENT, REG_IS, INSTRUCTION_WIDTH as u16)
    // Transfer the whole balance to the recipient's output.
    + enc_tro(REG_RECIPIENT, REG_OUTPUT_INDEX, REG_BALANCE, REG_ASSET_ID)
    + enc_ret(REG_ONE)
}

/// The complete program: the jump over the embedded address, the address,
/// then the body.
pub open spec fn program_bytes(address: Seq<u8>) -> Seq<u8> {
    enc_ji(JUMP_TARGET_WORDS as u32) + address + body_bytes()
}

/// Generates the bytecode of the fee collection contract that sweeps its
/// balance to `address`. The contract expects the asset id and the output
/// index as the first elements of the caller's script data.
pub fn generate(address: &[u8; 32]) -> (code: Vec<u8>)
    ensures
        code@ == program_bytes(address@),
{
    proof {
        // None of the chosen scratch registers shadows a reserved one.
        lemma_scratch_registers_valid();
    }
    let mut code: Vec<u8> = Vec::new();

    let mut word = op_ji(JUMP_TARGET_WORDS as u32);
    code.append(&mut word);

    // Embed the address immediately after the jump.
    code.extend_from_slice(vstd::array::array_as_slice(address));

    let mut word = op_gtf(REG_ASSET_ID, REG_ZERO, GTF_SCRIPT_DATA);
    code.append(&mut word);
    let mut word = op_addi(REG_OUTPUT_INDEX, REG_ASSET_ID, ASSET_ID_WIDTH as u16);
    code.append(&mut word);
    let mut word = op_lw(REG_OUTPUT_INDEX, REG_OUTPUT_INDEX, 0);
    code.append(&mut word);
    let mut word = op_move(REG_CONTRACT_ID, REG_FP);
    code.append(&mut word);
    let mut word = op_bal(REG_BALANCE, REG_ASSET_ID, REG_CONTRACT_ID);
    code.append(&mut word);
    let mut word = op_jnzf(REG_BALANCE, REG_ZERO, 1);
    code.append(&mut word);
    let mut word = op_ret(REG_ONE);
    code.append(&mut word);
    let mut word = op_addi(REG_RECIPIENT, REG_IS, INSTRUCTION_WIDTH as u16);
    code.append(&mut word);
    let mut word = op_tro(REG_RECIPIENT, REG_OUTPUT_INDEX, REG_BALANCE, REG_ASSET_ID);
    code.append(&mut word);
    let mut word = op_ret(REG_ONE);
    code.append(&mut word);

    proof {
        assert(code@ =~= program_bytes(address@));
    }
    code
}

/// Layout exactness: for any 32-byte address, the generated program is one
/// jump word, then exactly the address, then the fixed nonempty body; and
/// the jump target decoded from the leading word is one plus the number of
/// instruction words the address occupies, rounded up.
pub proof fn lemma_program_layout(address: Seq<u8>)
    requires
        address.len() == ADDRESS_WIDTH,
    ensures
        program_bytes(address).len() == INSTRUCTION_WIDTH + ADDRESS_WIDTH + BODY_INSTRUCTION_COUNT
            * INSTRUCTION_WIDTH,
        program_bytes(address).subrange(0, INSTRUCTION_WIDTH as int) == enc_ji(
            JUMP_TARGET_WORDS as u32,
        ),
        program_bytes(address).subrange(
            INSTRUCTION_WIDTH as int,
            (INSTRUCTION_WIDTH + ADDRESS_WIDTH) as int,
        ) == address,
        program_bytes(address).subrange(
            (INSTRUCTION_WIDTH + ADDRESS_WIDTH) as int,
            program_bytes(address).len() as int,
        ) == body_bytes(),
        body_bytes().len() > 0,
        ji_jump_target(program_bytes(address).subrange(0, INSTRUCTION_WIDTH as int)) == 1 + (
        ADDRESS_WIDTH + INSTRUCTION_WIDTH - 1) as int / INSTRUCTION_WIDTH as int,
{
    assert(program_bytes(address).subrange(0, INSTRUCTION_WIDTH as int) =~= enc_ji(
        JUMP_TARGET_WORDS as u32,
    ));
    assert(program_bytes(address).subrange(
        INSTRUCTION_WIDTH as int,
        (INSTRUCTION_WIDTH + ADDRESS_WIDTH) as int,
    ) =~= address);
    assert(program_bytes(address).subrange(
        (INSTRUCTION_WIDTH + ADDRESS_WIDTH) as int,
        program_bytes(address).len() as int,
    ) =~= body_bytes());
}

/// Determinism: the program is a function of the embedded address alone,
/// so any two outputs that meet `generate`'s contract for the same address
/// are byte-identical.
pub proof fn lemma_generate_deterministic(address: Seq<u8>, first: Seq<u8>, second: Seq<u8>)
    requires
        first == program_bytes(address),
        second == program_bytes(address),
    ensures
        first == second,
{
}

/// The instruction at word index `i` of the program body.
pub open spec fn body_word(i: int) -> Seq<u8> {
    body_bytes().subrange(i * INSTRUCTION_WIDTH, (i + 1) * INSTRUCTION_WIDTH)
}

/// Recipient recovery, the part the bytes alone decide: the body computes
/// its recipient pointer by adding exactly one instruction width to the
/// instruction-start register, and one instruction width into the program
/// lies exactly the address passed to generation, which the transfer
/// instruction then names as its recipient. That an execution with nonzero
/// balance credits that address is up to the VM these words are written
/// for.
pub proof fn lemma_recipient_is_embedded_address(address: Seq<u8>)
    requires
        address.len() == ADDRESS_WIDTH,
    ensures
        body_word(7) == enc_addi(REG_RECIPIENT, REG_IS, INSTRUCTION_WIDTH as u16),
        program_bytes(address).subrange(
            INSTRUCTION_WIDTH as int,
            (INSTRUCTION_WIDTH + ADDRESS_WIDTH) as int,
        ) == address,
        body_word(8) == enc_tro(REG_RECIPIENT, REG_OUTPUT_INDEX, REG_BALANCE, REG_ASSET_ID),
{
    assert(body_word(7) =~= enc_addi(REG_RECIPIENT, REG_IS, INSTRUCTION_WIDTH as u16));
    assert(body_word(8) =~= enc_tro(REG_RECIPIENT, REG_OUTPUT_INDEX, REG_BALANCE, REG_ASSET_ID));
    lemma_program_layout(address);
}

/// The body holds exactly two return instructions — the early return taken
/// on a zero balance and the final return after the transfer — and both
/// return the success signal.
pub proof fn lemma_exactly_two_success_returns()
    ensures
        forall|i: int|
            0 <= i < BODY_INSTRUCTION_COUNT ==> (#[trigger] body_word(i) == enc_ret(REG_ONE) <==> (
            i == 6 || i == 9)),
{
    assert forall|i: int| 0 <= i < BODY_INSTRUCTION_COUNT implies (#[trigger] body_word(i)
        == enc_ret(REG_ONE) <==> (i == 6 || i == 9)) by {
        assert(body_word(i) =~= body_bytes().subrange(
            i * INSTRUCTION_WIDTH,
            (i + 1) * INSTRUCTION_WIDTH,
        ));
        if i == 6 || i == 9 {
            assert(body_word(i) =~= enc_ret(REG_ONE));
        } else {
            // Every other word begins with a different opcode byte.
            assert(body_word(i)[0] != OPC_RET);
        }
    }
}

} // verus!
