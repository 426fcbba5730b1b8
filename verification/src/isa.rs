//! The slice of the FuelVM instruction set that the generated code uses.
//!
//! Every FuelVM instruction is one 4-byte word: an opcode byte followed by a
//! 24-bit payload holding register ids (6 bits each, high to low) and an
//! immediate in the remaining low bits. The spec functions here state that
//! packing arithmetically; the executable wrappers obtain the actual words
//! from the `fuel_core_types::fuel_asm` assembler and are trusted to match.

use vstd::prelude::*;
use fuel_core_types::fuel_asm::op;

verus! {

// Fixed widths, in bytes, of the data the generated code works over.
pub const ADDRESS_WIDTH: usize = 32;
pub const ASSET_ID_WIDTH: usize = 32;
pub const CONTRACT_ID_WIDTH: usize = 32;
/// Width of the VM's unsigned integer word (the output index and the two
/// reserved call parameters).
pub const WORD_WIDTH: usize = 8;
/// Width of one instruction word.
pub const INSTRUCTION_WIDTH: usize = 4;

/// Size of the register file: register ids are 6-bit values.
pub const REGISTER_COUNT: u8 = 0x40;

// Reserved registers, by their fixed roles in the VM.
/// Always holds zero.
pub const REG_ZERO: u8 = 0x00;
/// Always holds one.
pub const REG_ONE: u8 = 0x01;
/// Frame pointer: address of the current call frame, which begins with the
/// id of the contract being executed.
pub const REG_FP: u8 = 0x06;
/// Gas remaining in the current context; as a call parameter it means
/// "forward all remaining gas".
pub const REG_CGAS: u8 = 0x0A;
/// Instruction start: address of the first byte of the executing code.
pub const REG_IS: u8 = 0x0C;

// Opcode bytes of the instructions used here.
pub const OPC_MOVE: u8 = 0x1A;
pub const OPC_RET: u8 = 0x24;
pub const OPC_CALL: u8 = 0x2D;
pub const OPC_TRO: u8 = 0x3D;
pub const OPC_BAL: u8 = 0x49;
pub const OPC_ADDI: u8 = 0x50;
pub const OPC_LW: u8 = 0x5D;
pub const OPC_GTF: u8 = 0x61;
pub const OPC_JNZF: u8 = 0x76;
pub const OPC_JI: u8 = 0x90;

/// Selector for the get-transaction-field instruction: address of the
/// transaction's script-data region.
pub const GTF_SCRIPT_DATA: u16 = 0x00A;

/// A register id reserved by the VM for a fixed role among those this
/// crate touches.
pub open spec fn is_reserved_register(r: u8) -> bool {
    r == REG_ZERO || r == REG_ONE || r == REG_FP || r == REG_CGAS || r == REG_IS
}

/// One instruction word as bytes: the opcode byte, then the 24-bit payload,
/// most significant byte first.
pub open spec fn instr_word(opcode: u8, payload: int) -> Seq<u8> {
    seq![
        opcode,
        ((payload / 0x10000) % 0x100) as u8,
        ((payload / 0x100) % 0x100) as u8,
        (payload % 0x100) as u8,
    ]
}

/// Payload of an instruction with up to four register operands: 6 bits each,
/// from bit 18 down.
pub open spec fn reg_payload(ra: u8, rb: u8, rc: u8, rd: u8) -> int {
    (ra as int) * 0x40000 + (rb as int) * 0x1000 + (rc as int) * 0x40 + (rd as int)
}

/// Payload of an instruction with two register operands and a 12-bit
/// immediate in the low bits.
pub open spec fn imm12_payload(ra: u8, rb: u8, imm: u16) -> int {
    (ra as int) * 0x40000 + (rb as int) * 0x1000 + (imm as int)
}

/// Unconditional jump to an absolute instruction-word index.
pub open spec fn enc_ji(target: u32) -> Seq<u8> {
    instr_word(OPC_JI, target as int)
}

/// The jump target encoded in a jump-immediate word, in instruction-word
/// units.
pub open spec fn ji_jump_target(word: Seq<u8>) -> int {
    (word[1] as int) * 0x10000 + (word[2] as int) * 0x100 + (word[3] as int)
}

/// Get a transaction field: `dst` receives the field selected by `selector`.
pub open spec fn enc_gtf(dst: u8, arg: u8, selector: u16) -> Seq<u8> {
    instr_word(OPC_GTF, imm12_payload(dst, arg, selector))
}

/// Add an immediate: `dst := lhs + rhs`.
pub open spec fn enc_addi(dst: u8, lhs: u8, rhs: u16) -> Seq<u8> {
    instr_word(OPC_ADDI, imm12_payload(dst, lhs, rhs))
}

/// Load a word from memory: `dst := memory[ptr + 8 * offset]`.
pub open spec fn enc_lw(dst: u8, ptr: u8, offset: u16) -> Seq<u8> {
    instr_word(OPC_LW, imm12_payload(dst, ptr, offset))
}

/// Copy a register: `dst := src`.
pub open spec fn enc_move(dst: u8, src: u8) -> Seq<u8> {
    instr_word(OPC_MOVE, reg_payload(dst, src, 0, 0))
}

/// Balance of the asset whose id is at `asset_ptr`, held by the contract
/// whose id is at `contract_ptr`, into `dst`.
pub open spec fn enc_bal(dst: u8, asset_ptr: u8, contract_ptr: u8) -> Seq<u8> {
    instr_word(OPC_BAL, reg_payload(dst, asset_ptr, contract_ptr, 0))
}

/// Jump `fixed + dynamic` words forward if `cond_nz` is nonzero.
pub open spec fn enc_jnzf(cond_nz: u8, dynamic: u8, fixed: u16) -> Seq<u8> {
    instr_word(OPC_JNZF, imm12_payload(cond_nz, dynamic, fixed))
}

/// Return from the current context with `value` as the return value.
pub open spec fn enc_ret(value: u8) -> Seq<u8> {
    instr_word(OPC_RET, reg_payload(value, 0, 0, 0))
}

/// Transfer `amount` units of the asset whose id is at `asset_ptr` to the
/// output at index `output_index`, crediting the address at `recipient_ptr`.
pub open spec fn enc_tro(recipient_ptr: u8, output_index: u8, amount: u8, asset_ptr: u8) -> Seq<u8> {
    instr_word(OPC_TRO, reg_payload(recipient_ptr, output_index, amount, asset_ptr))
}

/// Call the contract described by the call descriptor at `target_ptr`,
/// forwarding `fwd_coins` coins of the asset whose id is at `asset_ptr` and
/// `fwd_gas` gas.
pub open spec fn enc_call(target_ptr: u8, fwd_coins: u8, asset_ptr: u8, fwd_gas: u8) -> Seq<u8> {
    instr_word(OPC_CALL, reg_payload(target_ptr, fwd_coins, asset_ptr, fwd_gas))
}

/// Relies on `fuel_asm::op::ji` and `Instruction::to_bytes`: a JI word is
/// opcode 0x90 followed by the 24-bit jump target, most significant byte
/// first. `op::ji` panics on a target outside the 24-bit range.
#[verifier::external_body]
pub(crate) fn op_ji(target: u32) -> (r: Vec<u8>)
    requires
        target < 0x1000000,
    ensures
        r@ == enc_ji(target),
{
    op::ji(target).to_bytes().to_vec()
}

/// Relies on `fuel_asm::op::gtf` and `Instruction::to_bytes`: a GTF word is
/// opcode 0x61, two 6-bit register ids and a 12-bit selector. `op::gtf`
/// panics on a register id or selector out of range.
#[verifier::external_body]
pub(crate) fn op_gtf(dst: u8, arg: u8, selector: u16) -> (r: Vec<u8>)
    requires
        dst < REGISTER_COUNT,
        arg < REGISTER_COUNT,
        selector < 0x1000,
    ensures
        r@ == enc_gtf(dst, arg, selector),
{
    op::gtf(dst, arg, selector).to_bytes().to_vec()
}

/// Relies on `fuel_asm::op::addi` and `Instruction::to_bytes`: an ADDI word
/// is opcode 0x50, two 6-bit register ids and a 12-bit immediate. `op::addi`
/// panics on a register id or immediate out of range.
#[verifier::external_body]
pub(crate) fn op_addi(dst: u8, lhs: u8, rhs: u16) -> (r: Vec<u8>)
    requires
        dst < REGISTER_COUNT,
        lhs < REGISTER_COUNT,
        rhs < 0x1000,
    ensures
        r@ == enc_addi(dst, lhs, rhs),
{
    op::addi(dst, lhs, rhs).to_bytes().to_vec()
}

/// Relies on `fuel_asm::op::lw` and `Instruction::to_bytes`: an LW word is
/// opcode 0x5D, two 6-bit register ids and a 12-bit offset. `op::lw` panics
/// on a register id or offset out of range.
#[verifier::external_body]
pub(crate) fn op_lw(dst: u8, ptr: u8, offset: u16) -> (r: Vec<u8>)
    requires
        dst < REGISTER_COUNT,
        ptr < REGISTER_COUNT,
        offset < 0x1000,
    ensures
        r@ == enc_lw(dst, ptr, offset),
{
    op::lw(dst, ptr, offset).to_bytes().to_vec()
}

/// Relies on `fuel_asm::op::move_` and `Instruction::to_bytes`: a MOVE word
/// is opcode 0x1A and two 6-bit register ids. `op::move_` panics on a
/// register id out of range.
#[verifier::external_body]
pub(crate) fn op_move(dst: u8, src: u8) -> (r: Vec<u8>)
    requires
        dst < REGISTER_COUNT,
        src < REGISTER_COUNT,
    ensures
        r@ == enc_move(dst, src),
{
    op::move_(dst, src).to_bytes().to_vec()
}

/// Relies on `fuel_asm::op::bal` and `Instruction::to_bytes`: a BAL word is
/// opcode 0x49 and three 6-bit register ids. `op::bal` panics on a register
/// id out of range.
#[verifier::external_body]
pub(crate) fn op_bal(dst: u8, asset_ptr: u8, contract_ptr: u8) -> (r: Vec<u8>)
    requires
        dst < REGISTER_COUNT,
        asset_ptr < REGISTER_COUNT,
        contract_ptr < REGISTER_COUNT,
    ensures
        r@ == enc_bal(dst, asset_ptr, contract_ptr),
{
    op::bal(dst, asset_ptr, contract_ptr).to_bytes().to_vec()
}

/// Relies on `fuel_asm::op::jnzf` and `Instruction::to_bytes`: a JNZF word
/// is opcode 0x76, two 6-bit register ids and a 12-bit immediate. `op::jnzf`
/// panics on a register id or immediate out of range.
#[verifier::external_body]
pub(crate) fn op_jnzf(cond_nz: u8, dynamic: u8, fixed: u16) -> (r: Vec<u8>)
    requires
        cond_nz < REGISTER_COUNT,
        dynamic < REGISTER_COUNT,
        fixed < 0x1000,
    ensures
        r@ == enc_jnzf(cond_nz, dynamic, fixed),
{
    op::jnzf(cond_nz, dynamic, fixed).to_bytes().to_vec()
}

/// Relies on `fuel_asm::op::ret` and `Instruction::to_bytes`: a RET word is
/// opcode 0x24 and one 6-bit register id. `op::ret` panics on a register id
/// out of range.
#[verifier::external_body]
pub(crate) fn op_ret(value: u8) -> (r: Vec<u8>)
    requires
        value < REGISTER_COUNT,
    ensures
        r@ == enc_ret(value),
{
    op::ret(value).to_bytes().to_vec()
}

/// Relies on `fuel_asm::op::tro` and `Instruction::to_bytes`: a TRO word is
/// opcode 0x3D and four 6-bit register ids. `op::tro` panics on a register
/// id out of range.
#[verifier::external_body]
pub(crate) fn op_tro(recipient_ptr: u8, output_index: u8, amount: u8, asset_ptr: u8) -> (r: Vec<u8>)
    requires
        recipient_ptr < REGISTER_COUNT,
        output_index < REGISTER_COUNT,
        amount < REGISTER_COUNT,
        asset_ptr < REGISTER_COUNT,
    ensures
        r@ == enc_tro(recipient_ptr, output_index, amount, asset_ptr),
{
    op::tro(recipient_ptr, output_index, amount, asset_ptr).to_bytes().to_vec()
}

/// Relies on `fuel_asm::op::call` and `Instruction::to_bytes`: a CALL word
/// is opcode 0x2D and four 6-bit register ids. `op::call` panics on a
/// register id out of range.
#[verifier::external_body]
pub(crate) fn op_call(target_ptr: u8, fwd_coins: u8, asset_ptr: u8, fwd_gas: u8) -> (r: Vec<u8>)
    requires
        target_ptr < REGISTER_COUNT,
        fwd_coins < REGISTER_COUNT,
        asset_ptr < REGISTER_COUNT,
        fwd_gas < REGISTER_COUNT,
    ensures
        r@ == enc_call(target_ptr, fwd_coins, asset_ptr, fwd_gas),
{
    op::call(target_ptr, fwd_coins, asset_ptr, fwd_gas).to_bytes().to_vec()
}

} // verus!
