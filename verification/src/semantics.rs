//! A model of the instruction subset this crate emits, and the proofs
//! that the emitted control flow does what it is meant to do.
//!
//! The VM itself is an outside collaborator; this module writes down the
//! documented meaning of the instructions the program and the invocation
//! script are built from — word-unit jumps, register moves, the balance
//! query, the conditional skip, the transfer, the call, the return — and
//! proves that under that meaning the generated program always returns
//! the success signal, transfers nothing on a zero balance, and otherwise
//! emits exactly one transfer: the whole balance, to the output index
//! read from the caller's data, crediting the address one instruction
//! word past the start of the code — where the recipient is embedded;
//! and that the invocation script aims its one call exactly at the call
//! descriptor inside the script-data blob.

use vstd::prelude::*;
use crate::isa::{
    ADDRESS_WIDTH, ASSET_ID_WIDTH, INSTRUCTION_WIDTH, WORD_WIDTH,
    REG_ZERO, REG_ONE, REG_FP, REG_CGAS, REG_IS,
    GTF_SCRIPT_DATA,
    enc_ji, enc_gtf, enc_addi, enc_lw, enc_move, enc_bal, enc_jnzf, enc_ret, enc_tro, enc_call,
};
use crate::program::{
    REG_ASSET_ID, REG_BALANCE, REG_CONTRACT_ID, REG_OUTPUT_INDEX, REG_RECIPIENT,
    JUMP_TARGET_WORDS, BODY_INSTRUCTION_COUNT,
    program_bytes,
};
use crate::invocation::{REG_CALL_STRUCT, invocation_script_bytes};

verus! {

/// Total number of instruction-word slots in the generated program: the
/// jump, the slots holding the embedded address, and the body.
pub const PROGRAM_WORD_COUNT: usize = JUMP_TARGET_WORDS + BODY_INSTRUCTION_COUNT;

/// One decoded instruction of the subset the generated code uses.
pub enum Instr {
    /// Jump to the absolute instruction-word index `target`.
    Ji { target: u32 },
    /// Put the address of the transaction field named by `selector` into
    /// `dst`.
    Gtf { dst: u8, arg: u8, selector: u16 },
    /// `dst := lhs + rhs`, wrapping at the word size.
    Addi { dst: u8, lhs: u8, rhs: u16 },
    /// Load the word at address `ptr + 8 * offset` into `dst`.
    Lw { dst: u8, ptr: u8, offset: u16 },
    /// `dst := src`.
    Move { dst: u8, src: u8 },
    /// The balance of the asset whose id is at address `asset_ptr`, held
    /// by the contract whose id is at address `contract_ptr`, into `dst`.
    Bal { dst: u8, asset_ptr: u8, contract_ptr: u8 },
    /// If `cond_nz` is nonzero, jump `dynamic + fixed + 1` words forward.
    Jnzf { cond_nz: u8, dynamic: u8, fixed: u16 },
    /// End execution, yielding the value of `value`.
    Ret { value: u8 },
    /// Transfer `amount` units of the asset whose id is at `asset_ptr` to
    /// the output at index `output_index`, crediting the address at
    /// `recipient_ptr`.
    Tro { recipient_ptr: u8, output_index: u8, amount: u8, asset_ptr: u8 },
    /// Hand control to the contract named by the call descriptor at the
    /// address in `target_ptr`, forwarding coins and gas; control comes
    /// back to the next word when the callee returns.
    Call { target_ptr: u8, fwd_coins: u8, asset_ptr: u8, fwd_gas: u8 },
}

/// The bytes an instruction assembles to.
pub open spec fn encode(instr: Instr) -> Seq<u8> {
    match instr {
        Instr::Ji { target } => enc_ji(target),
        Instr::Gtf { dst, arg, selector } => enc_gtf(dst, arg, selector),
        Instr::Addi { dst, lhs, rhs } => enc_addi(dst, lhs, rhs),
        Instr::Lw { dst, ptr, offset } => enc_lw(dst, ptr, offset),
        Instr::Move { dst, src } => enc_move(dst, src),
        Instr::Bal { dst, asset_ptr, contract_ptr } => enc_bal(dst, asset_ptr, contract_ptr),
        Instr::Jnzf { cond_nz, dynamic, fixed } => enc_jnzf(cond_nz, dynamic, fixed),
        Instr::Ret { value } => enc_ret(value),
        Instr::Tro { recipient_ptr, output_index, amount, asset_ptr } => enc_tro(
            recipient_ptr,
            output_index,
            amount,
            asset_ptr,
        ),
        Instr::Call { target_ptr, fwd_coins, asset_ptr, fwd_gas } => enc_call(
            target_ptr,
            fwd_coins,
            asset_ptr,
            fwd_gas,
        ),
    }
}

/// The body of the generated program, instruction by instruction.
pub open spec fn body_instrs() -> Seq<Instr> {
    seq![
        Instr::Gtf { dst: REG_ASSET_ID, arg: REG_ZERO, selector: GTF_SCRIPT_DATA },
        Instr::Addi { dst: REG_OUTPUT_INDEX, lhs: REG_ASSET_ID, rhs: ASSET_ID_WIDTH as u16 },
        Instr::Lw { dst: REG_OUTPUT_INDEX, ptr: REG_OUTPUT_INDEX, offset: 0 },
        Instr::Move { dst: REG_CONTRACT_ID, src: REG_FP },
        Instr::Bal { dst: REG_BALANCE, asset_ptr: REG_ASSET_ID, contract_ptr: REG_CONTRACT_ID },
        Instr::Jnzf { cond_nz: REG_BALANCE, dynamic: REG_ZERO, fixed: 1 },
        Instr::Ret { value: REG_ONE },
        Instr::Addi { dst: REG_RECIPIENT, lhs: REG_IS, rhs: INSTRUCTION_WIDTH as u16 },
        Instr::Tro {
            recipient_ptr: REG_RECIPIENT,
            output_index: REG_OUTPUT_INDEX,
            amount: REG_BALANCE,
            asset_ptr: REG_ASSET_ID,
        },
        Instr::Ret { value: REG_ONE },
    ]
}

/// The generated program as the VM fetches it, one entry per instruction
/// word: the leading jump, then the word slots holding the embedded
/// address — data, not instructions — then the body.
pub open spec fn program_words() -> Seq<Option<Instr>> {
    seq![Some(Instr::Ji { target: JUMP_TARGET_WORDS as u32 })]
        + Seq::new((ADDRESS_WIDTH / INSTRUCTION_WIDTH) as nat, |i: int| None::<Instr>)
        + body_instrs().map_values(|instr: Instr| Some(instr))
}

/// The word-slot view and the byte view of the program agree: every
/// instruction slot assembles to the bytes at its word offset, and the
/// data slots carry exactly the embedded address.
pub proof fn lemma_program_words_assemble(address: Seq<u8>)
    requires
        address.len() == ADDRESS_WIDTH,
    ensures
        program_words().len() == PROGRAM_WORD_COUNT,
        program_bytes(address).len() == PROGRAM_WORD_COUNT * INSTRUCTION_WIDTH,
        forall|k: int|
            0 <= k < PROGRAM_WORD_COUNT && program_words()[k] is Some
                ==> program_bytes(address).subrange(
                k * INSTRUCTION_WIDTH,
                (k + 1) * INSTRUCTION_WIDTH,
            ) == encode(#[trigger] program_words()[k]->Some_0),
        forall|k: int|
            0 <= k < PROGRAM_WORD_COUNT
                ==> (#[trigger] program_words()[k] is None <==> 1 <= k < JUMP_TARGET_WORDS),
        program_bytes(address).subrange(
            INSTRUCTION_WIDTH as int,
            (INSTRUCTION_WIDTH + ADDRESS_WIDTH) as int,
        ) == address,
{
    assert forall|k: int|
        0 <= k < PROGRAM_WORD_COUNT && program_words()[k] is Some implies program_bytes(
        address,
    ).subrange(k * INSTRUCTION_WIDTH, (k + 1) * INSTRUCTION_WIDTH) == encode(
        #[trigger] program_words()[k]->Some_0,
    ) by {
        assert(program_bytes(address).subrange(k * INSTRUCTION_WIDTH, (k + 1) * INSTRUCTION_WIDTH)
            =~= encode(program_words()[k]->Some_0));
    }
    assert(program_bytes(address).subrange(
        INSTRUCTION_WIDTH as int,
        (INSTRUCTION_WIDTH + ADDRESS_WIDTH) as int,
    ) =~= address);
}

/// What the environment supplies to one execution of the program: the
/// values the VM hands back for the queries the program makes. The model
/// holds them fixed for the run; the VM changes none of them between these
/// instructions.
pub struct VmEnv {
    /// Address of the start of the executing code (the instruction-start
    /// register).
    pub code_start: u64,
    /// Address of the caller's script-data region (what the
    /// get-transaction-field instruction yields for it).
    pub data_ptr: u64,
    /// Frame pointer: address of the call frame, which begins with the
    /// executing contract's id.
    pub frame_ptr: u64,
    /// The machine word held at each memory address.
    pub mem: Map<int, u64>,
    /// The balance the VM reports when the asset id is read at the first
    /// address and the owning contract's id at the second.
    pub balance_at: Map<(u64, u64), u64>,
    /// Gas remaining in the context (the call-gas register).
    pub remaining_gas: u64,
}

/// One contract call made during a run.
pub struct CallEvent {
    /// Address of the call descriptor: the callee's contract id followed
    /// by its two parameter words.
    pub descriptor_ptr: u64,
    /// Coins forwarded with the call.
    pub fwd_coins: u64,
    /// Address at which the forwarded asset's id is read.
    pub asset_ptr: u64,
    /// Gas forwarded to the callee.
    pub fwd_gas: u64,
}

/// One transfer performed during a run.
pub struct Transfer {
    /// Address at which the credited recipient's address is read.
    pub recipient_ptr: u64,
    /// Index of the transaction output that receives the coins.
    pub output_index: u64,
    /// Number of units moved.
    pub amount: u64,
    /// Address at which the moved asset's id is read.
    pub asset_ptr: u64,
}

/// A machine state: the program counter in instruction-word units from the
/// start of the code, the register file, what has been transferred, and
/// whether and with what value execution has ended. `stuck` marks a fetch
/// from a data slot or a fall off the program — states a correct program
/// never reaches.
pub struct VmState {
    pub pc: int,
    pub regs: Map<u8, u64>,
    pub transfers: Seq<Transfer>,
    pub calls: Seq<CallEvent>,
    pub result: Option<u64>,
    pub stuck: bool,
}

/// The register file at entry: zero and one in their reserved registers,
/// the frame pointer and the code start in theirs, and zero everywhere
/// else.
pub open spec fn init_regs(env: VmEnv) -> Map<u8, u64> {
    Map::total(
        |r: u8|
            if r == REG_ONE {
                1u64
            } else if r == REG_FP {
                env.frame_ptr
            } else if r == REG_CGAS {
                env.remaining_gas
            } else if r == REG_IS {
                env.code_start
            } else {
                0u64
            },
    )
}

/// The state in which the VM starts the program.
pub open spec fn init_state(env: VmEnv) -> VmState {
    VmState {
        pc: 0,
        regs: init_regs(env),
        transfers: Seq::empty(),
        calls: Seq::empty(),
        result: None,
        stuck: false,
    }
}

/// A sum reduced to the VM's word width.
pub open spec fn word_wrap(v: int) -> u64 {
    (v % 0x1_0000_0000_0000_0000) as u64
}

/// One step of the documented semantics of the subset: fetch the word at
/// `pc` and carry it out. A finished or stuck state stays as it is; a
/// fetch outside the program or from a data slot, or a get of a field the
/// program does not use, gets stuck.
pub open spec fn step(prog: Seq<Option<Instr>>, env: VmEnv, s: VmState) -> VmState {
    if s.result is Some || s.stuck {
        s
    } else if !(0 <= s.pc < prog.len()) {
        VmState { stuck: true, ..s }
    } else {
        match prog[s.pc] {
            None => VmState { stuck: true, ..s },
            Some(instr) => match instr {
                Instr::Ji { target } => VmState { pc: target as int, ..s },
                Instr::Gtf { dst, arg, selector } => if selector == GTF_SCRIPT_DATA {
                    VmState { pc: s.pc + 1, regs: s.regs.insert(dst, env.data_ptr), ..s }
                } else {
                    VmState { stuck: true, ..s }
                },
                Instr::Addi { dst, lhs, rhs } => VmState {
                    pc: s.pc + 1,
                    regs: s.regs.insert(dst, word_wrap(s.regs[lhs] + rhs)),
                    ..s
                },
                Instr::Lw { dst, ptr, offset } => VmState {
                    pc: s.pc + 1,
                    regs: s.regs.insert(dst, env.mem[s.regs[ptr] + 8 * offset]),
                    ..s
                },
                Instr::Move { dst, src } => VmState {
                    pc: s.pc + 1,
                    regs: s.regs.insert(dst, s.regs[src]),
                    ..s
                },
                Instr::Bal { dst, asset_ptr, contract_ptr } => VmState {
                    pc: s.pc + 1,
                    regs: s.regs.insert(
                        dst,
                        env.balance_at[(s.regs[asset_ptr], s.regs[contract_ptr])],
                    ),
                    ..s
                },
                Instr::Jnzf { cond_nz, dynamic, fixed } => VmState {
                    pc: if s.regs[cond_nz] != 0 {
                        s.pc + 1 + s.regs[dynamic] + fixed
                    } else {
                        s.pc + 1
                    },
                    ..s
                },
                Instr::Ret { value } => VmState { result: Some(s.regs[value]), ..s },
                Instr::Tro { recipient_ptr, output_index, amount, asset_ptr } => VmState {
                    pc: s.pc + 1,
                    transfers: s.transfers.push(
                        Transfer {
                            recipient_ptr: s.regs[recipient_ptr],
                            output_index: s.regs[output_index],
                            amount: s.regs[amount],
                            asset_ptr: s.regs[asset_ptr],
                        },
                    ),
                    ..s
                },
                Instr::Call { target_ptr, fwd_coins, asset_ptr, fwd_gas } => VmState {
                    pc: s.pc + 1,
                    calls: s.calls.push(
                        CallEvent {
                            descriptor_ptr: s.regs[target_ptr],
                            fwd_coins: s.regs[fwd_coins],
                            asset_ptr: s.regs[asset_ptr],
                            fwd_gas: s.regs[fwd_gas],
                        },
                    ),
                    ..s
                },
            },
        }
    }
}

/// `n` steps from `s`.
pub open spec fn run(prog: Seq<Option<Instr>>, env: VmEnv, s: VmState, n: nat) -> VmState
    decreases n,
{
    if n == 0 {
        s
    } else {
        run(prog, env, step(prog, env, s), (n - 1) as nat)
    }
}

/// Running `m + n` steps is running `m`, then `n` more from where that
/// left off.
pub proof fn lemma_run_split(prog: Seq<Option<Instr>>, env: VmEnv, s: VmState, m: nat, n: nat)
    ensures
        run(prog, env, s, m + n) == run(prog, env, run(prog, env, s, m), n),
    decreases m,
{
    if m != 0 {
        lemma_run_split(prog, env, step(prog, env, s), (m - 1) as nat, n);
    }
}

/// The register file after the body's straight-line prefix: the pointer
/// reads, the loads and the balance query each landed in their register,
/// and the conditional skip chose between the early return (word 15) and
/// the transfer sequence (word 16).
pub open spec fn prefix_end_state(env: VmEnv) -> VmState {
    let balance = env.balance_at[(env.data_ptr, env.frame_ptr)];
    VmState {
        pc: if balance != 0 {
            16
        } else {
            15
        },
        regs: init_regs(env).insert(REG_ASSET_ID, env.data_ptr).insert(
            REG_OUTPUT_INDEX,
            (env.data_ptr + ASSET_ID_WIDTH) as u64,
        ).insert(REG_OUTPUT_INDEX, env.mem[env.data_ptr + ASSET_ID_WIDTH]).insert(
            REG_CONTRACT_ID,
            env.frame_ptr,
        ).insert(REG_BALANCE, balance),
        transfers: Seq::empty(),
        calls: Seq::empty(),
        result: None,
        stuck: false,
    }
}

/// Seven steps in — the jump, the five reads and computes, and the
/// conditional skip — the machine stands exactly at `prefix_end_state`.
#[verifier::rlimit(100)]
pub proof fn lemma_program_prefix(env: VmEnv)
    requires
        env.data_ptr + ASSET_ID_WIDTH <= u64::MAX,
    ensures
        run(program_words(), env, init_state(env), 7) == prefix_end_state(env),
{
    reveal_with_fuel(run, 8);
    let prog = program_words();
    let s0 = init_state(env);
    let s1 = step(prog, env, s0);
    assert(s1.pc == 9);
    let s2 = step(prog, env, s1);
    assert(s2.regs[REG_ASSET_ID] == env.data_ptr);
    let s3 = step(prog, env, s2);
    assert(word_wrap(env.data_ptr + ASSET_ID_WIDTH) == env.data_ptr + ASSET_ID_WIDTH);
    let s4 = step(prog, env, s3);
    assert(s4.regs[REG_OUTPUT_INDEX] == env.mem[env.data_ptr + ASSET_ID_WIDTH]);
    let s5 = step(prog, env, s4);
    assert(s5.regs[REG_CONTRACT_ID] == env.frame_ptr);
    let s6 = step(prog, env, s5);
    assert(s6.regs[REG_BALANCE] == env.balance_at[(env.data_ptr, env.frame_ptr)]);
    let s7 = step(prog, env, s6);
    assert(s7 == prefix_end_state(env));
}

/// Executing the generated program under the modeled semantics, from the
/// start, for any environment in which the two pointer additions stay
/// within the word range: execution never fetches a data slot, ends with
/// the success signal on both paths, transfers nothing when the contract's
/// balance of the named asset is zero, and otherwise performs exactly one
/// transfer — the whole balance, to the output index read from the
/// caller's data, crediting the address one instruction word past the
/// start of the code, which is where the recipient address is embedded.
#[verifier::rlimit(100)]
pub proof fn theorem_program_execution(env: VmEnv)
    requires
        env.data_ptr + ASSET_ID_WIDTH <= u64::MAX,
        env.code_start + INSTRUCTION_WIDTH <= u64::MAX,
    ensures
        ({
            let balance = env.balance_at[(env.data_ptr, env.frame_ptr)];
            let out_index = env.mem[env.data_ptr + ASSET_ID_WIDTH];
            let end = run(program_words(), env, init_state(env), 10);
            &&& !end.stuck
            &&& end.result == Some(1u64)
            &&& (balance == 0 ==> end.transfers == Seq::<Transfer>::empty())
            &&& (balance != 0 ==> end.transfers == seq![
                Transfer {
                    recipient_ptr: (env.code_start + INSTRUCTION_WIDTH) as u64,
                    output_index: out_index,
                    amount: balance,
                    asset_ptr: env.data_ptr,
                },
            ])
        }),
{
    reveal_with_fuel(run, 4);
    let prog = program_words();
    let balance = env.balance_at[(env.data_ptr, env.frame_ptr)];
    let out_index = env.mem[env.data_ptr + ASSET_ID_WIDTH];
    let s0 = init_state(env);
    lemma_program_prefix(env);
    lemma_run_split(prog, env, s0, 7, 3);
    let s7 = prefix_end_state(env);
    if balance == 0 {
        let s8 = step(prog, env, s7);
        assert(s8.result == Some(1u64));
        assert(run(prog, env, s7, 3) == s8);
    } else {
        let s8 = step(prog, env, s7);
        assert(word_wrap(env.code_start + INSTRUCTION_WIDTH) == env.code_start
            + INSTRUCTION_WIDTH);
        assert(s8.regs[REG_RECIPIENT] == env.code_start + INSTRUCTION_WIDTH);
        let s9 = step(prog, env, s8);
        let s10 = step(prog, env, s9);
        assert(s10.result == Some(1u64));
        assert(s10.transfers =~= seq![
            Transfer {
                recipient_ptr: (env.code_start + INSTRUCTION_WIDTH) as u64,
                output_index: out_index,
                amount: balance,
                asset_ptr: env.data_ptr,
            },
        ]);
        assert(run(prog, env, s7, 3) == s10);
    }
}

/// The invocation script, instruction by instruction.
pub open spec fn script_instrs() -> Seq<Instr> {
    seq![
        Instr::Gtf { dst: REG_CALL_STRUCT, arg: REG_ZERO, selector: GTF_SCRIPT_DATA },
        Instr::Addi {
            dst: REG_CALL_STRUCT,
            lhs: REG_CALL_STRUCT,
            rhs: (ASSET_ID_WIDTH + WORD_WIDTH) as u16,
        },
        Instr::Call {
            target_ptr: REG_CALL_STRUCT,
            fwd_coins: REG_ZERO,
            asset_ptr: REG_ZERO,
            fwd_gas: REG_CGAS,
        },
        Instr::Ret { value: REG_ONE },
    ]
}

/// The invocation script as the VM fetches it: every word is an
/// instruction.
pub open spec fn script_words() -> Seq<Option<Instr>> {
    script_instrs().map_values(|instr: Instr| Some(instr))
}

/// The word-slot view and the byte view of the invocation script agree.
pub proof fn lemma_script_words_assemble()
    ensures
        script_words().len() == 4,
        invocation_script_bytes().len() == 4 * INSTRUCTION_WIDTH,
        forall|k: int|
            0 <= k < 4 ==> (#[trigger] script_words()[k]) is Some
                && invocation_script_bytes().subrange(
                k * INSTRUCTION_WIDTH,
                (k + 1) * INSTRUCTION_WIDTH,
            ) == encode(script_words()[k]->Some_0),
{
    assert forall|k: int| 0 <= k < 4 implies (#[trigger] script_words()[k]) is Some
        && invocation_script_bytes().subrange(k * INSTRUCTION_WIDTH, (k + 1) * INSTRUCTION_WIDTH)
        == encode(script_words()[k]->Some_0) by {
        assert(invocation_script_bytes().subrange(
            k * INSTRUCTION_WIDTH,
            (k + 1) * INSTRUCTION_WIDTH,
        ) =~= encode(script_words()[k]->Some_0));
    }
}

/// Executing the invocation script under the modeled semantics, for any
/// environment in which the pointer addition stays within the word range:
/// the script makes exactly one call — aimed at the call descriptor that
/// sits one asset id and one output-index word into the caller's script
/// data, forwarding no coins and all remaining gas — transfers nothing
/// itself, and returns the success signal.
pub proof fn theorem_script_execution(env: VmEnv)
    requires
        env.data_ptr + ASSET_ID_WIDTH + WORD_WIDTH <= u64::MAX,
    ensures
        ({
            let end = run(script_words(), env, init_state(env), 4);
            &&& !end.stuck
            &&& end.result == Some(1u64)
            &&& end.calls == seq![
                CallEvent {
                    descriptor_ptr: (env.data_ptr + ASSET_ID_WIDTH + WORD_WIDTH) as u64,
                    fwd_coins: 0u64,
                    asset_ptr: 0u64,
                    fwd_gas: env.remaining_gas,
                },
            ]
            &&& end.transfers == Seq::<Transfer>::empty()
        }),
{
    reveal_with_fuel(run, 5);
    let prog = script_words();
    let s0 = init_state(env);
    let s1 = step(prog, env, s0);
    assert(s1.regs[REG_CALL_STRUCT] == env.data_ptr);
    let s2 = step(prog, env, s1);
    assert(word_wrap(env.data_ptr + (ASSET_ID_WIDTH + WORD_WIDTH)) == env.data_ptr
        + ASSET_ID_WIDTH + WORD_WIDTH);
    assert(s2.regs[REG_CALL_STRUCT] == env.data_ptr + ASSET_ID_WIDTH + WORD_WIDTH);
    let s3 = step(prog, env, s2);
    assert(s3.calls =~= seq![
        CallEvent {
            descriptor_ptr: (env.data_ptr + ASSET_ID_WIDTH + WORD_WIDTH) as u64,
            fwd_coins: 0u64,
            asset_ptr: 0u64,
            fwd_gas: env.remaining_gas,
        },
    ]);
    let s4 = step(prog, env, s3);
    assert(s4.result == Some(1u64));
    assert(run(prog, env, s0, 4) == s4);
}

} // verus!
