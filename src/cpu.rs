//! The Monad CPU: its register file and the fetch-decode-execute cycle.
use crate::alu::{
    arith, arith_result, logic, logic_result, shift, shift_result, ArithOp, LogicOp, ShiftOp,
};
use crate::flags::{
    arith_flags, compare_flags, flag_step, logic_flags, unary_flags, update_arith_flags,
    update_compare_flags, update_flag, update_logic_flags, update_unary_flags, zero_flags,
    GREATER_FLAG, ZERO_FLAG,
};
use crate::io_bus::{IoBus, IoHandler};
use crate::isa::{
    condition_holds, condition_taken, decode, decode_opcode, field_a, field_b, field_c,
    immediate, immediate_field, opcode_field, opcode_of, operand_a, operand_b, operand_c,
    Condition, Instr,
};
use crate::memory_bus::{in_range, written, MemoryBus48};
use crate::word::{
    byte_count, fits, fits_in, from_le, le_bytes, le_word, low, merge, merge_low, signed_value,
    to_le, unsigned_value, value_in, value_of, wrap, wrap_to, Width,
};
use vstd::prelude::*;

verus! {

pub const REGISTER_COUNT: usize = 31;

/// Register code of the flags register.
pub const RFLAGS: u16 = 0x10;

/// Register code of the instruction pointer.
pub const RIP: u16 = 0x11;

/// Register code of the first immediate register; the last is `IMM0 + 7`.
pub const IMM0: u16 = 0xF000;

/// Why a cycle stopped short.
#[derive(Clone, Copy, Debug, PartialEq, Eq, Structural)]
pub enum CpuFault {
    /// The eight bytes at the instruction pointer do not all lie in RAM.
    FetchOutOfRange(u64),
    UnknownOpcode(u16),
    InvalidRegister(u16),
    /// An immediate load named a register other than imm0 to imm7.
    NotImmediateRegister(u16),
    DivideByZero,
    /// No handler is installed at this port.
    InvalidPort(u16),
    /// A reserved opcode with no behaviour yet.
    Unimplemented(u16),
}

/// The abstract state of the CPU: the register file, indexed by slot, and the run flag.
pub struct CpuState {
    pub regs: Seq<u64>,
    pub running: bool,
}

/// Where a register code lives in the register file: r0 to r15, rflags, rip, rsp,
/// rpt, rit, cr0 and cr1 take slots 0 to 22, imm0 to imm7 slots 23 to 30; any other
/// code has none (-1).
pub open spec fn slot(code: u16) -> int {
    if code <= 0x16 {
        code as int
    } else if 0xF000 <= code <= 0xF007 {
        code - 0xF000 + 23
    } else {
        -1
    }
}

pub open spec fn is_register(code: u16) -> bool {
    slot(code) >= 0
}

pub open spec fn is_immediate(code: u16) -> bool {
    0xF000 <= code <= 0xF007
}

pub open spec fn wf(s: CpuState) -> bool {
    s.regs.len() == REGISTER_COUNT
}

pub open spec fn reg(s: CpuState, code: u16) -> u64 {
    s.regs[slot(code)]
}

pub open spec fn set_reg(s: CpuState, code: u16, v: u64) -> CpuState {
    CpuState { regs: s.regs.update(slot(code), v), running: s.running }
}

pub open spec fn flags(s: CpuState) -> u64 {
    reg(s, RFLAGS)
}

pub open spec fn set_flags(s: CpuState, f: u64) -> CpuState {
    set_reg(s, RFLAGS, f)
}

/// The first of two register codes that names no register.
pub open spec fn invalid2(a: u16, b: u16) -> Option<u16> {
    if !is_register(a) {
        Some(a)
    } else if !is_register(b) {
        Some(b)
    } else {
        None
    }
}

/// The first of three register codes that names no register.
pub open spec fn invalid3(a: u16, b: u16, c: u16) -> Option<u16> {
    if !is_register(a) {
        Some(a)
    } else {
        invalid2(b, c)
    }
}

/// The state after a reset: every register zero, running.
pub open spec fn reset_state() -> CpuState {
    CpuState { regs: Seq::new(REGISTER_COUNT as nat, |i: int| 0u64), running: true }
}

/// The instruction word at `rip`, if all eight bytes lie in RAM.
pub open spec fn fetch(mem: Seq<u8>, rip: u64) -> Option<u64> {
    if in_range(rip as int, 8, mem.len() as int) {
        Some(le_word(mem.subrange(rip as int, rip + 8)))
    } else {
        None
    }
}

/// SMEM: the low bytes of register A, stored little-endian at the address in register B.
pub open spec fn store_effect(s: CpuState, op: u64, w: Width, mem: Seq<u8>) -> Result<Seq<u8>, CpuFault> {
    let (a, b) = (field_a(op), field_b(op));
    match invalid2(a, b) {
        Some(code) => Err(CpuFault::InvalidRegister(code)),
        None => Ok(written(mem, reg(s, b) as int, le_bytes(reg(s, a), byte_count(w)))),
    }
}

/// LMEM: the bytes at the address in register A, into the low bits of register B.
/// An access beyond RAM is dropped.
pub open spec fn load_effect(s: CpuState, op: u64, w: Width, mem: Seq<u8>) -> Result<CpuState, CpuFault> {
    let (a, b) = (field_a(op), field_b(op));
    let addr = reg(s, a) as int;
    let n = byte_count(w) as int;
    match invalid2(a, b) {
        Some(code) => Err(CpuFault::InvalidRegister(code)),
        None => if in_range(addr, n, mem.len() as int) {
            Ok(set_reg(s, b, merge(reg(s, b), le_word(mem.subrange(addr, addr + n)), w)))
        } else {
            Ok(s)
        },
    }
}

/// LLI and LUI: the 32-bit immediate into the low or high half of an immediate register.
pub open spec fn load_immediate_effect(s: CpuState, op: u64, upper: bool) -> Result<CpuState, CpuFault> {
    let a = field_a(op);
    if !is_immediate(a) {
        Err(CpuFault::NotImmediateRegister(a))
    } else {
        let v = if upper {
            (reg(s, a) & 0xFFFF_FFFF) | (immediate(op) << 32u64)
        } else {
            (reg(s, a) & 0xFFFF_FFFF_0000_0000) | immediate(op)
        };
        Ok(set_reg(s, a, v))
    }
}

/// The width that an extension from `w` widens into.
pub open spec fn widen(w: Width) -> Width {
    match w {
        Width::Byte => Width::Word,
        Width::Word => Width::Dword,
        _ => Width::Qword,
    }
}

/// CBW, CWD, CDQ and their signed forms: the low bits of register A, zero- or
/// sign-extended into the next wider field of register B. The unsigned double word
/// form keeps only the low 16 bits of the source and clears the rest of B.
pub open spec fn extend_effect(s: CpuState, op: u64, from: Width, signed: bool) -> Result<CpuState, CpuFault> {
    let (a, b) = (field_a(op), field_b(op));
    let to = widen(from);
    match invalid2(a, b) {
        Some(code) => Err(CpuFault::InvalidRegister(code)),
        None => {
            let v = if from == Width::Dword && !signed {
                reg(s, a) & 0xFFFF
            } else {
                merge(reg(s, b), wrap(value_of(reg(s, a), from, signed), to), to)
            };
            Ok(set_reg(s, b, v))
        },
    }
}

/// MOV: the low bits of register A into register B.
pub open spec fn move_effect(s: CpuState, op: u64, w: Width) -> Result<CpuState, CpuFault> {
    let (a, b) = (field_a(op), field_b(op));
    match invalid2(a, b) {
        Some(code) => Err(CpuFault::InvalidRegister(code)),
        None => Ok(set_reg(s, b, merge(reg(s, b), reg(s, a), w))),
    }
}

/// ADD, SUB, MUL, DIV: registers A and B into register C, with the flags updated.
pub open spec fn arith_effect(s: CpuState, op: u64, k: ArithOp, w: Width, signed: bool) -> Result<CpuState, CpuFault> {
    let (a, b, c) = (field_a(op), field_b(op), field_c(op));
    match invalid3(a, b, c) {
        Some(code) => Err(CpuFault::InvalidRegister(code)),
        None => match arith_result(k, w, signed, reg(s, a), reg(s, b)) {
            None => Err(CpuFault::DivideByZero),
            Some((res, overflow)) => {
                let x = value_of(reg(s, a), w, signed);
                let y = value_of(reg(s, b), w, signed);
                let negative = signed && signed_value(res, w) < 0;
                let f = arith_flags(flags(s), overflow, res == 0, x, y, negative);
                Ok(set_reg(set_flags(s, f), c, merge(reg(s, c), res, w)))
            },
        },
    }
}

/// INC and DEC: register A plus or minus one, with the flags updated.
pub open spec fn step_effect(s: CpuState, op: u64, w: Width, signed: bool, up: bool) -> Result<CpuState, CpuFault> {
    let a = field_a(op);
    if !is_register(a) {
        Err(CpuFault::InvalidRegister(a))
    } else {
        let x = value_of(reg(s, a), w, signed);
        let e = if up {
            x + 1
        } else {
            x - 1
        };
        let res = wrap(e, w);
        let negative = signed && signed_value(res, w) < 0;
        let s1 = set_flags(s, unary_flags(flags(s), !fits(e, w, signed), res == 0, negative));
        Ok(set_reg(s1, a, merge(reg(s1, a), res, w)))
    }
}

/// NEG: the two's complement negation of register A.
pub open spec fn negate_effect(s: CpuState, op: u64, w: Width) -> Result<CpuState, CpuFault> {
    let a = field_a(op);
    if !is_register(a) {
        Err(CpuFault::InvalidRegister(a))
    } else {
        let res = wrap(-signed_value(reg(s, a), w), w);
        let s1 = set_flags(s, unary_flags(flags(s), false, res == 0, signed_value(res, w) < 0));
        Ok(set_reg(s1, a, merge(reg(s1, a), res, w)))
    }
}

/// CMP: compares registers A and B; only the flags change.
pub open spec fn compare_effect(s: CpuState, op: u64, w: Width, signed: bool) -> Result<CpuState, CpuFault> {
    let (a, b) = (field_a(op), field_b(op));
    match invalid2(a, b) {
        Some(code) => Err(CpuFault::InvalidRegister(code)),
        None => Ok(
            set_flags(
                s,
                compare_flags(flags(s), value_of(reg(s, a), w, signed), value_of(reg(s, b), w, signed)),
            ),
        ),
    }
}

/// AND, OR, XOR, NOR, NAND: registers A and B into register C, with the flags updated.
pub open spec fn logic_effect(s: CpuState, op: u64, k: LogicOp, w: Width) -> Result<CpuState, CpuFault> {
    let (a, b, c) = (field_a(op), field_b(op), field_c(op));
    match invalid3(a, b, c) {
        Some(code) => Err(CpuFault::InvalidRegister(code)),
        None => {
            let res = logic_result(k, reg(s, a), reg(s, b), w);
            let f = logic_flags(
                flags(s),
                res == 0,
                unsigned_value(reg(s, a), w),
                unsigned_value(reg(s, b), w),
            );
            Ok(set_reg(set_flags(s, f), c, merge(reg(s, c), res, w)))
        },
    }
}

/// NOT: the complement of register A into register B.
pub open spec fn not_effect(s: CpuState, op: u64, w: Width) -> Result<CpuState, CpuFault> {
    let (a, b) = (field_a(op), field_b(op));
    match invalid2(a, b) {
        Some(code) => Err(CpuFault::InvalidRegister(code)),
        None => {
            let res = low(!reg(s, a), w);
            Ok(set_reg(set_flags(s, zero_flags(flags(s), res == 0)), b, merge(reg(s, b), res, w)))
        },
    }
}

/// SHL, SHR, ROL, ROR: register A moved by one place into register B.
pub open spec fn shift_effect(s: CpuState, op: u64, k: ShiftOp, w: Width) -> Result<CpuState, CpuFault> {
    let (a, b) = (field_a(op), field_b(op));
    match invalid2(a, b) {
        Some(code) => Err(CpuFault::InvalidRegister(code)),
        None => {
            let res = shift_result(k, reg(s, a), w);
            Ok(set_reg(set_flags(s, zero_flags(flags(s), res == 0)), b, merge(reg(s, b), res, w)))
        },
    }
}

/// The bit index held in register B, modulo 64.
pub open spec fn bit_index(s: CpuState, op: u64) -> u64 {
    reg(s, field_b(op)) & 63
}

/// BITT: the selected bit of register A into the Greater flag.
pub open spec fn bit_test_effect(s: CpuState, op: u64) -> Result<CpuState, CpuFault> {
    let (a, b) = (field_a(op), field_b(op));
    match invalid2(b, a) {
        Some(code) => Err(CpuFault::InvalidRegister(code)),
        None => {
            let bit = reg(s, a) & (1u64 << bit_index(s, op)) != 0;
            Ok(set_flags(s, flag_step(flags(s), bit, GREATER_FLAG, GREATER_FLAG)))
        },
    }
}

/// BITS and BITC: sets or clears the selected bit of register A.
pub open spec fn bit_write_effect(s: CpuState, op: u64, set: bool) -> Result<CpuState, CpuFault> {
    let (a, b) = (field_a(op), field_b(op));
    match invalid2(b, a) {
        Some(code) => Err(CpuFault::InvalidRegister(code)),
        None => {
            let m = 1u64 << bit_index(s, op);
            Ok(set_reg(s, a, if set { reg(s, a) | m } else { reg(s, a) & !m }))
        },
    }
}

/// JMP and its conditional forms: when taken, `rip` becomes register A.
pub open spec fn jump_effect(s: CpuState, op: u64, c: Condition) -> Result<CpuState, CpuFault> {
    let a = field_a(op);
    if !condition_holds(c, flags(s)) {
        Ok(s)
    } else if !is_register(a) {
        Err(CpuFault::InvalidRegister(a))
    } else {
        Ok(set_reg(s, RIP, reg(s, a)))
    }
}

/// The port number held in register A.
pub open spec fn port_of(s: CpuState, op: u64) -> u64 {
    reg(s, field_a(op)) & 0xFFFF
}

/// IN: `input`, the value the handler returned, into the low bits of register B.
pub open spec fn in_effect(s: CpuState, op: u64, w: Width, ports: nat, input: u64) -> Result<CpuState, CpuFault> {
    let (a, b) = (field_a(op), field_b(op));
    match invalid2(a, b) {
        Some(code) => Err(CpuFault::InvalidRegister(code)),
        None => if port_of(s, op) >= ports {
            Err(CpuFault::InvalidPort(port_of(s, op) as u16))
        } else {
            Ok(set_reg(s, b, merge(reg(s, b), input, w)))
        },
    }
}

/// OUT: the low bits of register B go to the handler; the CPU state does not change.
pub open spec fn out_effect(s: CpuState, op: u64, ports: nat) -> Result<CpuState, CpuFault> {
    let (a, b) = (field_a(op), field_b(op));
    match invalid2(a, b) {
        Some(code) => Err(CpuFault::InvalidRegister(code)),
        None => if port_of(s, op) >= ports {
            Err(CpuFault::InvalidPort(port_of(s, op) as u16))
        } else {
            Ok(s)
        },
    }
}

/// The effect of instruction `ins` (word `op`) on the CPU alone.
pub open spec fn cpu_effect(ins: Instr, s: CpuState, op: u64, mem: Seq<u8>, ports: nat, input: u64) -> Result<CpuState, CpuFault> {
    match ins {
        Instr::Nop => Ok(s),
        Instr::Store(_) => Ok(s),
        Instr::Load(w) => load_effect(s, op, w, mem),
        Instr::LoadLowImmediate => load_immediate_effect(s, op, false),
        Instr::LoadUpperImmediate => load_immediate_effect(s, op, true),
        Instr::Extend(w, signed) => extend_effect(s, op, w, signed),
        Instr::Move(w) => move_effect(s, op, w),
        Instr::Arith(k, w, signed) => arith_effect(s, op, k, w, signed),
        Instr::Increment(w, signed) => step_effect(s, op, w, signed, true),
        Instr::Decrement(w, signed) => step_effect(s, op, w, signed, false),
        Instr::Negate(w) => negate_effect(s, op, w),
        Instr::Compare(w, signed) => compare_effect(s, op, w, signed),
        Instr::Logic(k, w) => logic_effect(s, op, k, w),
        Instr::Not(w) => not_effect(s, op, w),
        Instr::Shift(k, w) => shift_effect(s, op, k, w),
        Instr::BitTest => bit_test_effect(s, op),
        Instr::BitSet => bit_write_effect(s, op, true),
        Instr::BitClear => bit_write_effect(s, op, false),
        Instr::Jump(c) => jump_effect(s, op, c),
        Instr::Interrupt => Err(CpuFault::Unimplemented(0x030C)),
        Instr::WaitForInterrupt => Ok(CpuState { regs: s.regs, running: false }),
        Instr::Reset => Ok(reset_state()),
        Instr::In(w) => in_effect(s, op, w, ports, input),
        Instr::Out(_) => out_effect(s, op, ports),
        Instr::CpuId => Err(CpuFault::Unimplemented(0x0FFF)),
    }
}

/// The effect of instruction `ins` on the CPU and on RAM.
pub open spec fn effect(ins: Instr, s: CpuState, op: u64, mem: Seq<u8>, ports: nat, input: u64) -> Result<(CpuState, Seq<u8>), CpuFault> {
    match ins {
        Instr::Store(w) => match store_effect(s, op, w, mem) {
            Ok(m) => Ok((s, m)),
            Err(e) => Err(e),
        },
        _ => match cpu_effect(ins, s, op, mem, ports, input) {
            Ok(t) => Ok((t, mem)),
            Err(e) => Err(e),
        },
    }
}

/// `post` and `r` are what `e` prescribes: on a fault nothing changed.
pub open spec fn settles(pre: CpuState, post: CpuState, r: Result<(), CpuFault>, e: Result<CpuState, CpuFault>) -> bool {
    match e {
        Ok(t) => r == Ok::<(), CpuFault>(()) && post == t,
        Err(f) => r == Err::<(), CpuFault>(f) && post == pre,
    }
}

/// As `settles`, for the CPU and RAM together.
pub open spec fn settles_with_memory(
    pre: CpuState,
    mem: Seq<u8>,
    post: CpuState,
    mem_post: Seq<u8>,
    r: Result<(), CpuFault>,
    e: Result<(CpuState, Seq<u8>), CpuFault>,
) -> bool {
    match e {
        Ok((t, m)) => r == Ok::<(), CpuFault>(()) && post == t && mem_post == m,
        Err(f) => r == Err::<(), CpuFault>(f) && post == pre && mem_post == mem,
    }
}

/// The state after a cycle has fetched `op` at `rip`: `rip` has moved past it.
pub open spec fn advanced(s: CpuState) -> CpuState {
    set_reg(s, RIP, (reg(s, RIP) + 8) as u64)
}

/// Whether `v` is a value that a read of width `w` from `port` through `h` may return.
pub open spec fn port_read<H: IoHandler>(h: H, port: u16, w: Width, v: u64) -> bool {
    match w {
        Width::Byte => v < 0x100 && h.reads_u8(port, v as u8),
        Width::Word => v < 0x1_0000 && h.reads_u16(port, v as u16),
        Width::Dword => v < 0x1_0000_0000 && h.reads_u32(port, v as u32),
        Width::Qword => h.reads_u64(port, v),
    }
}

/// Whether `h` has been handed the low bits of `v` at width `w` for `port`.
pub open spec fn port_write<H: IoHandler>(h: H, port: u16, w: Width, v: u64) -> bool {
    match w {
        Width::Byte => h.took_u8(port, (v & 0xFF) as u8),
        Width::Word => h.took_u16(port, (v & 0xFFFF) as u16),
        Width::Dword => h.took_u32(port, (v & 0xFFFF_FFFF) as u32),
        Width::Qword => h.took_u64(port, v),
    }
}

/// The port access of an IN or OUT that completed: `input` came from the handler at
/// the port in register A, or that handler was handed the low bits of register B.
pub open spec fn port_access<H: IoHandler>(ins: Instr, s: CpuState, op: u64, handlers: Seq<H>, input: u64) -> bool {
    let port = port_of(s, op);
    match ins {
        Instr::In(w) => port_read(handlers[port as int], port as u16, w, input),
        Instr::Out(w) => port_write(handlers[port as int], port as u16, w, reg(s, field_b(op))),
        _ => true,
    }
}

/// Executing `ins` (word `op`) from `s` over RAM `mem` and the handlers `handlers`
/// ends in `post`, `mem_post` and `r`. An IN instruction stores whatever its
/// handler returned.
pub open spec fn executes<H: IoHandler>(
    ins: Instr,
    s: CpuState,
    op: u64,
    mem: Seq<u8>,
    handlers: Seq<H>,
    post: CpuState,
    mem_post: Seq<u8>,
    r: Result<(), CpuFault>,
) -> bool {
    match ins {
        Instr::In(_) => exists|input: u64|
            {
                &&& settles_with_memory(
                    s,
                    mem,
                    post,
                    mem_post,
                    r,
                    #[trigger] effect(ins, s, op, mem, handlers.len(), input),
                )
                &&& r is Ok ==> port_access(ins, s, op, handlers, input)
            },
        _ => {
            &&& settles_with_memory(s, mem, post, mem_post, r, effect(ins, s, op, mem, handlers.len(), 0))
            &&& r is Ok ==> port_access(ins, s, op, handlers, 0)
        },
    }
}

/// One cycle from `pre` over RAM `mem` and the handlers `handlers` ends in `post`,
/// `mem_post` and `r`.
#[verifier::opaque]
pub open spec fn cycle<H: IoHandler>(pre: CpuState, mem: Seq<u8>, handlers: Seq<H>, post: CpuState, mem_post: Seq<u8>, r: Result<(), CpuFault>) -> bool {
    match fetch(mem, reg(pre, RIP)) {
        None => r == Err::<(), CpuFault>(CpuFault::FetchOutOfRange(reg(pre, RIP))) && post == pre
            && mem_post == mem,
        Some(op) => {
            let s = advanced(pre);
            match decode(opcode_of(op)) {
                None => r == Err::<(), CpuFault>(CpuFault::UnknownOpcode(opcode_of(op))) && post
                    == s && mem_post == mem,
                Some(ins) => executes(ins, s, op, mem, handlers, post, mem_post, r),
            }
        },
    }
}

fn widened(w: Width) -> (r: Width)
    ensures
        r == widen(w),
{
    match w {
        Width::Byte => Width::Word,
        Width::Word => Width::Dword,
        _ => Width::Qword,
    }
}

/// `n` cycles that each began with the CPU running and completed lead from `pre`
/// to `post`.
pub open spec fn runs<H: IoHandler>(pre: CpuState, mem: Seq<u8>, handlers: Seq<H>, n: nat, post: CpuState, mem_post: Seq<u8>) -> bool
    decreases n,
{
    if n == 0 {
        post == pre && mem_post == mem
    } else {
        exists|mid: CpuState, mid_mem: Seq<u8>, r: Result<(), CpuFault>|
            #![trigger cycle(mid, mid_mem, handlers, post, mem_post, r)]
            {
                &&& runs(pre, mem, handlers, (n - 1) as nat, mid, mid_mem)
                &&& mid.running
                &&& r is Ok
                &&& cycle(mid, mid_mem, handlers, post, mem_post, r)
            }
    }
}

/// The Monad CPU.
pub struct MonadCPU {
    regs: [u64; REGISTER_COUNT],
    running: bool,
}

impl View for MonadCPU {
    type V = CpuState;

    closed spec fn view(&self) -> CpuState {
        CpuState { regs: self.regs@, running: self.running }
    }
}

/// Where a register code lives in the register file.
pub fn register_slot(code: u16) -> (r: Result<usize, CpuFault>)
    ensures
        match r {
            Ok(i) => is_register(code) && i == slot(code) && i < REGISTER_COUNT,
            Err(e) => !is_register(code) && e == CpuFault::InvalidRegister(code),
        },
{
    if code <= 0x16 {
        Ok(code as usize)
    } else if 0xF000 <= code && code <= 0xF007 {
        Ok((code - 0xF000 + 23) as usize)
    } else {
        Err(CpuFault::InvalidRegister(code))
    }
}

impl MonadCPU {
    /// A CPU with every register zero, not running.
    pub fn new() -> (r: Self)
        ensures
            r@.regs == Seq::new(REGISTER_COUNT as nat, |i: int| 0u64),
            !r@.running,
    {
        let r = MonadCPU { regs: [0u64; REGISTER_COUNT], running: false };
        assert(r.regs@ =~= Seq::new(REGISTER_COUNT as nat, |i: int| 0u64));
        r
    }

    /// The register file always holds one slot per register code.
    pub proof fn lemma_wf(&self)
        ensures
            wf(self@),
    {
    }

    fn read(&self, i: usize) -> (r: u64)
        requires
            i < REGISTER_COUNT,
        ensures
            r == self@.regs[i as int],
    {
        self.regs[i]
    }

    fn write(&mut self, i: usize, v: u64)
        requires
            i < REGISTER_COUNT,
        ensures
            final(self)@ == (CpuState { regs: old(self)@.regs.update(i as int, v), running: old(self)@.running }),
    {
        self.regs[i] = v;
    }

    /// The value of the register with the given code.
    pub fn get_register_value_from_code(&self, code: u16) -> (r: Result<u64, CpuFault>)
        ensures
            is_register(code) ==> r == Ok::<u64, CpuFault>(reg(self@, code)),
            !is_register(code) ==> r == Err::<u64, CpuFault>(CpuFault::InvalidRegister(code)),
    {
        let i = register_slot(code)?;
        Ok(self.read(i))
    }

    /// Sets the register with the given code.
    pub fn set_register_value_from_code(&mut self, code: u16, value: u64) -> (r: Result<(), CpuFault>)
        ensures
            settles(
                old(self)@,
                final(self)@,
                r,
                if is_register(code) {
                    Ok(set_reg(old(self)@, code, value))
                } else {
                    Err(CpuFault::InvalidRegister(code))
                },
            ),
    {
        let i = register_slot(code)?;
        self.write(i, value);
        Ok(())
    }

    pub fn rip(&self) -> (r: u64)
        ensures
            r == reg(self@, RIP),
    {
        self.regs[RIP as usize]
    }

    pub fn rflags(&self) -> (r: u64)
        ensures
            r == flags(self@),
    {
        self.regs[RFLAGS as usize]
    }

    pub fn is_running(&self) -> (r: bool)
        ensures
            r == self@.running,
    {
        self.running
    }

    fn set_flags_value(&mut self, f: u64)
        ensures
            final(self)@ == set_flags(old(self)@, f),
    {
        self.regs[RFLAGS as usize] = f;
    }

    fn smem(&self, op: u64, w: Width, memory_bus: &mut MemoryBus48) -> (r: Result<(), CpuFault>)
        ensures
            match store_effect(self@, op, w, old(memory_bus)@) {
                Ok(m) => r == Ok::<(), CpuFault>(()) && final(memory_bus)@ == m,
                Err(e) => r == Err::<(), CpuFault>(e) && final(memory_bus)@ == old(memory_bus)@,
            },
    {
        let i = register_slot(operand_a(op))?;
        let j = register_slot(operand_b(op))?;
        let bytes = to_le(self.read(i), w.bytes());
        memory_bus.write_bytes(self.read(j), bytes.as_slice());
        Ok(())
    }

    fn lmem(&mut self, op: u64, w: Width, memory_bus: &MemoryBus48) -> (r: Result<(), CpuFault>)
        ensures
            settles(old(self)@, final(self)@, r, load_effect(old(self)@, op, w, memory_bus@)),
    {
        let i = register_slot(operand_a(op))?;
        let j = register_slot(operand_b(op))?;
        let n = w.bytes();
        let bytes = memory_bus.read_bytes(self.read(i), n);
        if bytes.len() == n {
            let v = merge_low(self.read(j), from_le(bytes), w);
            self.write(j, v);
        }
        Ok(())
    }

    fn load_immediate(&mut self, op: u64, upper: bool) -> (r: Result<(), CpuFault>)
        ensures
            settles(old(self)@, final(self)@, r, load_immediate_effect(old(self)@, op, upper)),
    {
        let a = operand_a(op);
        if a < IMM0 || a > 0xF007 {
            return Err(CpuFault::NotImmediateRegister(a));
        }
        let i = register_slot(a)?;
        let old_value = self.read(i);
        let imm = immediate_field(op);
        let v = if upper {
            (old_value & 0xFFFF_FFFF) | (imm << 32u64)
        } else {
            (old_value & 0xFFFF_FFFF_0000_0000) | imm
        };
        self.write(i, v);
        Ok(())
    }

    fn extend(&mut self, op: u64, from: Width, signed: bool) -> (r: Result<(), CpuFault>)
        ensures
            settles(old(self)@, final(self)@, r, extend_effect(old(self)@, op, from, signed)),
    {
        let i = register_slot(operand_a(op))?;
        let j = register_slot(operand_b(op))?;
        let src = self.read(i);
        let v = if from == Width::Dword && !signed {
            src & 0xFFFF
        } else {
            let to = widened(from);
            merge_low(self.read(j), wrap_to(value_in(src, from, signed), to), to)
        };
        self.write(j, v);
        Ok(())
    }

    fn mov(&mut self, op: u64, w: Width) -> (r: Result<(), CpuFault>)
        ensures
            settles(old(self)@, final(self)@, r, move_effect(old(self)@, op, w)),
    {
        let i = register_slot(operand_a(op))?;
        let j = register_slot(operand_b(op))?;
        let v = merge_low(self.read(j), self.read(i), w);
        self.write(j, v);
        Ok(())
    }

    fn arith_op(&mut self, op: u64, k: ArithOp, w: Width, signed: bool) -> (r: Result<(), CpuFault>)
        ensures
            settles(old(self)@, final(self)@, r, arith_effect(old(self)@, op, k, w, signed)),
    {
        let i = register_slot(operand_a(op))?;
        let j = register_slot(operand_b(op))?;
        let d = register_slot(operand_c(op))?;
        let a = self.read(i);
        let b = self.read(j);
        let dest = self.read(d);
        match arith(k, w, signed, a, b) {
            None => Err(CpuFault::DivideByZero),
            Some((res, overflow)) => {
                let negative = signed && value_in(res, w, true) < 0;
                let f = update_arith_flags(
                    self.rflags(),
                    overflow,
                    res == 0,
                    value_in(a, w, signed),
                    value_in(b, w, signed),
                    negative,
                );
                self.set_flags_value(f);
                self.write(d, merge_low(dest, res, w));
                Ok(())
            },
        }
    }

    fn step(&mut self, op: u64, w: Width, signed: bool, up: bool) -> (r: Result<(), CpuFault>)
        ensures
            settles(old(self)@, final(self)@, r, step_effect(old(self)@, op, w, signed, up)),
    {
        let i = register_slot(operand_a(op))?;
        let x = value_in(self.read(i), w, signed);
        let e = if up {
            x + 1
        } else {
            x - 1
        };
        let res = wrap_to(e, w);
        let negative = signed && value_in(res, w, true) < 0;
        let f = update_unary_flags(self.rflags(), !fits_in(e, w, signed), res == 0, negative);
        self.set_flags_value(f);
        let v = merge_low(self.read(i), res, w);
        self.write(i, v);
        Ok(())
    }

    fn negate(&mut self, op: u64, w: Width) -> (r: Result<(), CpuFault>)
        ensures
            settles(old(self)@, final(self)@, r, negate_effect(old(self)@, op, w)),
    {
        let i = register_slot(operand_a(op))?;
        let x = value_in(self.read(i), w, true);
        let res = wrap_to(-x, w);
        let f = update_unary_flags(self.rflags(), false, res == 0, value_in(res, w, true) < 0);
        self.set_flags_value(f);
        let v = merge_low(self.read(i), res, w);
        self.write(i, v);
        Ok(())
    }

    fn compare(&mut self, op: u64, w: Width, signed: bool) -> (r: Result<(), CpuFault>)
        ensures
            settles(old(self)@, final(self)@, r, compare_effect(old(self)@, op, w, signed)),
    {
        let i = register_slot(operand_a(op))?;
        let j = register_slot(operand_b(op))?;
        let x = value_in(self.read(i), w, signed);
        let y = value_in(self.read(j), w, signed);
        let f = update_compare_flags(self.rflags(), x, y);
        self.set_flags_value(f);
        Ok(())
    }

    fn logic_op(&mut self, op: u64, k: LogicOp, w: Width) -> (r: Result<(), CpuFault>)
        ensures
            settles(old(self)@, final(self)@, r, logic_effect(old(self)@, op, k, w)),
    {
        let i = register_slot(operand_a(op))?;
        let j = register_slot(operand_b(op))?;
        let d = register_slot(operand_c(op))?;
        let a = self.read(i);
        let b = self.read(j);
        let dest = self.read(d);
        let res = logic(k, a, b, w);
        let m = w.mask();
        let f = update_logic_flags(self.rflags(), res == 0, a & m, b & m);
        self.set_flags_value(f);
        self.write(d, merge_low(dest, res, w));
        Ok(())
    }

    fn not(&mut self, op: u64, w: Width) -> (r: Result<(), CpuFault>)
        ensures
            settles(old(self)@, final(self)@, r, not_effect(old(self)@, op, w)),
    {
        let i = register_slot(operand_a(op))?;
        let j = register_slot(operand_b(op))?;
        let dest = self.read(j);
        let res = !self.read(i) & w.mask();
        let f = update_flag(self.rflags(), res == 0, ZERO_FLAG, ZERO_FLAG);
        self.set_flags_value(f);
        self.write(j, merge_low(dest, res, w));
        Ok(())
    }

    fn shift_op(&mut self, op: u64, k: ShiftOp, w: Width) -> (r: Result<(), CpuFault>)
        ensures
            settles(old(self)@, final(self)@, r, shift_effect(old(self)@, op, k, w)),
    {
        let i = register_slot(operand_a(op))?;
        let j = register_slot(operand_b(op))?;
        let dest = self.read(j);
        let res = shift(k, self.read(i), w);
        let f = update_flag(self.rflags(), res == 0, ZERO_FLAG, ZERO_FLAG);
        self.set_flags_value(f);
        self.write(j, merge_low(dest, res, w));
        Ok(())
    }

    fn bitt(&mut self, op: u64) -> (r: Result<(), CpuFault>)
        ensures
            settles(old(self)@, final(self)@, r, bit_test_effect(old(self)@, op)),
    {
        let j = register_slot(operand_b(op))?;
        let i = register_slot(operand_a(op))?;
        let x = self.read(j);
        let index = x & 63;
        assert(index < 64) by (bit_vector)
            requires
                index == x & 63,
        ;
        let bit = self.read(i) & (1u64 << index) != 0;
        let f = update_flag(self.rflags(), bit, GREATER_FLAG, GREATER_FLAG);
        self.set_flags_value(f);
        Ok(())
    }

    fn bit_write(&mut self, op: u64, set: bool) -> (r: Result<(), CpuFault>)
        ensures
            settles(old(self)@, final(self)@, r, bit_write_effect(old(self)@, op, set)),
    {
        let j = register_slot(operand_b(op))?;
        let i = register_slot(operand_a(op))?;
        let x = self.read(j);
        let index = x & 63;
        assert(index < 64) by (bit_vector)
            requires
                index == x & 63,
        ;
        let m = 1u64 << index;
        let v = if set {
            self.read(i) | m
        } else {
            self.read(i) & !m
        };
        self.write(i, v);
        Ok(())
    }

    fn jump(&mut self, op: u64, c: Condition) -> (r: Result<(), CpuFault>)
        ensures
            settles(old(self)@, final(self)@, r, jump_effect(old(self)@, op, c)),
    {
        if condition_taken(c, self.rflags()) {
            let i = register_slot(operand_a(op))?;
            let target = self.read(i);
            self.write(RIP as usize, target);
        }
        Ok(())
    }

    fn wfi(&mut self)
        ensures
            final(self)@ == (CpuState { regs: old(self)@.regs, running: false }),
    {
        self.running = false;
    }

    fn rst(&mut self)
        ensures
            final(self)@ == reset_state(),
    {
        self.regs = [0u64; REGISTER_COUNT];
        self.running = true;
        assert(self.regs@ =~= reset_state().regs);
    }

    fn port_in<H: IoHandler>(&mut self, op: u64, w: Width, io_bus: &IoBus<H>) -> (r: Result<u64, CpuFault>)
        ensures
            match r {
                Ok(v) => {
                    &&& in_effect(old(self)@, op, w, io_bus.io_handlers@.len(), v) == Ok::<CpuState, CpuFault>(final(self)@)
                    &&& port_access(Instr::In(w), old(self)@, op, io_bus.io_handlers@, v)
                },
                Err(e) => final(self)@ == old(self)@ && in_effect(old(self)@, op, w, io_bus.io_handlers@.len(), 0) == Err::<CpuState, CpuFault>(e),
            },
    {
        let i = register_slot(operand_a(op))?;
        let j = register_slot(operand_b(op))?;
        let x = self.read(i);
        let p = x & 0xFFFF;
        assert(p < 0x1_0000) by (bit_vector)
            requires
                p == x & 0xFFFF,
        ;
        let port = p as u16;
        if port as usize >= io_bus.io_handlers.len() {
            return Err(CpuFault::InvalidPort(port));
        }
        let v: u64 = match w {
            Width::Byte => io_bus.read_u8(port) as u64,
            Width::Word => io_bus.read_u16(port) as u64,
            Width::Dword => io_bus.read_u32(port) as u64,
            Width::Qword => io_bus.read_u64(port),
        };
        let merged = merge_low(self.read(j), v, w);
        self.write(j, merged);
        Ok(v)
    }

    fn port_out<H: IoHandler>(&self, op: u64, w: Width, io_bus: &mut IoBus<H>) -> (r: Result<(), CpuFault>)
        ensures
            final(io_bus).io_handlers@ == old(io_bus).io_handlers@,
            settles(self@, self@, r, out_effect(self@, op, old(io_bus).io_handlers@.len())),
            r is Ok ==> port_access(Instr::Out(w), self@, op, old(io_bus).io_handlers@, 0),
    {
        let i = register_slot(operand_a(op))?;
        let j = register_slot(operand_b(op))?;
        let x = self.read(i);
        let p = x & 0xFFFF;
        assert(p < 0x1_0000) by (bit_vector)
            requires
                p == x & 0xFFFF,
        ;
        let port = p as u16;
        if port as usize >= io_bus.io_handlers.len() {
            return Err(CpuFault::InvalidPort(port));
        }
        let v = self.read(j);
        match w {
            Width::Byte => io_bus.write_u8(port, (v & 0xFF) as u8),
            Width::Word => io_bus.write_u16(port, (v & 0xFFFF) as u16),
            Width::Dword => io_bus.write_u32(port, (v & 0xFFFF_FFFF) as u32),
            Width::Qword => io_bus.write_u64(port, v),
        }
        Ok(())
    }

    /// Executes a decoded instruction whose word is `op`.
    #[verifier::rlimit(100)]
    pub fn execute_instruction<H: IoHandler>(
        &mut self,
        ins: Instr,
        op: u64,
        memory_bus: &mut MemoryBus48,
        io_bus: &mut IoBus<H>,
    ) -> (r: Result<(), CpuFault>)
        ensures
            final(io_bus).io_handlers@ == old(io_bus).io_handlers@,
            executes(
                ins,
                old(self)@,
                op,
                old(memory_bus)@,
                old(io_bus).io_handlers@,
                final(self)@,
                final(memory_bus)@,
                r,
            ),
    {
        match ins {
            Instr::Nop => Ok(()),
            Instr::Store(w) => self.smem(op, w, memory_bus),
            Instr::Load(w) => self.lmem(op, w, memory_bus),
            Instr::LoadLowImmediate => self.load_immediate(op, false),
            Instr::LoadUpperImmediate => self.load_immediate(op, true),
            Instr::Extend(w, signed) => self.extend(op, w, signed),
            Instr::Move(w) => self.mov(op, w),
            Instr::Arith(k, w, signed) => self.arith_op(op, k, w, signed),
            Instr::Increment(w, signed) => self.step(op, w, signed, true),
            Instr::Decrement(w, signed) => self.step(op, w, signed, false),
            Instr::Negate(w) => self.negate(op, w),
            Instr::Compare(w, signed) => self.compare(op, w, signed),
            Instr::Logic(k, w) => self.logic_op(op, k, w),
            Instr::Not(w) => self.not(op, w),
            Instr::Shift(k, w) => self.shift_op(op, k, w),
            Instr::BitTest => self.bitt(op),
            Instr::BitSet => self.bit_write(op, true),
            Instr::BitClear => self.bit_write(op, false),
            Instr::Jump(c) => self.jump(op, c),
            Instr::Interrupt => Err(CpuFault::Unimplemented(0x030C)),
            Instr::WaitForInterrupt => {
                self.wfi();
                Ok(())
            },
            Instr::Reset => {
                self.rst();
                Ok(())
            },
            Instr::In(w) => {
                let ghost ports = io_bus.io_handlers@.len();
                match self.port_in(op, w, io_bus) {
                    Ok(v) => {
                        assert(settles_with_memory(
                            old(self)@,
                            old(memory_bus)@,
                            self@,
                            memory_bus@,
                            Ok(()),
                            effect(ins, old(self)@, op, old(memory_bus)@, ports, v),
                        ));
                        Ok(())
                    },
                    Err(e) => {
                        assert(settles_with_memory(
                            old(self)@,
                            old(memory_bus)@,
                            self@,
                            memory_bus@,
                            Err(e),
                            effect(ins, old(self)@, op, old(memory_bus)@, ports, 0),
                        ));
                        Err(e)
                    },
                }
            },
            Instr::Out(w) => self.port_out(op, w, io_bus),
            Instr::CpuId => Err(CpuFault::Unimplemented(0x0FFF)),
        }
    }

    /// Runs one cycle: fetches the instruction word at `rip`, moves `rip` past it,
    /// then decodes and executes it.
    pub fn execute_cycle<H: IoHandler>(&mut self, memory_bus: &mut MemoryBus48, io_bus: &mut IoBus<H>) -> (r: Result<(), CpuFault>)
        ensures
            final(io_bus).io_handlers@ == old(io_bus).io_handlers@,
            cycle(
                old(self)@,
                old(memory_bus)@,
                old(io_bus).io_handlers@,
                final(self)@,
                final(memory_bus)@,
                r,
            ),
    {
        proof {
            reveal(cycle);
        }
        let rip = self.rip();
        let size = memory_bus.get_size();
        let word = memory_bus.read_bytes(rip, 8);
        if word.len() != 8 {
            return Err(CpuFault::FetchOutOfRange(rip));
        }
        let op = from_le(word);
        assert(rip + 8 <= size);
        self.write(RIP as usize, rip + 8);
        let opcode = opcode_field(op);
        match decode_opcode(opcode) {
            None => Err(CpuFault::UnknownOpcode(opcode)),
            Some(ins) => self.execute_instruction(ins, op, memory_bus, io_bus),
        }
    }

    /// Sets the CPU running and runs cycles until it stops, a cycle faults, or
    /// `max_cycles` cycles have run. Returns the number of cycles that completed.
    pub fn run_cpu<H: IoHandler>(
        &mut self,
        memory_bus: &mut MemoryBus48,
        io_bus: &mut IoBus<H>,
        max_cycles: u64,
    ) -> (r: Result<u64, CpuFault>)
        ensures
            final(io_bus).io_handlers@ == old(io_bus).io_handlers@,
            ({
                let start = CpuState { regs: old(self)@.regs, running: true };
                let handlers = old(io_bus).io_handlers@;
                match r {
                    Ok(n) => {
                        &&& n <= max_cycles
                        &&& runs(start, old(memory_bus)@, handlers, n as nat, final(self)@, final(memory_bus)@)
                        &&& n < max_cycles ==> !final(self)@.running
                    },
                    Err(f) => exists|k: nat, mid: CpuState, mid_mem: Seq<u8>|
                        #![trigger runs(start, old(memory_bus)@, handlers, k, mid, mid_mem)]
                        {
                            &&& k < max_cycles
                            &&& runs(start, old(memory_bus)@, handlers, k, mid, mid_mem)
                            &&& mid.running
                            &&& cycle(mid, mid_mem, handlers, final(self)@, final(memory_bus)@, Err(f))
                        },
                }
            }),
    {
        let ghost start = CpuState { regs: self@.regs, running: true };
        let ghost mem0 = memory_bus@;
        let ghost handlers = io_bus.io_handlers@;
        self.running = true;
        let mut n: u64 = 0;
        assert(runs(start, mem0, handlers, 0, self@, memory_bus@));
        while self.running && n < max_cycles
            invariant
                n <= max_cycles,
                io_bus.io_handlers@ == old(io_bus).io_handlers@,
                handlers == old(io_bus).io_handlers@,
                mem0 == old(memory_bus)@,
                start == (CpuState { regs: old(self)@.regs, running: true }),
                runs(start, mem0, handlers, n as nat, self@, memory_bus@),
            decreases max_cycles - n,
        {
            let ghost prev = self@;
            let ghost prev_mem = memory_bus@;
            let res = self.execute_cycle(memory_bus, io_bus);
            assert(cycle(prev, prev_mem, handlers, self@, memory_bus@, res));
            match res {
                Ok(()) => {
                    assert(runs(start, mem0, handlers, (n + 1) as nat, self@, memory_bus@));
                    n = n + 1;
                },
                Err(f) => {
                    assert(exists|k: nat, mid: CpuState, mid_mem: Seq<u8>|
                        #![trigger runs(start, mem0, handlers, k, mid, mid_mem)]
                        {
                            &&& k < max_cycles
                            &&& runs(start, mem0, handlers, k, mid, mid_mem)
                            &&& mid.running
                            &&& cycle(mid, mid_mem, handlers, self@, memory_bus@, Err(f))
                        });
                    return Err(f);
                },
            }
        }
        Ok(n)
    }
}

/// What a board needs from its CPU.
pub trait Monarch64CPU {
    fn execute_cycle<H: IoHandler>(&mut self, memory_bus: &mut MemoryBus48, io_bus: &mut IoBus<H>) -> (r: Result<(), CpuFault>)
        ensures
            final(io_bus).io_handlers@ == old(io_bus).io_handlers@,
    ;

    fn run_cpu<H: IoHandler>(
        &mut self,
        memory_bus: &mut MemoryBus48,
        io_bus: &mut IoBus<H>,
        max_cycles: u64,
    ) -> (r: Result<u64, CpuFault>)
        ensures
            final(io_bus).io_handlers@ == old(io_bus).io_handlers@,
            r matches Ok(n) ==> n <= max_cycles,
    ;
}

impl Monarch64CPU for MonadCPU {
    fn execute_cycle<H: IoHandler>(&mut self, memory_bus: &mut MemoryBus48, io_bus: &mut IoBus<H>) -> Result<(), CpuFault> {
        MonadCPU::execute_cycle(self, memory_bus, io_bus)
    }

    fn run_cpu<H: IoHandler>(
        &mut self,
        memory_bus: &mut MemoryBus48,
        io_bus: &mut IoBus<H>,
        max_cycles: u64,
    ) -> Result<u64, CpuFault> {
        MonadCPU::run_cpu(self, memory_bus, io_bus, max_cycles)
    }
}

} // verus!
