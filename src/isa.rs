//! The instruction word: its operand slots and the table of opcodes.
use crate::alu::{ArithOp, LogicOp, ShiftOp};
use crate::flags::{EQUAL_FLAG, LESS_FLAG, NEGATIVE_FLAG, OVERFLOW_FLAG, SIGN_FLAG, ZERO_FLAG};
use crate::word::Width;
use vstd::prelude::*;

verus! {

/// The flag test of a control transfer.
#[derive(Clone, Copy, Debug, PartialEq, Eq, Structural)]
pub enum Condition {
    Always,
    Equal,
    Zero,
    NotEqual,
    NotZero,
    Greater,
    GreaterEqual,
    Less,
    LessEqual,
    Sign,
    Negative,
    Positive,
}

/// A decoded instruction.
#[derive(Clone, Copy, Debug, PartialEq, Eq, Structural)]
pub enum Instr {
    Nop,
    Store(Width),
    Load(Width),
    LoadLowImmediate,
    LoadUpperImmediate,
    /// Widens the low bits of the given width into the next wider field.
    Extend(Width, bool),
    Move(Width),
    Arith(ArithOp, Width, bool),
    Increment(Width, bool),
    Decrement(Width, bool),
    Negate(Width),
    Compare(Width, bool),
    Logic(LogicOp, Width),
    Not(Width),
    Shift(ShiftOp, Width),
    BitTest,
    BitSet,
    BitClear,
    Jump(Condition),
    Interrupt,
    WaitForInterrupt,
    Reset,
    In(Width),
    Out(Width),
    CpuId,
}

pub open spec fn opcode_of(op: u64) -> u16 {
    (op & 0xFFFF) as u16
}

/// Operand slot A, bits 16 to 31.
pub open spec fn field_a(op: u64) -> u16 {
    ((op >> 16u64) & 0xFFFF) as u16
}

/// Operand slot B, bits 32 to 47.
pub open spec fn field_b(op: u64) -> u16 {
    ((op >> 32u64) & 0xFFFF) as u16
}

/// Operand slot C, bits 48 to 63.
pub open spec fn field_c(op: u64) -> u16 {
    ((op >> 48u64) & 0xFFFF) as u16
}

/// The 32-bit immediate in bits 32 to 63.
pub open spec fn immediate(op: u64) -> u64 {
    op >> 32u64
}

pub fn opcode_field(op: u64) -> (r: u16)
    ensures
        r == opcode_of(op),
{
    (op & 0xFFFF) as u16
}

pub fn operand_a(op: u64) -> (r: u16)
    ensures
        r == field_a(op),
{
    ((op >> 16u64) & 0xFFFF) as u16
}

pub fn operand_b(op: u64) -> (r: u16)
    ensures
        r == field_b(op),
{
    ((op >> 32u64) & 0xFFFF) as u16
}

pub fn operand_c(op: u64) -> (r: u16)
    ensures
        r == field_c(op),
{
    ((op >> 48u64) & 0xFFFF) as u16
}

pub fn immediate_field(op: u64) -> (r: u64)
    ensures
        r == immediate(op),
{
    op >> 32u64
}

/// Whether a control transfer with condition `c` is taken under flags `f`.
pub open spec fn condition_holds(c: Condition, f: u64) -> bool {
    match c {
        Condition::Always => true,
        Condition::Equal => f & EQUAL_FLAG != 0,
        Condition::Zero => f & ZERO_FLAG != 0,
        Condition::NotEqual => f & EQUAL_FLAG == 0,
        Condition::NotZero => f & ZERO_FLAG != 0,
        Condition::Greater => f & LESS_FLAG != 0,
        Condition::GreaterEqual => f & LESS_FLAG != 0 || f & EQUAL_FLAG != 0,
        Condition::Less => f & OVERFLOW_FLAG != 0,
        Condition::LessEqual => f & OVERFLOW_FLAG != 0 || f & EQUAL_FLAG != 0,
        Condition::Sign => f & SIGN_FLAG != 0,
        Condition::Negative => f & NEGATIVE_FLAG != 0,
        Condition::Positive => f & NEGATIVE_FLAG == 0,
    }
}

pub fn condition_taken(c: Condition, f: u64) -> (r: bool)
    ensures
        r == condition_holds(c, f),
{
    match c {
        Condition::Always => true,
        Condition::Equal => f & EQUAL_FLAG != 0,
        Condition::Zero => f & ZERO_FLAG != 0,
        Condition::NotEqual => f & EQUAL_FLAG == 0,
        Condition::NotZero => f & ZERO_FLAG != 0,
        Condition::Greater => f & LESS_FLAG != 0,
        Condition::GreaterEqual => f & LESS_FLAG != 0 || f & EQUAL_FLAG != 0,
        Condition::Less => f & OVERFLOW_FLAG != 0,
        Condition::LessEqual => f & OVERFLOW_FLAG != 0 || f & EQUAL_FLAG != 0,
        Condition::Sign => f & SIGN_FLAG != 0,
        Condition::Negative => f & NEGATIVE_FLAG != 0,
        Condition::Positive => f & NEGATIVE_FLAG == 0,
    }
}

/// Byte, word, double word and quad word, in the order of the opcode table.
pub open spec fn width_at(i: int) -> Width {
    if i == 0 {
        Width::Byte
    } else if i == 1 {
        Width::Word
    } else if i == 2 {
        Width::Dword
    } else {
        Width::Qword
    }
}

pub open spec fn arith_op_at(i: int) -> ArithOp {
    if i == 0 {
        ArithOp::Add
    } else if i == 1 {
        ArithOp::Sub
    } else if i == 2 {
        ArithOp::Mul
    } else {
        ArithOp::Div
    }
}

pub open spec fn logic_op_at(i: int) -> LogicOp {
    if i == 0 {
        LogicOp::And
    } else if i == 1 {
        LogicOp::Or
    } else if i == 2 {
        LogicOp::Xor
    } else if i == 3 {
        LogicOp::Nor
    } else {
        LogicOp::Nand
    }
}

pub open spec fn shift_op_at(i: int) -> ShiftOp {
    if i == 0 {
        ShiftOp::ShiftLeft
    } else if i == 1 {
        ShiftOp::ShiftRight
    } else if i == 2 {
        ShiftOp::RotateLeft
    } else {
        ShiftOp::RotateRight
    }
}

pub open spec fn condition_at(i: int) -> Condition {
    if i == 0 {
        Condition::Always
    } else if i == 1 {
        Condition::Equal
    } else if i == 2 {
        Condition::Zero
    } else if i == 3 {
        Condition::NotEqual
    } else if i == 4 {
        Condition::NotZero
    } else if i == 5 {
        Condition::Greater
    } else if i == 6 {
        Condition::GreaterEqual
    } else if i == 7 {
        Condition::Less
    } else if i == 8 {
        Condition::LessEqual
    } else if i == 9 {
        Condition::Sign
    } else if i == 10 {
        Condition::Negative
    } else {
        Condition::Positive
    }
}

/// The opcode table. Within a group, opcodes step through the widths byte, word,
/// double word, quad word; a signed group follows its unsigned one.
pub open spec fn decode(opcode: u16) -> Option<Instr> {
    let n = opcode as int;
    if n == 0 {
        Some(Instr::Nop)
    } else if 0x1 <= n <= 0x4 {
        Some(Instr::Store(width_at(n - 0x1)))
    } else if 0x5 <= n <= 0x8 {
        Some(Instr::Load(width_at(n - 0x5)))
    } else if n == 0x9 {
        Some(Instr::LoadLowImmediate)
    } else if n == 0xA {
        Some(Instr::LoadUpperImmediate)
    } else if 0xB <= n <= 0x10 {
        Some(Instr::Extend(width_at((n - 0xB) / 2), (n - 0xB) % 2 == 1))
    } else if 0x11 <= n <= 0x14 {
        Some(Instr::Move(width_at(n - 0x11)))
    } else if 0x100 <= n <= 0x11F {
        let k = n - 0x100;
        Some(Instr::Arith(arith_op_at(k / 8), width_at(k % 4), k % 8 >= 4))
    } else if 0x120 <= n <= 0x127 {
        Some(Instr::Increment(width_at((n - 0x120) % 4), n - 0x120 >= 4))
    } else if 0x128 <= n <= 0x12F {
        Some(Instr::Decrement(width_at((n - 0x128) % 4), n - 0x128 >= 4))
    } else if 0x130 <= n <= 0x133 {
        Some(Instr::Negate(width_at(n - 0x130)))
    } else if 0x134 <= n <= 0x13B {
        Some(Instr::Compare(width_at((n - 0x134) % 4), n - 0x134 >= 4))
    } else if 0x13C <= n <= 0x147 {
        Some(Instr::Logic(logic_op_at((n - 0x13C) / 4), width_at((n - 0x13C) % 4)))
    } else if 0x148 <= n <= 0x14B {
        Some(Instr::Not(width_at(n - 0x148)))
    } else if 0x14C <= n <= 0x153 {
        Some(Instr::Logic(logic_op_at(3 + (n - 0x14C) / 4), width_at((n - 0x14C) % 4)))
    } else if 0x154 <= n <= 0x163 {
        Some(Instr::Shift(shift_op_at((n - 0x154) / 4), width_at((n - 0x154) % 4)))
    } else if n == 0x200 {
        Some(Instr::BitTest)
    } else if n == 0x201 {
        Some(Instr::BitSet)
    } else if n == 0x202 {
        Some(Instr::BitClear)
    } else if 0x300 <= n <= 0x30B {
        Some(Instr::Jump(condition_at(n - 0x300)))
    } else if n == 0x30C {
        Some(Instr::Interrupt)
    } else if n == 0x30D {
        Some(Instr::WaitForInterrupt)
    } else if n == 0x30E {
        Some(Instr::Reset)
    } else if 0x400 <= n <= 0x403 {
        Some(Instr::In(width_at(n - 0x400)))
    } else if 0x404 <= n <= 0x407 {
        Some(Instr::Out(width_at(n - 0x404)))
    } else if n == 0xFFF {
        Some(Instr::CpuId)
    } else {
        None
    }
}

fn width_from(i: u16) -> (r: Width)
    ensures
        r == width_at(i as int),
{
    if i == 0 {
        Width::Byte
    } else if i == 1 {
        Width::Word
    } else if i == 2 {
        Width::Dword
    } else {
        Width::Qword
    }
}

fn arith_op_from(i: u16) -> (r: ArithOp)
    ensures
        r == arith_op_at(i as int),
{
    if i == 0 {
        ArithOp::Add
    } else if i == 1 {
        ArithOp::Sub
    } else if i == 2 {
        ArithOp::Mul
    } else {
        ArithOp::Div
    }
}

fn logic_op_from(i: u16) -> (r: LogicOp)
    ensures
        r == logic_op_at(i as int),
{
    if i == 0 {
        LogicOp::And
    } else if i == 1 {
        LogicOp::Or
    } else if i == 2 {
        LogicOp::Xor
    } else if i == 3 {
        LogicOp::Nor
    } else {
        LogicOp::Nand
    }
}

fn shift_op_from(i: u16) -> (r: ShiftOp)
    ensures
        r == shift_op_at(i as int),
{
    if i == 0 {
        ShiftOp::ShiftLeft
    } else if i == 1 {
        ShiftOp::ShiftRight
    } else if i == 2 {
        ShiftOp::RotateLeft
    } else {
        ShiftOp::RotateRight
    }
}

fn condition_from(i: u16) -> (r: Condition)
    ensures
        r == condition_at(i as int),
{
    if i == 0 {
        Condition::Always
    } else if i == 1 {
        Condition::Equal
    } else if i == 2 {
        Condition::Zero
    } else if i == 3 {
        Condition::NotEqual
    } else if i == 4 {
        Condition::NotZero
    } else if i == 5 {
        Condition::Greater
    } else if i == 6 {
        Condition::GreaterEqual
    } else if i == 7 {
        Condition::Less
    } else if i == 8 {
        Condition::LessEqual
    } else if i == 9 {
        Condition::Sign
    } else if i == 10 {
        Condition::Negative
    } else {
        Condition::Positive
    }
}

/// Looks an opcode up in the opcode table.
pub fn decode_opcode(n: u16) -> (r: Option<Instr>)
    ensures
        r == decode(n),
{
    if n == 0 {
        Some(Instr::Nop)
    } else if 0x1 <= n && n <= 0x4 {
        Some(Instr::Store(width_from(n - 0x1)))
    } else if 0x5 <= n && n <= 0x8 {
        Some(Instr::Load(width_from(n - 0x5)))
    } else if n == 0x9 {
        Some(Instr::LoadLowImmediate)
    } else if n == 0xA {
        Some(Instr::LoadUpperImmediate)
    } else if 0xB <= n && n <= 0x10 {
        Some(Instr::Extend(width_from((n - 0xB) / 2), (n - 0xB) % 2 == 1))
    } else if 0x11 <= n && n <= 0x14 {
        Some(Instr::Move(width_from(n - 0x11)))
    } else if 0x100 <= n && n <= 0x11F {
        let k = n - 0x100;
        Some(Instr::Arith(arith_op_from(k / 8), width_from(k % 4), k % 8 >= 4))
    } else if 0x120 <= n && n <= 0x127 {
        Some(Instr::Increment(width_from((n - 0x120) % 4), n - 0x120 >= 4))
    } else if 0x128 <= n && n <= 0x12F {
        Some(Instr::Decrement(width_from((n - 0x128) % 4), n - 0x128 >= 4))
    } else if 0x130 <= n && n <= 0x133 {
        Some(Instr::Negate(width_from(n - 0x130)))
    } else if 0x134 <= n && n <= 0x13B {
        Some(Instr::Compare(width_from((n - 0x134) % 4), n - 0x134 >= 4))
    } else if 0x13C <= n && n <= 0x147 {
        Some(Instr::Logic(logic_op_from((n - 0x13C) / 4), width_from((n - 0x13C) % 4)))
    } else if 0x148 <= n && n <= 0x14B {
        Some(Instr::Not(width_from(n - 0x148)))
    } else if 0x14C <= n && n <= 0x153 {
        Some(Instr::Logic(logic_op_from(3 + (n - 0x14C) / 4), width_from((n - 0x14C) % 4)))
    } else if 0x154 <= n && n <= 0x163 {
        Some(Instr::Shift(shift_op_from((n - 0x154) / 4), width_from((n - 0x154) % 4)))
    } else if n == 0x200 {
        Some(Instr::BitTest)
    } else if n == 0x201 {
        Some(Instr::BitSet)
    } else if n == 0x202 {
        Some(Instr::BitClear)
    } else if 0x300 <= n && n <= 0x30B {
        Some(Instr::Jump(condition_from(n - 0x300)))
    } else if n == 0x30C {
        Some(Instr::Interrupt)
    } else if n == 0x30D {
        Some(Instr::WaitForInterrupt)
    } else if n == 0x30E {
        Some(Instr::Reset)
    } else if 0x400 <= n && n <= 0x403 {
        Some(Instr::In(width_from(n - 0x400)))
    } else if 0x404 <= n && n <= 0x407 {
        Some(Instr::Out(width_from(n - 0x404)))
    } else if n == 0xFFF {
        Some(Instr::CpuId)
    } else {
        None
    }
}

} // verus!
