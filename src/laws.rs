//! Properties of the instruction set that hold for every state and operand.
use crate::alu::LogicOp;
use crate::cpu::{
    advanced, cpu_effect, cycle, effect, fetch, flags, reg, reset_state, settles_with_memory,
    slot, wf, CpuState, REGISTER_COUNT, RFLAGS, RIP,
};
use crate::io_bus::IoHandler;
use crate::flags::{unary_flags, GREATER_FLAG, SIGN_FLAG, ZERO_FLAG};
use crate::isa::{condition_holds, decode, field_a, field_b, field_c, immediate, opcode_of, Instr};
use crate::memory_bus::written;
use crate::word::{low, mask_of, Width};
use vstd::prelude::*;

verus! {

/// The register that an instruction writes besides `rflags`, if any.
pub open spec fn destination(ins: Instr, op: u64) -> Option<u16> {
    match ins {
        Instr::Load(_) | Instr::Extend(_, _) | Instr::Move(_) | Instr::Not(_) | Instr::Shift(_, _)
        | Instr::In(_) => Some(field_b(op)),
        Instr::Arith(_, _, _) | Instr::Logic(_, _) => Some(field_c(op)),
        Instr::LoadLowImmediate | Instr::LoadUpperImmediate | Instr::Increment(_, _)
        | Instr::Decrement(_, _) | Instr::Negate(_) | Instr::BitSet | Instr::BitClear => Some(
            field_a(op),
        ),
        _ => None,
    }
}

/// After a cycle that completes, `rip` is eight past where the instruction was
/// fetched, unless a taken jump set it to the value of its target register (read
/// after the advance), a reset cleared it, or the instruction named `rip` as its
/// destination.
pub proof fn lemma_rip_after_cycle<H: IoHandler>(
    pre: CpuState,
    mem: Seq<u8>,
    handlers: Seq<H>,
    post: CpuState,
    mem_post: Seq<u8>,
    r: Result<(), crate::cpu::CpuFault>,
)
    requires
        wf(pre),
        cycle(pre, mem, handlers, post, mem_post, r),
        r is Ok,
    ensures
        ({
            let op = fetch(mem, reg(pre, RIP))->Some_0;
            let ins = decode(opcode_of(op))->Some_0;
            match ins {
                Instr::Jump(c) => reg(post, RIP) == if condition_holds(c, flags(pre)) {
                    reg(advanced(pre), field_a(op))
                } else {
                    (reg(pre, RIP) + 8) as u64
                },
                Instr::Reset => reg(post, RIP) == 0,
                _ => destination(ins, op) != Some(RIP) ==> reg(post, RIP) == (reg(pre, RIP) + 8) as u64,
            }
        }),
{
    reveal(cycle);
    let op = fetch(mem, reg(pre, RIP))->Some_0;
    let s = advanced(pre);
    let ins = decode(opcode_of(op))->Some_0;
    let input = if ins is In {
        choose|input: u64|
            settles_with_memory(s, mem, post, mem_post, r, #[trigger] effect(ins, s, op, mem, handlers.len(), input))
    } else {
        0
    };
    assert(settles_with_memory(s, mem, post, mem_post, r, effect(ins, s, op, mem, handlers.len(), input)));
    assert(flags(s) == flags(pre));
    assert(reg(s, RIP) == (reg(pre, RIP) + 8) as u64);
}

/// The register and width of an instruction that writes only the low bits of its
/// destination: arithmetic (increment, decrement and negation among it), bitwise,
/// shift, move, load and port input.
pub open spec fn partial_write(ins: Instr, op: u64) -> Option<(u16, Width)> {
    match ins {
        Instr::Arith(_, w, _) | Instr::Logic(_, w) => Some((field_c(op), w)),
        Instr::Increment(w, _) | Instr::Decrement(w, _) | Instr::Negate(w) => Some((field_a(op), w)),
        Instr::Move(w) | Instr::Load(w) | Instr::Not(w) | Instr::Shift(_, w) | Instr::In(w) => Some(
            (field_b(op), w),
        ),
        _ => None,
    }
}

/// An instruction that writes the low `w` bits of its destination keeps the bits
/// above them.
pub proof fn lemma_upper_bits_kept(ins: Instr, s: CpuState, op: u64, mem: Seq<u8>, ports: nat, input: u64)
    requires
        wf(s),
        cpu_effect(ins, s, op, mem, ports, input) is Ok,
        partial_write(ins, op) is Some,
    ensures
        ({
            let t = cpu_effect(ins, s, op, mem, ports, input)->Ok_0;
            let (d, w) = partial_write(ins, op)->Some_0;
            reg(t, d) & !mask_of(w) == reg(s, d) & !mask_of(w)
        }),
{
    let t = cpu_effect(ins, s, op, mem, ports, input)->Ok_0;
    let (d, w) = partial_write(ins, op)->Some_0;
    let m = mask_of(w);
    let f = flags(s);
    assert forall|a: bool, b: bool, c: bool| #[trigger] unary_flags(f, a, b, c) & !m == f & !m by {
        assert(m & 0xFF == 0xFF) by (bit_vector)
            requires
                m == 0xFF || m == 0xFFFF || m == 0xFFFF_FFFF || m == 0xFFFF_FFFF_FFFF_FFFF,
        ;
        assert(unary_flags(f, a, b, c) & !m == f & !m) by (bit_vector)
            requires
                m & 0xFF == 0xFF,
        ;
    }
    if reg(t, d) != reg(s, d) {
        let v = reg(t, d);
        let x = reg(s, d);
        assert(exists|y: u64| v == (x & !m) | (y & m));
        let y = choose|y: u64| v == (x & !m) | (y & m);
        assert(((x & !m) | (y & m)) & !m == x & !m) by (bit_vector);
    }
}

/// LLI keeps the high 32 bits of its immediate register and LUI the low 32 bits.
pub proof fn lemma_immediate_halves(s: CpuState, op: u64, mem: Seq<u8>, ports: nat, input: u64)
    requires
        wf(s),
    ensures
        cpu_effect(Instr::LoadLowImmediate, s, op, mem, ports, input) is Ok ==> ({
            let t = cpu_effect(Instr::LoadLowImmediate, s, op, mem, ports, input)->Ok_0;
            &&& reg(t, field_a(op)) & 0xFFFF_FFFF_0000_0000 == reg(s, field_a(op)) & 0xFFFF_FFFF_0000_0000
            &&& reg(t, field_a(op)) & 0xFFFF_FFFF == immediate(op)
        }),
        cpu_effect(Instr::LoadUpperImmediate, s, op, mem, ports, input) is Ok ==> ({
            let t = cpu_effect(Instr::LoadUpperImmediate, s, op, mem, ports, input)->Ok_0;
            &&& reg(t, field_a(op)) & 0xFFFF_FFFF == reg(s, field_a(op)) & 0xFFFF_FFFF
            &&& reg(t, field_a(op)) >> 32u64 == immediate(op)
        }),
{
    let x = reg(s, field_a(op));
    let i = immediate(op);
    assert(i == op >> 32u64);
    assert(((x & 0xFFFF_FFFF_0000_0000) | (op >> 32u64)) & 0xFFFF_FFFF_0000_0000 == x
        & 0xFFFF_FFFF_0000_0000) by (bit_vector);
    assert(((x & 0xFFFF_FFFF_0000_0000) | (op >> 32u64)) & 0xFFFF_FFFF == op >> 32u64)
        by (bit_vector);
    assert(((x & 0xFFFF_FFFF) | ((op >> 32u64) << 32u64)) & 0xFFFF_FFFF == x & 0xFFFF_FFFF)
        by (bit_vector);
    assert(((x & 0xFFFF_FFFF) | ((op >> 32u64) << 32u64)) >> 32u64 == op >> 32u64)
        by (bit_vector);
}

/// After an unsigned add, subtract, multiply, divide, increment or decrement the
/// Sign flag is clear, unless the result itself was written to `rflags`.
pub proof fn lemma_unsigned_clears_sign(ins: Instr, s: CpuState, op: u64, mem: Seq<u8>, ports: nat, input: u64)
    requires
        wf(s),
        cpu_effect(ins, s, op, mem, ports, input) is Ok,
        match ins {
            Instr::Arith(_, _, signed) => !signed && field_c(op) != RFLAGS,
            Instr::Increment(_, signed) | Instr::Decrement(_, signed) => !signed && field_a(op) != RFLAGS,
            _ => false,
        },
    ensures
        flags(cpu_effect(ins, s, op, mem, ports, input)->Ok_0) & SIGN_FLAG == 0,
{
    let t = cpu_effect(ins, s, op, mem, ports, input)->Ok_0;
    let f = flags(t);
    assert(exists|g: u64| f == g & !SIGN_FLAG);
    let g = choose|g: u64| f == g & !SIGN_FLAG;
    assert((g & !0b10_0000u64) & 0b10_0000u64 == 0) by (bit_vector);
}

/// A comparison changes no register but `rflags`.
pub proof fn lemma_compare_touches_only_flags(w: Width, signed: bool, s: CpuState, op: u64, mem: Seq<u8>, ports: nat, input: u64)
    requires
        wf(s),
        cpu_effect(Instr::Compare(w, signed), s, op, mem, ports, input) is Ok,
    ensures
        ({
            let t = cpu_effect(Instr::Compare(w, signed), s, op, mem, ports, input)->Ok_0;
            &&& t.running == s.running
            &&& t.regs.len() == s.regs.len()
            &&& forall|i: int| 0 <= i < REGISTER_COUNT && i != RFLAGS ==> t.regs[i] == s.regs[i]
        }),
{
}

/// BITT changes only the Greater flag; BITS and BITC change only their target register.
pub proof fn lemma_bit_instructions(s: CpuState, op: u64, mem: Seq<u8>, ports: nat, input: u64)
    requires
        wf(s),
    ensures
        cpu_effect(Instr::BitTest, s, op, mem, ports, input) is Ok ==> ({
            let t = cpu_effect(Instr::BitTest, s, op, mem, ports, input)->Ok_0;
            &&& t.running == s.running
            &&& t.regs.len() == s.regs.len()
            &&& forall|i: int| 0 <= i < REGISTER_COUNT && i != RFLAGS ==> t.regs[i] == s.regs[i]
            &&& flags(t) & !GREATER_FLAG == flags(s) & !GREATER_FLAG
        }),
        cpu_effect(Instr::BitSet, s, op, mem, ports, input) is Ok ==> ({
            let t = cpu_effect(Instr::BitSet, s, op, mem, ports, input)->Ok_0;
            &&& t.running == s.running
            &&& t.regs.len() == s.regs.len()
            &&& forall|i: int| 0 <= i < REGISTER_COUNT && i != slot(field_a(op)) ==> t.regs[i] == s.regs[i]
        }),
        cpu_effect(Instr::BitClear, s, op, mem, ports, input) is Ok ==> ({
            let t = cpu_effect(Instr::BitClear, s, op, mem, ports, input)->Ok_0;
            &&& t.running == s.running
            &&& t.regs.len() == s.regs.len()
            &&& forall|i: int| 0 <= i < REGISTER_COUNT && i != slot(field_a(op)) ==> t.regs[i] == s.regs[i]
        }),
{
    let f = flags(s);
    assert((f | GREATER_FLAG) & !GREATER_FLAG == f & !GREATER_FLAG) by (bit_vector);
    assert((f & !GREATER_FLAG) & !GREATER_FLAG == f & !GREATER_FLAG) by (bit_vector);
}

/// RST clears every register and leaves the CPU running.
pub proof fn lemma_reset_clears(s: CpuState, op: u64, mem: Seq<u8>, ports: nat, input: u64)
    ensures
        cpu_effect(Instr::Reset, s, op, mem, ports, input) == Ok::<CpuState, crate::cpu::CpuFault>(reset_state()),
        reset_state().running,
        reset_state().regs.len() == REGISTER_COUNT,
        forall|i: int| 0 <= i < REGISTER_COUNT ==> #[trigger] reset_state().regs[i] == 0,
{
}

/// Moving x to y and then y back to x at the same width leaves x as it was.
pub proof fn lemma_move_round_trip(w: Width, s: CpuState, op1: u64, op2: u64, mem: Seq<u8>, ports: nat, input: u64)
    requires
        wf(s),
        field_a(op2) == field_b(op1),
        field_b(op2) == field_a(op1),
        cpu_effect(Instr::Move(w), s, op1, mem, ports, input) is Ok,
        cpu_effect(Instr::Move(w), cpu_effect(Instr::Move(w), s, op1, mem, ports, input)->Ok_0, op2, mem, ports, input) is Ok,
    ensures
        ({
            let t1 = cpu_effect(Instr::Move(w), s, op1, mem, ports, input)->Ok_0;
            let t2 = cpu_effect(Instr::Move(w), t1, op2, mem, ports, input)->Ok_0;
            reg(t2, field_a(op1)) == reg(s, field_a(op1))
        }),
{
    let x = reg(s, field_a(op1));
    let y = reg(s, field_b(op1));
    let m = mask_of(w);
    assert((x & !m) | (((y & !m) | (x & m)) & m) == x) by (bit_vector);
    assert((x & !m) | (x & m) == x) by (bit_vector);
}

/// NOT applied twice at the same width gives back the low bits it started from.
pub proof fn lemma_not_twice(w: Width, s: CpuState, op1: u64, op2: u64, mem: Seq<u8>, ports: nat, input: u64)
    requires
        wf(s),
        field_a(op2) == field_b(op1),
        cpu_effect(Instr::Not(w), s, op1, mem, ports, input) is Ok,
        cpu_effect(Instr::Not(w), cpu_effect(Instr::Not(w), s, op1, mem, ports, input)->Ok_0, op2, mem, ports, input) is Ok,
    ensures
        ({
            let t1 = cpu_effect(Instr::Not(w), s, op1, mem, ports, input)->Ok_0;
            let t2 = cpu_effect(Instr::Not(w), t1, op2, mem, ports, input)->Ok_0;
            low(reg(t2, field_b(op2)), w) == low(reg(s, field_a(op1)), w)
        }),
{
    let t1 = cpu_effect(Instr::Not(w), s, op1, mem, ports, input)->Ok_0;
    let x = reg(s, field_a(op1));
    let y = reg(s, field_b(op1));
    let z = reg(t1, field_b(op2));
    let m = mask_of(w);
    let y1 = (y & !m) | ((!x & m) & m);
    assert(reg(t1, field_b(op1)) == y1);
    assert((((z & !m) | ((!y1 & m) & m)) & m) == x & m) by (bit_vector)
        requires
            y1 == (y & !m) | ((!x & m) & m),
    ;
}

/// XOR of a register with itself gives zero in the low bits of the destination and
/// sets the Zero flag, where the destination is not `rflags`.
pub proof fn lemma_xor_self(w: Width, s: CpuState, op: u64, mem: Seq<u8>, ports: nat, input: u64)
    requires
        wf(s),
        field_a(op) == field_b(op),
        field_c(op) != RFLAGS,
        cpu_effect(Instr::Logic(LogicOp::Xor, w), s, op, mem, ports, input) is Ok,
    ensures
        ({
            let t = cpu_effect(Instr::Logic(LogicOp::Xor, w), s, op, mem, ports, input)->Ok_0;
            &&& low(reg(t, field_c(op)), w) == 0
            &&& flags(t) & ZERO_FLAG != 0
        }),
{
    let x = reg(s, field_a(op));
    let d = reg(s, field_c(op));
    let f = flags(s);
    let m = mask_of(w);
    assert((x ^ x) & m == 0) by (bit_vector);
    assert(((d & !m) | (0u64 & m)) & m == 0) by (bit_vector);
    assert(((((f | 1u64) | 2u64) & !4u64) & !8u64) & 1u64 != 0) by (bit_vector);
}

/// A write that ends on the last byte of RAM succeeds; one a byte further fails.
pub proof fn lemma_write_at_end(mem: Seq<u8>, bytes: Seq<u8>)
    requires
        bytes.len() == 8,
        mem.len() >= 8,
    ensures
        written(mem, mem.len() - 8, bytes) == mem.subrange(0, mem.len() - 8) + bytes,
        written(mem, mem.len() - 7, bytes) == mem,
{
    assert(written(mem, mem.len() - 8, bytes) =~= mem.subrange(0, mem.len() - 8) + bytes);
}

/// An instruction can be fetched from the last eight bytes of RAM but not from a
/// byte further on.
pub proof fn lemma_fetch_at_end(mem: Seq<u8>)
    requires
        8 <= mem.len() <= u64::MAX,
    ensures
        fetch(mem, (mem.len() - 8) as u64) is Some,
        fetch(mem, (mem.len() - 7) as u64) is None,
{
}

} // verus!
