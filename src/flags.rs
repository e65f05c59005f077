//! The bits of `rflags` and how each class of instruction updates them.
use vstd::prelude::*;

verus! {

pub const ZERO_FLAG: u64 = 0b1;
pub const EQUAL_FLAG: u64 = 0b10;
pub const GREATER_FLAG: u64 = 0b100;
pub const LESS_FLAG: u64 = 0b1000;
pub const OVERFLOW_FLAG: u64 = 0b1_0000;
pub const SIGN_FLAG: u64 = 0b10_0000;
pub const NEGATIVE_FLAG: u64 = 0b100_0000;

/// Sets the bits of `set` when `cond` holds, else clears the bits of `clear`.
///
/// The two masks differ for the Greater and Less steps of a comparison, where the
/// bit cleared is not the bit that would have been set.
pub open spec fn flag_step(f: u64, cond: bool, set: u64, clear: u64) -> u64 {
    if cond {
        f | set
    } else {
        f & !clear
    }
}

/// Equal, Greater and Less from comparing `x` with `y`.
pub open spec fn compare_flags(f: u64, x: int, y: int) -> u64 {
    let f1 = flag_step(f, x == y, EQUAL_FLAG, EQUAL_FLAG);
    let f2 = flag_step(f1, x > y, GREATER_FLAG, LESS_FLAG);
    flag_step(f2, x < y, LESS_FLAG, OVERFLOW_FLAG)
}

/// The flags after an add, subtract, multiply or divide of `x` by `y`. The
/// comparison steps clear Less when `x > y` fails and Overflow when `x < y` fails.
pub open spec fn arith_flags(f: u64, overflow: bool, zero: bool, x: int, y: int, negative: bool) -> u64 {
    let f1 = flag_step(f, overflow, OVERFLOW_FLAG, OVERFLOW_FLAG);
    let f2 = flag_step(f1, zero, ZERO_FLAG, ZERO_FLAG);
    let f3 = compare_flags(f2, x, y);
    flag_step(f3, negative, SIGN_FLAG, SIGN_FLAG)
}

/// The flags after an increment, decrement or negation.
pub open spec fn unary_flags(f: u64, overflow: bool, zero: bool, negative: bool) -> u64 {
    let f1 = flag_step(f, overflow, OVERFLOW_FLAG, OVERFLOW_FLAG);
    let f2 = flag_step(f1, zero, ZERO_FLAG, ZERO_FLAG);
    flag_step(f2, negative, SIGN_FLAG, SIGN_FLAG)
}

/// The flags after a two-operand bitwise operation on `x` and `y`.
pub open spec fn logic_flags(f: u64, zero: bool, x: int, y: int) -> u64 {
    let f1 = flag_step(f, zero, ZERO_FLAG, ZERO_FLAG);
    let f2 = flag_step(f1, x == y, EQUAL_FLAG, EQUAL_FLAG);
    let f3 = flag_step(f2, x > y, GREATER_FLAG, GREATER_FLAG);
    flag_step(f3, x < y, LESS_FLAG, LESS_FLAG)
}

/// The flags after an operation that only reports a zero result.
pub open spec fn zero_flags(f: u64, zero: bool) -> u64 {
    flag_step(f, zero, ZERO_FLAG, ZERO_FLAG)
}

pub fn update_flag(f: u64, cond: bool, set: u64, clear: u64) -> (r: u64)
    ensures
        r == flag_step(f, cond, set, clear),
{
    if cond {
        f | set
    } else {
        f & !clear
    }
}

pub fn update_compare_flags(f: u64, x: i128, y: i128) -> (r: u64)
    ensures
        r == compare_flags(f, x as int, y as int),
{
    let f1 = update_flag(f, x == y, EQUAL_FLAG, EQUAL_FLAG);
    let f2 = update_flag(f1, x > y, GREATER_FLAG, LESS_FLAG);
    update_flag(f2, x < y, LESS_FLAG, OVERFLOW_FLAG)
}

pub fn update_arith_flags(f: u64, overflow: bool, zero: bool, x: i128, y: i128, negative: bool) -> (r: u64)
    ensures
        r == arith_flags(f, overflow, zero, x as int, y as int, negative),
{
    let f1 = update_flag(f, overflow, OVERFLOW_FLAG, OVERFLOW_FLAG);
    let f2 = update_flag(f1, zero, ZERO_FLAG, ZERO_FLAG);
    let f3 = update_compare_flags(f2, x, y);
    update_flag(f3, negative, SIGN_FLAG, SIGN_FLAG)
}

pub fn update_unary_flags(f: u64, overflow: bool, zero: bool, negative: bool) -> (r: u64)
    ensures
        r == unary_flags(f, overflow, zero, negative),
{
    let f1 = update_flag(f, overflow, OVERFLOW_FLAG, OVERFLOW_FLAG);
    let f2 = update_flag(f1, zero, ZERO_FLAG, ZERO_FLAG);
    update_flag(f2, negative, SIGN_FLAG, SIGN_FLAG)
}

pub fn update_logic_flags(f: u64, zero: bool, x: u64, y: u64) -> (r: u64)
    ensures
        r == logic_flags(f, zero, x as int, y as int),
{
    let f1 = update_flag(f, zero, ZERO_FLAG, ZERO_FLAG);
    let f2 = update_flag(f1, x == y, EQUAL_FLAG, EQUAL_FLAG);
    let f3 = update_flag(f2, x > y, GREATER_FLAG, GREATER_FLAG);
    update_flag(f3, x < y, LESS_FLAG, LESS_FLAG)
}

/// Bit by bit, a comparison leaves Equal as `x == y`, Greater set when `x > y` and
/// otherwise as it was, Less set when `x < y`, clear when `x == y` and otherwise as
/// it was, and Overflow clear unless `x < y`.
pub proof fn lemma_compare_flag_bits(f: u64, x: int, y: int)
    ensures
        (compare_flags(f, x, y) & EQUAL_FLAG != 0) == (x == y),
        (compare_flags(f, x, y) & GREATER_FLAG != 0) == (x > y || f & GREATER_FLAG != 0),
        (compare_flags(f, x, y) & LESS_FLAG != 0) == (x < y || (x > y && f & LESS_FLAG != 0)),
        (compare_flags(f, x, y) & OVERFLOW_FLAG != 0) == (x < y && f & OVERFLOW_FLAG != 0),
        compare_flags(f, x, y) & !0b1_1110u64 == f & !0b1_1110u64,
{
    let (e, g, l) = (x == y, x > y, x < y);
    assert(e ==> !g && !l);
    assert(g ==> !l);
    assert(compare_flags(f, x, y) == flag_step(flag_step(flag_step(f, e, 2, 2), g, 4, 8), l, 8, 16));
    let r = flag_step(flag_step(flag_step(f, e, 2, 2), g, 4, 8), l, 8, 16);
    assert({
        &&& (r & 2 != 0) == e
        &&& (r & 4 != 0) == (g || f & 4 != 0)
        &&& (r & 8 != 0) == (l || (g && f & 8 != 0))
        &&& (r & 16 != 0) == (l && f & 16 != 0)
        &&& r & !0b1_1110u64 == f & !0b1_1110u64
    }) by (bit_vector)
        requires
            r == flag_step(flag_step(flag_step(f, e, 2, 2), g, 4, 8), l, 8, 16),
            e ==> !g && !l,
            g ==> !l,
    ;
}

/// Bit by bit, the flags after an arithmetic instruction: Zero and Sign as given,
/// Overflow only when the result overflowed and `x < y`, and Equal, Greater and
/// Less as a comparison leaves them; no other bit changes.
pub proof fn lemma_arith_flag_bits(f: u64, overflow: bool, zero: bool, x: int, y: int, negative: bool)
    ensures
        ({
            let r = arith_flags(f, overflow, zero, x, y, negative);
            &&& (r & ZERO_FLAG != 0) == zero
            &&& (r & EQUAL_FLAG != 0) == (x == y)
            &&& (r & GREATER_FLAG != 0) == (x > y || f & GREATER_FLAG != 0)
            &&& (r & LESS_FLAG != 0) == (x < y || (x > y && f & LESS_FLAG != 0))
            &&& (r & OVERFLOW_FLAG != 0) == (overflow && x < y)
            &&& (r & SIGN_FLAG != 0) == negative
            &&& r & !0b11_1111u64 == f & !0b11_1111u64
        }),
{
    let (e, g, l) = (x == y, x > y, x < y);
    assert(e ==> !g && !l);
    assert(g ==> !l);
    let f2 = flag_step(flag_step(f, overflow, 16, 16), zero, 1, 1);
    let r = flag_step(flag_step(flag_step(flag_step(f2, e, 2, 2), g, 4, 8), l, 8, 16), negative, 32, 32);
    assert(arith_flags(f, overflow, zero, x, y, negative) == r);
    assert({
        &&& (r & 1 != 0) == zero
        &&& (r & 2 != 0) == e
        &&& (r & 4 != 0) == (g || f & 4 != 0)
        &&& (r & 8 != 0) == (l || (g && f & 8 != 0))
        &&& (r & 16 != 0) == (overflow && l)
        &&& (r & 32 != 0) == negative
        &&& r & !0b11_1111u64 == f & !0b11_1111u64
    }) by (bit_vector)
        requires
            f2 == flag_step(flag_step(f, overflow, 16, 16), zero, 1, 1),
            r == flag_step(flag_step(flag_step(flag_step(f2, e, 2, 2), g, 4, 8), l, 8, 16), negative, 32, 32),
            e ==> !g && !l,
            g ==> !l,
    ;
}

/// Bit by bit, the flags after a two-operand bitwise instruction: Zero as given,
/// Equal, Greater and Less from comparing `x` with `y`; no other bit changes.
pub proof fn lemma_logic_flag_bits(f: u64, zero: bool, x: int, y: int)
    ensures
        ({
            let r = logic_flags(f, zero, x, y);
            &&& (r & ZERO_FLAG != 0) == zero
            &&& (r & EQUAL_FLAG != 0) == (x == y)
            &&& (r & GREATER_FLAG != 0) == (x > y)
            &&& (r & LESS_FLAG != 0) == (x < y)
            &&& r & !0b1111u64 == f & !0b1111u64
        }),
{
    let (e, g, l) = (x == y, x > y, x < y);
    let r = flag_step(flag_step(flag_step(flag_step(f, zero, 1, 1), e, 2, 2), g, 4, 4), l, 8, 8);
    assert(logic_flags(f, zero, x, y) == r);
    assert({
        &&& (r & 1 != 0) == zero
        &&& (r & 2 != 0) == e
        &&& (r & 4 != 0) == g
        &&& (r & 8 != 0) == l
        &&& r & !0b1111u64 == f & !0b1111u64
    }) by (bit_vector)
        requires
            r == flag_step(flag_step(flag_step(flag_step(f, zero, 1, 1), e, 2, 2), g, 4, 4), l, 8, 8),
    ;
}

} // verus!
