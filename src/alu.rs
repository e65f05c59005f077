//! Results of the arithmetic, bitwise and shift instructions at a given width.
use crate::word::{fits, fits_in, low, value_in, value_of, wrap, wrap_to, Width};
use vstd::prelude::*;

verus! {

#[derive(Clone, Copy, Debug, PartialEq, Eq, Structural)]
pub enum ArithOp {
    Add,
    Sub,
    Mul,
    Div,
}

#[derive(Clone, Copy, Debug, PartialEq, Eq, Structural)]
pub enum LogicOp {
    And,
    Or,
    Xor,
    Nor,
    Nand,
}

#[derive(Clone, Copy, Debug, PartialEq, Eq, Structural)]
pub enum ShiftOp {
    ShiftLeft,
    ShiftRight,
    RotateLeft,
    RotateRight,
}

pub open spec fn magnitude(x: int) -> int {
    if x < 0 {
        -x
    } else {
        x
    }
}

/// Division rounding toward zero.
pub open spec fn trunc_div(x: int, y: int) -> int {
    let q = magnitude(x) / magnitude(y);
    if (x < 0) != (y < 0) {
        -q
    } else {
        q
    }
}

/// The mathematical result of `x op y`, before it is fitted to a width.
pub open spec fn exact(op: ArithOp, x: int, y: int) -> int {
    match op {
        ArithOp::Add => x + y,
        ArithOp::Sub => x - y,
        ArithOp::Mul => x * y,
        ArithOp::Div => trunc_div(x, y),
    }
}

/// The low bits of the result and whether it overflowed the width; `None` for a
/// division by zero.
pub open spec fn arith_result(op: ArithOp, w: Width, signed: bool, a: u64, b: u64) -> Option<(u64, bool)> {
    let x = value_of(a, w, signed);
    let y = value_of(b, w, signed);
    if op == ArithOp::Div && y == 0 {
        None
    } else {
        let e = exact(op, x, y);
        Some((wrap(e, w), !fits(e, w, signed)))
    }
}

/// The low bits of a bitwise operation at width `w`.
pub open spec fn logic_result(op: LogicOp, a: u64, b: u64, w: Width) -> u64 {
    match op {
        LogicOp::And => low(a & b, w),
        LogicOp::Or => low(a | b, w),
        LogicOp::Xor => low(a ^ b, w),
        LogicOp::Nor => low(!(a | b), w),
        LogicOp::Nand => low(!(a & b), w),
    }
}

/// The index of the highest bit of `w`.
pub open spec fn top_bit(w: Width) -> u64 {
    match w {
        Width::Byte => 7,
        Width::Word => 15,
        Width::Dword => 31,
        Width::Qword => 63,
    }
}

/// The low bits of a shift or rotation by one place at width `w`.
pub open spec fn shift_result(op: ShiftOp, a: u64, w: Width) -> u64 {
    let v = low(a, w);
    match op {
        ShiftOp::ShiftLeft => low(v << 1u64, w),
        ShiftOp::ShiftRight => v >> 1u64,
        ShiftOp::RotateLeft => low((v << 1u64) | (v >> top_bit(w)), w),
        ShiftOp::RotateRight => (v >> 1u64) | ((v & 1) << top_bit(w)),
    }
}

proof fn lemma_product_bounds(x: int, y: int, signed: bool)
    requires
        signed ==> -0x8000_0000_0000_0000 <= x <= 0x8000_0000_0000_0000,
        signed ==> -0x8000_0000_0000_0000 <= y <= 0x8000_0000_0000_0000,
        !signed ==> 0 <= x < 0x1_0000_0000_0000_0000,
        !signed ==> 0 <= y < 0x1_0000_0000_0000_0000,
    ensures
        signed ==> -0x4000_0000_0000_0000_0000_0000_0000_0000 <= x * y
            <= 0x4000_0000_0000_0000_0000_0000_0000_0000,
        !signed ==> 0 <= x * y < 0x1_0000_0000_0000_0000_0000_0000_0000_0000,
{
    if signed {
        let h: int = 0x8000_0000_0000_0000;
        assert(-h * h <= x * y <= h * h) by (nonlinear_arith)
            requires
                -h <= x <= h,
                -h <= y <= h,
        ;
    } else {
        let m: int = 0x1_0000_0000_0000_0000;
        assert(0 <= x * y < m * m) by (nonlinear_arith)
            requires
                0 <= x < m,
                0 <= y < m,
        ;
    }
}

/// Computes an arithmetic instruction's result bits and overflow at width `w`.
pub fn arith(op: ArithOp, w: Width, signed: bool, a: u64, b: u64) -> (r: Option<(u64, bool)>)
    ensures
        r == arith_result(op, w, signed, a, b),
{
    let x = value_in(a, w, signed);
    let y = value_in(b, w, signed);
    match op {
        ArithOp::Add => {
            let e = x + y;
            Some((wrap_to(e, w), !fits_in(e, w, signed)))
        },
        ArithOp::Sub => {
            let e = x - y;
            Some((wrap_to(e, w), !fits_in(e, w, signed)))
        },
        ArithOp::Mul => {
            proof {
                lemma_product_bounds(x as int, y as int, signed);
            }
            if signed {
                let e = x * y;
                Some((wrap_to(e, w), !fits_in(e, w, signed)))
            } else {
                let p = (x as u128) * (y as u128);
                let m = w.modulus();
                Some(((p % m) as u64, p >= m))
            }
        },
        ArithOp::Div => {
            if y == 0 {
                None
            } else {
                let mx: u128 = if x < 0 {
                    (-x) as u128
                } else {
                    x as u128
                };
                let my: u128 = if y < 0 {
                    (-y) as u128
                } else {
                    y as u128
                };
                let q = mx / my;
                assert(q <= mx) by (nonlinear_arith)
                    requires
                        my >= 1,
                        q == mx / my,
                ;
                let e: i128 = if (x < 0) != (y < 0) {
                    -(q as i128)
                } else {
                    q as i128
                };
                Some((wrap_to(e, w), !fits_in(e, w, signed)))
            }
        },
    }
}

/// Computes the low bits of a bitwise instruction at width `w`.
pub fn logic(op: LogicOp, a: u64, b: u64, w: Width) -> (r: u64)
    ensures
        r == logic_result(op, a, b, w),
{
    let m = w.mask();
    match op {
        LogicOp::And => (a & b) & m,
        LogicOp::Or => (a | b) & m,
        LogicOp::Xor => (a ^ b) & m,
        LogicOp::Nor => !(a | b) & m,
        LogicOp::Nand => !(a & b) & m,
    }
}

impl Width {
    pub fn top_bit(self) -> (r: u64)
        ensures
            r == top_bit(self),
    {
        match self {
            Width::Byte => 7,
            Width::Word => 15,
            Width::Dword => 31,
            Width::Qword => 63,
        }
    }
}

/// Computes the low bits of a shift or rotation by one place at width `w`.
pub fn shift(op: ShiftOp, a: u64, w: Width) -> (r: u64)
    ensures
        r == shift_result(op, a, w),
{
    let m = w.mask();
    let v = a & m;
    let t = w.top_bit();
    match op {
        ShiftOp::ShiftLeft => (v << 1u64) & m,
        ShiftOp::ShiftRight => v >> 1u64,
        ShiftOp::RotateLeft => ((v << 1u64) | (v >> t)) & m,
        ShiftOp::RotateRight => (v >> 1u64) | ((v & 1) << t),
    }
}

} // verus!
