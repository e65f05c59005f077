//! Operand widths and the bit-level model of values held in 64-bit registers.
use vstd::arithmetic::div_mod::{lemma_fundamental_div_mod, lemma_fundamental_div_mod_converse};
use vstd::prelude::*;

verus! {

/// The width at which an instruction reads and writes a register.
#[derive(Clone, Copy, Debug, PartialEq, Eq, Structural)]
pub enum Width {
    Byte,
    Word,
    Dword,
    Qword,
}

/// The mask selecting the low bits that an operation of width `w` works on.
pub open spec fn mask_of(w: Width) -> u64 {
    match w {
        Width::Byte => 0xFF,
        Width::Word => 0xFFFF,
        Width::Dword => 0xFFFF_FFFF,
        Width::Qword => 0xFFFF_FFFF_FFFF_FFFF,
    }
}

/// Two to the power of the number of bits in `w`.
pub open spec fn modulus(w: Width) -> int {
    match w {
        Width::Byte => 0x100,
        Width::Word => 0x1_0000,
        Width::Dword => 0x1_0000_0000,
        Width::Qword => 0x1_0000_0000_0000_0000,
    }
}

/// The number of bytes in `w`.
pub open spec fn byte_count(w: Width) -> nat {
    match w {
        Width::Byte => 1,
        Width::Word => 2,
        Width::Dword => 4,
        Width::Qword => 8,
    }
}

/// The low bits of `v` at width `w`.
pub open spec fn low(v: u64, w: Width) -> u64 {
    v & mask_of(w)
}

/// `dest` with its low bits at width `w` replaced by those of `v`; the upper bits are kept.
pub open spec fn merge(dest: u64, v: u64, w: Width) -> u64 {
    (dest & !mask_of(w)) | (v & mask_of(w))
}

/// The low bits of `v` at width `w`, read as an unsigned number.
pub open spec fn unsigned_value(v: u64, w: Width) -> int {
    low(v, w) as int
}

/// The low bits of `v` at width `w`, read as a two's complement number.
pub open spec fn signed_value(v: u64, w: Width) -> int {
    let u = unsigned_value(v, w);
    if u >= modulus(w) / 2 {
        u - modulus(w)
    } else {
        u
    }
}

/// The number that the low bits of `v` stand for, signed or unsigned.
pub open spec fn value_of(v: u64, w: Width, signed: bool) -> int {
    if signed {
        signed_value(v, w)
    } else {
        unsigned_value(v, w)
    }
}

/// Whether `x` can be written at width `w` without loss.
pub open spec fn fits(x: int, w: Width, signed: bool) -> bool {
    if signed {
        -(modulus(w) / 2) <= x < modulus(w) / 2
    } else {
        0 <= x < modulus(w)
    }
}

/// The bit pattern of `x` at width `w` (two's complement, reduced modulo the width).
pub open spec fn wrap(x: int, w: Width) -> u64 {
    (x % modulus(w)) as u64
}

/// Masking keeps the value modulo the width.
pub proof fn lemma_mask_is_mod(v: u64, w: Width)
    ensures
        low(v, w) as int == v as int % modulus(w),
        0 <= unsigned_value(v, w) < modulus(w),
{
    match w {
        Width::Byte => {
            assert(v & 0xFF == v % 0x100) by (bit_vector);
        },
        Width::Word => {
            assert(v & 0xFFFF == v % 0x1_0000) by (bit_vector);
        },
        Width::Dword => {
            assert(v & 0xFFFF_FFFF == v % 0x1_0000_0000) by (bit_vector);
        },
        Width::Qword => {
            assert(v & 0xFFFF_FFFF_FFFF_FFFF == v) by (bit_vector);
        },
    }
}

/// A wrapped value lies below the modulus.
pub proof fn lemma_wrap_range(x: int, w: Width)
    ensures
        0 <= wrap(x, w) < modulus(w),
        wrap(x, w) as int == x % modulus(w),
{
    lemma_fundamental_div_mod(x, modulus(w));
}

/// The remainder of a negated number, in terms of the remainder of the number.
proof fn lemma_neg_mod(n: int, m: int)
    requires
        n >= 0,
        m > 0,
    ensures
        (-n) % m == (if n % m == 0 { 0 } else { m - n % m }),
{
    lemma_fundamental_div_mod(n, m);
    let q = n / m;
    let r = n % m;
    if r == 0 {
        assert(-n == (-q) * m + 0) by (nonlinear_arith)
            requires
                n == m * q + r,
                r == 0,
        ;
        lemma_fundamental_div_mod_converse(-n, m, -q, 0);
    } else {
        assert(-n == (-q - 1) * m + (m - r)) by (nonlinear_arith)
            requires
                n == m * q + r,
        ;
        lemma_fundamental_div_mod_converse(-n, m, -q - 1, m - r);
    }
}

impl Width {
    pub fn mask(self) -> (r: u64)
        ensures
            r == mask_of(self),
    {
        match self {
            Width::Byte => 0xFF,
            Width::Word => 0xFFFF,
            Width::Dword => 0xFFFF_FFFF,
            Width::Qword => 0xFFFF_FFFF_FFFF_FFFF,
        }
    }

    pub fn modulus(self) -> (r: u128)
        ensures
            r as int == modulus(self),
    {
        match self {
            Width::Byte => 0x100,
            Width::Word => 0x1_0000,
            Width::Dword => 0x1_0000_0000,
            Width::Qword => 0x1_0000_0000_0000_0000,
        }
    }
}

/// `dest` with its low bits at width `w` taken from `v`.
pub fn merge_low(dest: u64, v: u64, w: Width) -> (r: u64)
    ensures
        r == merge(dest, v, w),
{
    let m = w.mask();
    (dest & !m) | (v & m)
}

/// The number that the low bits of `v` stand for.
pub fn value_in(v: u64, w: Width, signed: bool) -> (r: i128)
    ensures
        r as int == value_of(v, w, signed),
        fits(r as int, w, signed),
{
    proof {
        lemma_mask_is_mod(v, w);
    }
    let u = (v & w.mask()) as i128;
    let m = w.modulus() as i128;
    if signed && u >= m / 2 {
        u - m
    } else {
        u
    }
}

/// Whether `x` can be written at width `w` without loss.
pub fn fits_in(x: i128, w: Width, signed: bool) -> (r: bool)
    ensures
        r == fits(x as int, w, signed),
{
    let m = w.modulus() as i128;
    if signed {
        -(m / 2) <= x && x < m / 2
    } else {
        0 <= x && x < m
    }
}

/// The bit pattern of `x` at width `w`.
pub fn wrap_to(x: i128, w: Width) -> (r: u64)
    requires
        x > i128::MIN,
    ensures
        r == wrap(x as int, w),
        (r as int) < modulus(w),
{
    proof {
        lemma_wrap_range(x as int, w);
    }
    let m = w.modulus();
    if x >= 0 {
        ((x as u128) % m) as u64
    } else {
        let n = (-x) as u128;
        let rem = n % m;
        proof {
            lemma_neg_mod(n as int, m as int);
        }
        if rem == 0 {
            0
        } else {
            (m - rem) as u64
        }
    }
}

/// The value of a little-endian byte sequence of at most eight bytes.
pub open spec fn le_word(s: Seq<u8>) -> u64
    decreases s.len(),
{
    if s.len() == 0 {
        0
    } else {
        (s[0] as u64) | (le_word(s.drop_first()) << 8u64)
    }
}

/// The `i`-th byte of `v`, counting from the least significant.
pub open spec fn byte_of(v: u64, i: int) -> u8 {
    ((v >> ((8 * i) as u64)) & 0xFF) as u8
}

/// The low `n` bytes of `v`, least significant first.
pub open spec fn le_bytes(v: u64, n: nat) -> Seq<u8> {
    Seq::new(n, |i: int| byte_of(v, i))
}

/// Reads a little-endian value from `b`.
pub fn from_le(b: &[u8]) -> (r: u64)
    ensures
        r == le_word(b@),
{
    let n = b.len();
    let mut acc: u64 = 0;
    let mut i: usize = n;
    assert(b@.subrange(n as int, n as int) =~= Seq::<u8>::empty());
    while i > 0
        invariant
            i <= n,
            n == b@.len(),
            acc == le_word(b@.subrange(i as int, n as int)),
        decreases i,
    {
        assert(b@.subrange(i - 1, n as int).drop_first() =~= b@.subrange(i as int, n as int));
        acc = (b[i - 1] as u64) | (acc << 8u64);
        i = i - 1;
    }
    assert(b@.subrange(0, n as int) =~= b@);
    acc
}

/// The low `n` bytes of `v`, least significant first.
pub fn to_le(v: u64, n: usize) -> (r: Vec<u8>)
    requires
        n <= 8,
    ensures
        r@ == le_bytes(v, n as nat),
{
    let mut out: Vec<u8> = Vec::new();
    let mut i: usize = 0;
    while i < n
        invariant
            i <= n <= 8,
            out@ =~= le_bytes(v, i as nat),
        decreases n - i,
    {
        out.push(((v >> ((8 * i) as u64)) & 0xFF) as u8);
        i = i + 1;
        assert(out@ =~= le_bytes(v, i as nat));
    }
    out
}

impl Width {
    pub fn bytes(self) -> (r: usize)
        ensures
            r == byte_count(self),
    {
        match self {
            Width::Byte => 1,
            Width::Word => 2,
            Width::Dword => 4,
            Width::Qword => 8,
        }
    }
}

} // verus!
