//! Flat byte-addressed RAM with bounds-checked access.
use vstd::prelude::*;

verus! {

/// The number of bytes of RAM on the bus.
pub const RAM_SIZE: usize = 4096;

/// Whether `length` bytes from `address` lie within RAM of `size` bytes.
pub open spec fn in_range(address: int, length: int, size: int) -> bool {
    address + length <= size
}

/// RAM after writing `bytes` at `address`: unchanged where the bytes would not all fit.
pub open spec fn written(mem: Seq<u8>, address: int, bytes: Seq<u8>) -> Seq<u8> {
    if in_range(address, bytes.len() as int, mem.len() as int) {
        Seq::new(
            mem.len(),
            |j: int|
                if address <= j < address + bytes.len() {
                    bytes[j - address]
                } else {
                    mem[j]
                },
        )
    } else {
        mem
    }
}

/// The upper-case hexadecimal digit for `n`, below 16.
pub open spec fn hex_digit(n: u64) -> char {
    if n < 10 {
        ((n + 48) as u8) as char
    } else {
        ((n + 55) as u8) as char
    }
}

/// `v` in upper-case hexadecimal, padded with zeros to at least `width` digits.
pub open spec fn hex_padded(v: u64, width: u64) -> Seq<char>
    decreases v + width,
{
    if v < 16 && width <= 1 {
        seq![hex_digit(v)]
    } else {
        hex_padded(v / 16, if width > 0 { (width - 1) as u64 } else { 0 }).push(hex_digit(v % 16))
    }
}

/// One line of a dump: four address digits, a colon, a space and two byte digits.
pub open spec fn dump_line(address: u64, byte: u8) -> Seq<char> {
    hex_padded(address, 4) + seq![':', ' '] + hex_padded(byte as u64, 2)
}

/// The lines for the bytes of `mem` from `start` up to `end`, separated by newlines.
pub open spec fn dump_text(mem: Seq<u8>, start: int, end: int) -> Seq<char>
    decreases end - start,
{
    if end <= start {
        seq![]
    } else if end == start + 1 {
        dump_line(start as u64, mem[start])
    } else {
        dump_text(mem, start, end - 1) + seq!['\n'] + dump_line((end - 1) as u64, mem[end - 1])
    }
}

fn hex_char(n: u64) -> (r: char)
    requires
        n < 16,
    ensures
        r == hex_digit(n),
{
    if n < 10 {
        ((n + 48) as u8) as char
    } else {
        ((n + 55) as u8) as char
    }
}

fn push_hex(out: &mut Vec<char>, v: u64, width: u64)
    ensures
        final(out)@ == old(out)@ + hex_padded(v, width),
    decreases v + width,
{
    if v < 16 && width <= 1 {
        out.push(hex_char(v));
    } else {
        let ghost before = out@;
        push_hex(out, v / 16, if width > 0 { width - 1 } else { 0 });
        out.push(hex_char(v % 16));
        assert(out@ =~= before + hex_padded(v, width));
    }
}

/// Relies on `String`'s `FromIterator<char>`: the string holds the characters in order.
#[verifier::external_body]
fn collect_string(chars: &Vec<char>) -> (r: String)
    ensures
        r@ == chars@,
{
    chars.iter().collect()
}

/// RAM behind the memory bus.
pub struct MemoryBus48 {
    ram: Vec<u8>,
}

impl View for MemoryBus48 {
    type V = Seq<u8>;

    closed spec fn view(&self) -> Seq<u8> {
        self.ram@
    }
}

impl MemoryBus48 {
    /// A bus over zeroed RAM.
    pub fn new() -> (r: Self)
        ensures
            r@ == Seq::new(RAM_SIZE as nat, |i: int| 0u8),
    {
        let mut ram: Vec<u8> = Vec::new();
        let mut i: usize = 0;
        while i < RAM_SIZE
            invariant
                i <= RAM_SIZE,
                ram@ =~= Seq::new(i as nat, |j: int| 0u8),
            decreases RAM_SIZE - i,
        {
            ram.push(0);
            i = i + 1;
        }
        MemoryBus48 { ram }
    }

    /// The `length` bytes at `address`, or no bytes where they do not all lie in RAM.
    pub fn read_bytes(&self, address: u64, length: usize) -> (r: &[u8])
        ensures
            in_range(address as int, length as int, self@.len() as int) ==> r@ == self@.subrange(
                address as int,
                address + length,
            ),
            !in_range(address as int, length as int, self@.len() as int) ==> r@.len() == 0,
    {
        let size = self.ram.len();
        let s = self.ram.as_slice();
        if address <= size as u64 && length <= size - address as usize {
            let start = address as usize;
            &s[start..start + length]
        } else {
            &s[0..0]
        }
    }

    /// Copies `value` to `base_address`; does nothing where it would not all fit in RAM.
    pub fn write_bytes(&mut self, base_address: u64, value: &[u8])
        ensures
            final(self)@ == written(old(self)@, base_address as int, value@),
    {
        let size = self.ram.len();
        let length = value.len();
        if base_address <= size as u64 && length <= size - base_address as usize {
            let start = base_address as usize;
            let ghost before = self.ram@;
            let mut i: usize = 0;
            while i < length
                invariant
                    i <= length,
                    length == value@.len(),
                    start + length <= size,
                    size == before.len(),
                    self.ram@ =~= Seq::new(
                        size as nat,
                        |j: int|
                            if start <= j < start + i {
                                value@[j - start]
                            } else {
                                before[j]
                            },
                    ),
                decreases length - i,
            {
                self.ram.set(start + i, value[i]);
                i = i + 1;
            }
            assert(self.ram@ =~= written(before, base_address as int, value@));
        }
    }

    /// One line per byte from `start`, for at most `length` bytes and no further than
    /// the end of RAM, each giving its address and value in hexadecimal.
    pub fn dump_memory(&self, start: u64, length: usize) -> (r: String)
        requires
            start <= self@.len(),
        ensures
            r@ == dump_text(self@, start as int, vstd::math::min(start + length, self@.len() as int)),
    {
        let size = self.ram.len();
        let first = start as usize;
        let end = if length <= size - first {
            first + length
        } else {
            size
        };
        let mut out: Vec<char> = Vec::new();
        let mut i: usize = first;
        while i < end
            invariant
                first <= i <= end <= size,
                size == self@.len(),
                out@ == dump_text(self@, first as int, i as int),
            decreases end - i,
        {
            let ghost before = out@;
            if i > first {
                out.push('\n');
            }
            push_hex(&mut out, i as u64, 4);
            out.push(':');
            out.push(' ');
            push_hex(&mut out, self.ram[i] as u64, 2);
            assert(out@ =~= dump_text(self@, first as int, i + 1));
            i = i + 1;
        }
        collect_string(&out)
    }

    /// The number of bytes of RAM.
    pub fn get_size(&self) -> (r: usize)
        ensures
            r == self@.len(),
    {
        self.ram.len()
    }
}

} // verus!
