use monarch64::alu::{arith, ArithOp};
use monarch64::cpu::{CpuFault, MonadCPU, RFLAGS, RIP};
use monarch64::flags::{
    EQUAL_FLAG, GREATER_FLAG, LESS_FLAG, OVERFLOW_FLAG, SIGN_FLAG, ZERO_FLAG,
};
use monarch64::io_bus::{IoBus, IoHandler};
use monarch64::isa::{decode_opcode, Instr};
use monarch64::memory_bus::MemoryBus48;
use monarch64::word::Width;
use std::cell::Cell;

struct Device {
    last_write: Cell<u64>,
}

impl IoHandler for Device {
    fn read_u8(&self, port: u16) -> u8 {
        0xA0 | port as u8
    }
    fn read_u16(&self, port: u16) -> u16 {
        0xBEE0 | port
    }
    fn read_u32(&self, _port: u16) -> u32 {
        0xDEAD_BEEF
    }
    fn read_u64(&self, _port: u16) -> u64 {
        0x0123_4567_89AB_CDEF
    }
    fn write_u8(&self, _port: u16, value: u8) {
        self.last_write.set(value as u64);
    }
    fn write_u16(&self, _port: u16, value: u16) {
        self.last_write.set(value as u64);
    }
    fn write_u32(&self, _port: u16, value: u32) {
        self.last_write.set(value as u64);
    }
    fn write_u64(&self, _port: u16, value: u64) {
        self.last_write.set(value);
    }
}

fn word(opcode: u16, a: u16, b: u16, c: u16) -> u64 {
    opcode as u64 | (a as u64) << 16 | (b as u64) << 32 | (c as u64) << 48
}

fn imm_word(opcode: u16, a: u16, imm: u32) -> u64 {
    opcode as u64 | (a as u64) << 16 | (imm as u64) << 32
}

struct Machine {
    cpu: MonadCPU,
    mem: MemoryBus48,
    io: IoBus<Device>,
}

impl Machine {
    fn new() -> Machine {
        let mut io = IoBus::new();
        io.add_handler(Device { last_write: Cell::new(0) });
        io.add_handler(Device { last_write: Cell::new(0) });
        Machine { cpu: MonadCPU::new(), mem: MemoryBus48::new(), io }
    }

    fn set(&mut self, code: u16, value: u64) {
        self.cpu.set_register_value_from_code(code, value).unwrap();
    }

    fn get(&self, code: u16) -> u64 {
        self.cpu.get_register_value_from_code(code).unwrap()
    }

    fn run(&mut self, instruction: u64) -> Result<(), CpuFault> {
        let rip = self.cpu.rip();
        self.mem.write_bytes(rip, &instruction.to_le_bytes());
        self.cpu.execute_cycle(&mut self.mem, &mut self.io)
    }
}

#[test]
fn cbw_zero_extends_byte_into_word() {
    let mut m = Machine::new();
    m.set(0, 0xFFFF_FFFF_FFFF_FFFF);
    m.set(1, 0x0000_0000_0000_00A5);
    m.run(word(0x000B, 1, 0, 0)).unwrap();
    assert_eq!(m.get(0), 0xFFFF_FFFF_FFFF_00A5);
}

#[test]
fn cbws_sign_extends_byte_into_word() {
    let mut m = Machine::new();
    m.set(0, 0xFFFF_FFFF_FFFF_FFFF);
    m.set(1, 0x0000_0000_0000_00A5);
    m.run(word(0x000C, 1, 0, 0)).unwrap();
    assert_eq!(m.get(0), 0xFFFF_FFFF_FFFF_FFA5);
}

#[test]
fn cwd_and_cwds_widen_into_double_word() {
    let mut m = Machine::new();
    m.set(0, 0xFFFF_FFFF_FFFF_FFFF);
    m.set(1, 0x8001);
    m.run(word(0x000D, 1, 0, 0)).unwrap();
    assert_eq!(m.get(0), 0xFFFF_FFFF_0000_8001);
    m.set(2, 0);
    m.run(word(0x000E, 1, 2, 0)).unwrap();
    assert_eq!(m.get(2), 0x0000_0000_FFFF_8001);
}

#[test]
fn cdq_keeps_only_sixteen_bits_and_cdqs_sign_extends() {
    let mut m = Machine::new();
    m.set(0, 0xFFFF_FFFF_FFFF_FFFF);
    m.set(1, 0x1234_8765_4321);
    m.run(word(0x000F, 1, 0, 0)).unwrap();
    assert_eq!(m.get(0), 0x4321);
    m.set(1, 0x8000_0001);
    m.run(word(0x0010, 1, 0, 0)).unwrap();
    assert_eq!(m.get(0), 0xFFFF_FFFF_8000_0001);
}

#[test]
fn lli_then_lui_builds_imm0() {
    let mut m = Machine::new();
    m.run(imm_word(0x0009, 0xF000, 0xCAFE_BABE)).unwrap();
    m.run(imm_word(0x000A, 0xF000, 0xDEAD_BEEF)).unwrap();
    assert_eq!(m.get(0xF000), 0xDEAD_BEEF_CAFE_BABE);
}

#[test]
fn lli_and_lui_keep_the_other_half() {
    let mut m = Machine::new();
    m.set(0xF003, 0x1111_2222_3333_4444);
    m.run(imm_word(0x0009, 0xF003, 0xAAAA_BBBB)).unwrap();
    assert_eq!(m.get(0xF003), 0x1111_2222_AAAA_BBBB);
    m.run(imm_word(0x000A, 0xF003, 0xCCCC_DDDD)).unwrap();
    assert_eq!(m.get(0xF003), 0xCCCC_DDDD_AAAA_BBBB);
}

#[test]
fn lli_into_general_register_faults() {
    let mut m = Machine::new();
    assert_eq!(
        m.run(imm_word(0x0009, 0x0003, 1)),
        Err(CpuFault::NotImmediateRegister(3))
    );
}

#[test]
fn addb_unsigned_wraps_and_sets_flags() {
    let mut m = Machine::new();
    m.set(0, 0xFF);
    m.set(1, 0x02);
    m.set(2, 0x7777_7777_7777_7777);
    m.set(RFLAGS, SIGN_FLAG | ZERO_FLAG);
    m.run(word(0x0100, 0, 1, 2)).unwrap();
    assert_eq!(m.get(2) & 0xFF, 0x01);
    let f = m.get(RFLAGS);
    assert_eq!(f & SIGN_FLAG, 0);
    assert_eq!(f & ZERO_FLAG, 0);
    assert_ne!(f & GREATER_FLAG, 0);
    // Operand A is not below B, so the Less step clears bit 4 after the carry set it.
    assert_eq!(f & OVERFLOW_FLAG, 0);
}

#[test]
fn addb_carry_stays_when_first_operand_is_smaller() {
    let mut m = Machine::new();
    m.set(0, 0x02);
    m.set(1, 0xFF);
    m.run(word(0x0100, 0, 1, 2)).unwrap();
    assert_eq!(m.get(2), 0x01);
    let f = m.get(RFLAGS);
    assert_ne!(f & OVERFLOW_FLAG, 0);
    assert_ne!(f & LESS_FLAG, 0);
}

#[test]
fn addb_keeps_upper_bits_of_destination() {
    let mut m = Machine::new();
    m.set(0, 0x10);
    m.set(1, 0x20);
    m.set(2, 0xAABB_CCDD_EEFF_0011);
    m.run(word(0x0100, 0, 1, 2)).unwrap();
    assert_eq!(m.get(2), 0xAABB_CCDD_EEFF_0030);
}

#[test]
fn subbs_negative_result_sets_sign() {
    let mut m = Machine::new();
    m.set(0, 1);
    m.set(1, 2);
    m.run(word(0x010C, 0, 1, 2)).unwrap();
    assert_eq!(m.get(2) & 0xFF, 0xFF);
    let f = m.get(RFLAGS);
    assert_ne!(f & SIGN_FLAG, 0);
    assert_eq!(f & OVERFLOW_FLAG, 0);
}

#[test]
fn signed_results_keep_upper_bits() {
    let mut m = Machine::new();
    m.set(0, 1);
    m.set(1, 2);
    m.set(2, 0x1234_0000_0000_0000);
    m.run(word(0x010C, 0, 1, 2)).unwrap();
    assert_eq!(m.get(2), 0x1234_0000_0000_00FF);
}

#[test]
fn mulws_overflow_and_divbs_minimum_by_minus_one() {
    let mut m = Machine::new();
    m.set(0, 0x0100);
    m.set(1, 0x0100);
    m.run(word(0x0115, 1, 0, 2)).unwrap();
    assert_eq!(m.get(2), 0);
    let f = m.get(RFLAGS);
    assert_ne!(f & ZERO_FLAG, 0);
    m.set(3, 0x80);
    m.set(4, 0xFF);
    m.run(word(0x011C, 3, 4, 5)).unwrap();
    assert_eq!(m.get(5), 0x80);
    let f = m.get(RFLAGS);
    assert_ne!(f & SIGN_FLAG, 0);
}

#[test]
fn mulq_unsigned_full_width_product_wraps() {
    assert_eq!(
        arith(ArithOp::Mul, Width::Qword, false, u64::MAX, u64::MAX),
        Some((1, true))
    );
    assert_eq!(arith(ArithOp::Mul, Width::Qword, true, u64::MAX, u64::MAX), Some((1, false)));
}

#[test]
fn divds_truncates_toward_zero() {
    assert_eq!(
        arith(ArithOp::Div, Width::Dword, true, (-7i32) as u32 as u64, 2),
        Some(((-3i32) as u32 as u64, false))
    );
    assert_eq!(arith(ArithOp::Div, Width::Byte, false, 200, 7), Some((28, false)));
}

#[test]
fn division_by_zero_faults_and_changes_nothing_else() {
    let mut m = Machine::new();
    m.set(0, 5);
    m.set(2, 9);
    assert_eq!(m.run(word(0x0118, 0, 1, 2)), Err(CpuFault::DivideByZero));
    assert_eq!(m.get(2), 9);
    assert_eq!(m.get(RIP), 8);
}

#[test]
fn incb_wraps_with_overflow_and_zero() {
    let mut m = Machine::new();
    m.set(0, 0x12FF);
    m.run(word(0x0120, 0, 0, 0)).unwrap();
    assert_eq!(m.get(0), 0x1200);
    let f = m.get(RFLAGS);
    assert_ne!(f & OVERFLOW_FLAG, 0);
    assert_ne!(f & ZERO_FLAG, 0);
}

#[test]
fn decbs_of_zero_is_negative_without_overflow() {
    let mut m = Machine::new();
    m.run(word(0x012C, 0, 0, 0)).unwrap();
    assert_eq!(m.get(0), 0xFF);
    let f = m.get(RFLAGS);
    assert_ne!(f & SIGN_FLAG, 0);
    assert_eq!(f & OVERFLOW_FLAG, 0);
}

#[test]
fn negw_negates_low_word() {
    let mut m = Machine::new();
    m.set(0, 0xAAAA_0000_0000_0005);
    m.run(word(0x0131, 0, 0, 0)).unwrap();
    assert_eq!(m.get(0), 0xAAAA_0000_0000_FFFB);
    assert_ne!(m.get(RFLAGS) & SIGN_FLAG, 0);
}

#[test]
fn cmp_changes_only_flags() {
    let mut m = Machine::new();
    for code in 0..16u16 {
        m.set(code, 100 + code as u64);
    }
    m.run(word(0x0137, 3, 3, 5)).unwrap();
    for code in 0..16u16 {
        assert_eq!(m.get(code), 100 + code as u64);
    }
    assert_ne!(m.get(RFLAGS) & EQUAL_FLAG, 0);
}

#[test]
fn cmpbs_compares_signed() {
    let mut m = Machine::new();
    m.set(0, 0xFF);
    m.set(1, 0x01);
    m.run(word(0x0138, 0, 1, 0)).unwrap();
    let f = m.get(RFLAGS);
    assert_ne!(f & LESS_FLAG, 0);
    assert_eq!(f & GREATER_FLAG, 0);
}

#[test]
fn xor_of_register_with_itself_is_zero() {
    let mut m = Machine::new();
    m.set(4, 0x1234_5678_9ABC_DEF0);
    m.set(5, 0xFFFF_FFFF_FFFF_FFFF);
    m.run(word(0x0145, 4, 4, 5)).unwrap();
    assert_eq!(m.get(5), 0xFFFF_FFFF_FFFF_0000);
    assert_ne!(m.get(RFLAGS) & ZERO_FLAG, 0);
}

#[test]
fn nor_and_nand_bytes() {
    let mut m = Machine::new();
    m.set(0, 0b1100_1010);
    m.set(1, 0b1010_0110);
    m.run(word(0x014C, 0, 1, 2)).unwrap();
    assert_eq!(m.get(2), 0b0001_0001);
    m.run(word(0x0150, 0, 1, 3)).unwrap();
    assert_eq!(m.get(3), 0b0111_1101);
}

#[test]
fn not_twice_restores_low_bits() {
    let mut m = Machine::new();
    m.set(0, 0x1122_3344_5566_7788);
    m.run(word(0x0149, 0, 1, 0)).unwrap();
    assert_eq!(m.get(1), 0x8877);
    m.run(word(0x0149, 1, 2, 0)).unwrap();
    assert_eq!(m.get(2) & 0xFFFF, 0x7788);
}

#[test]
fn notq_writes_operand_b() {
    let mut m = Machine::new();
    m.set(0, 0x0F0F);
    m.set(6, 1);
    m.run(word(0x014B, 0, 6, 0)).unwrap();
    assert_eq!(m.get(6), !0x0F0Fu64);
    assert_eq!(m.get(0), 0x0F0F);
}

#[test]
fn mov_there_and_back_restores_source() {
    let mut m = Machine::new();
    m.set(0, 0x0102_0304_0506_0708);
    m.set(1, 0xF0F0_F0F0_F0F0_F0F0);
    m.run(word(0x0012, 0, 1, 0)).unwrap();
    assert_eq!(m.get(1), 0xF0F0_F0F0_F0F0_0708);
    m.run(word(0x0012, 1, 0, 0)).unwrap();
    assert_eq!(m.get(0), 0x0102_0304_0506_0708);
}

#[test]
fn shifts_and_rotates_by_one() {
    let mut m = Machine::new();
    m.set(0, 0x81);
    m.run(word(0x0154, 0, 1, 0)).unwrap();
    assert_eq!(m.get(1), 0x02);
    m.run(word(0x0158, 0, 2, 0)).unwrap();
    assert_eq!(m.get(2), 0x40);
    m.run(word(0x015C, 0, 3, 0)).unwrap();
    assert_eq!(m.get(3), 0x03);
    m.run(word(0x0160, 0, 4, 0)).unwrap();
    assert_eq!(m.get(4), 0xC0);
    m.set(5, 0x80);
    m.run(word(0x0154, 5, 6, 0)).unwrap();
    assert_eq!(m.get(6), 0);
    assert_ne!(m.get(RFLAGS) & ZERO_FLAG, 0);
}

#[test]
fn bit_test_set_and_clear() {
    let mut m = Machine::new();
    m.set(0, 0b1000);
    m.set(1, 3 + 64);
    m.set(RFLAGS, EQUAL_FLAG);
    m.run(word(0x0200, 0, 1, 0)).unwrap();
    assert_eq!(m.get(RFLAGS), EQUAL_FLAG | GREATER_FLAG);
    assert_eq!(m.get(0), 0b1000);
    m.set(1, 5);
    m.run(word(0x0201, 0, 1, 0)).unwrap();
    assert_eq!(m.get(0), 0b10_1000);
    m.set(1, 3);
    m.run(word(0x0202, 0, 1, 0)).unwrap();
    assert_eq!(m.get(0), 0b10_0000);
    assert_eq!(m.get(RFLAGS), EQUAL_FLAG | GREATER_FLAG);
}

#[test]
fn jmp_via_register_moves_next_fetch() {
    let mut m = Machine::new();
    m.set(0, 0x40);
    m.run(word(0x0300, 0, 0, 0)).unwrap();
    assert_eq!(m.cpu.rip(), 0x40);
    m.mem.write_bytes(0x40, &word(0x030D, 0, 0, 0).to_le_bytes());
    m.cpu.execute_cycle(&mut m.mem, &mut m.io).unwrap();
    assert!(!m.cpu.is_running());
    assert_eq!(m.cpu.rip(), 0x48);
}

#[test]
fn conditional_jumps_follow_their_flag_bits() {
    let mut m = Machine::new();
    m.set(0, 0x80);
    m.set(RFLAGS, ZERO_FLAG);
    m.run(word(0x0304, 0, 0, 0)).unwrap();
    assert_eq!(m.cpu.rip(), 0x80);
    m.set(RFLAGS, 0);
    m.run(word(0x0301, 0, 0, 0)).unwrap();
    assert_eq!(m.cpu.rip(), 0x88);
    m.set(RFLAGS, OVERFLOW_FLAG);
    m.run(word(0x0307, 0, 0, 0)).unwrap();
    assert_eq!(m.cpu.rip(), 0x80);
}

#[test]
fn nop_advances_rip_by_eight() {
    let mut m = Machine::new();
    m.run(0).unwrap();
    assert_eq!(m.cpu.rip(), 8);
    m.run(0).unwrap();
    assert_eq!(m.cpu.rip(), 16);
}

#[test]
fn reset_clears_every_register_and_runs() {
    let mut m = Machine::new();
    for code in 0..0x17u16 {
        m.set(code, 0x55);
    }
    for code in 0xF000..0xF008u16 {
        m.set(code, 0x66);
    }
    m.set(RIP, 0x100);
    m.run(word(0x030E, 0, 0, 0)).unwrap();
    for code in (0..0x17u16).chain(0xF000..0xF008u16) {
        assert_eq!(m.get(code), 0);
    }
    assert!(m.cpu.is_running());
}

#[test]
fn unknown_opcode_and_bad_register_fault() {
    let mut m = Machine::new();
    assert_eq!(m.run(word(0x0500, 0, 0, 0)), Err(CpuFault::UnknownOpcode(0x0500)));
    assert_eq!(m.run(word(0x0011, 0x0017, 0, 0)), Err(CpuFault::InvalidRegister(0x0017)));
    assert_eq!(m.run(word(0x030C, 0, 0, 0)), Err(CpuFault::Unimplemented(0x030C)));
    assert_eq!(m.run(word(0x0FFF, 0, 0, 0)), Err(CpuFault::Unimplemented(0x0FFF)));
    assert_eq!(m.cpu.get_register_value_from_code(0xF008), Err(CpuFault::InvalidRegister(0xF008)));
}

#[test]
fn store_and_load_little_endian() {
    let mut m = Machine::new();
    m.set(0, 0x1122_3344_5566_7788);
    m.set(1, 0x200);
    m.run(word(0x0003, 0, 1, 0)).unwrap();
    assert_eq!(m.mem.read_bytes(0x200, 5), &[0x88, 0x77, 0x66, 0x55, 0x00]);
    m.set(2, 0xFFFF_FFFF_FFFF_FFFF);
    m.run(word(0x0006, 1, 2, 0)).unwrap();
    assert_eq!(m.get(2), 0xFFFF_FFFF_FFFF_7788);
    m.run(word(0x0008, 1, 3, 0)).unwrap();
    assert_eq!(m.get(3), 0x5566_7788);
}

#[test]
fn memory_access_beyond_ram_is_dropped() {
    let mut m = Machine::new();
    m.set(0, 0xABCD);
    m.set(1, 4096 - 7);
    m.run(word(0x0004, 0, 1, 0)).unwrap();
    assert_eq!(m.mem.read_bytes(4096 - 7, 7), &[0u8; 7]);
    m.set(2, 0x99);
    m.run(word(0x0008, 1, 2, 0)).unwrap();
    assert_eq!(m.get(2), 0x99);
    m.set(1, 4096 - 8);
    m.run(word(0x0004, 0, 1, 0)).unwrap();
    assert_eq!(m.mem.read_bytes(4096 - 8, 2), &[0xCD, 0xAB]);
}

#[test]
fn fetch_at_end_of_ram() {
    let mut m = Machine::new();
    m.set(RIP, 4096 - 8);
    m.run(0).unwrap();
    assert_eq!(m.cpu.rip(), 4096);
    m.set(RIP, 4096 - 7);
    assert_eq!(
        m.cpu.execute_cycle(&mut m.mem, &mut m.io),
        Err(CpuFault::FetchOutOfRange(4096 - 7))
    );
    assert_eq!(m.cpu.rip(), 4096 - 7);
}

#[test]
fn port_input_and_output() {
    let mut m = Machine::new();
    m.set(0, 0x1_0001);
    m.set(1, 0xFFFF_FFFF_FFFF_FFFF);
    m.run(word(0x0400, 0, 1, 0)).unwrap();
    assert_eq!(m.get(1), 0xFFFF_FFFF_FFFF_FFA1);
    m.run(word(0x0402, 0, 1, 0)).unwrap();
    assert_eq!(m.get(1), 0xFFFF_FFFF_DEAD_BEEF);
    m.set(2, 0x1234_5678);
    m.run(word(0x0405, 0, 2, 0)).unwrap();
    assert_eq!(m.io.io_handlers[1].last_write.get(), 0x5678);
    m.set(0, 7);
    assert_eq!(m.run(word(0x0403, 0, 1, 0)), Err(CpuFault::InvalidPort(7)));
}

#[test]
fn opcode_table_entries() {
    assert_eq!(decode_opcode(0x0107), Some(Instr::Arith(ArithOp::Add, Width::Qword, true)));
    assert_eq!(decode_opcode(0x0305), Some(Instr::Jump(monarch64::isa::Condition::Greater)));
    assert_eq!(decode_opcode(0x0154), Some(Instr::Shift(monarch64::alu::ShiftOp::ShiftLeft, Width::Byte)));
    assert_eq!(decode_opcode(0x0164), None);
}

#[test]
fn bitwise_ops_set_less_from_operands_and_leave_overflow() {
    let mut m = Machine::new();
    m.set(0, 0x0F);
    m.set(1, 0x0F);
    m.set(RFLAGS, LESS_FLAG | OVERFLOW_FLAG);
    m.run(word(0x013C, 0, 1, 2)).unwrap();
    let f = m.get(RFLAGS);
    assert_eq!(f & LESS_FLAG, 0);
    assert_ne!(f & OVERFLOW_FLAG, 0);
    assert_ne!(f & EQUAL_FLAG, 0);
    m.set(1, 0x10);
    m.run(word(0x0140, 0, 1, 2)).unwrap();
    let f = m.get(RFLAGS);
    assert_ne!(f & LESS_FLAG, 0);
    assert_eq!(f & GREATER_FLAG, 0);
    assert_eq!(m.get(2), 0x1F);
}
