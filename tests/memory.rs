use monarch64::memory_bus::MemoryBus48;

#[test]
fn new_bus_is_four_kib_of_zeros() {
    let mem = MemoryBus48::new();
    assert_eq!(mem.get_size(), 4096);
    assert!(mem.read_bytes(0, 4096).iter().all(|b| *b == 0));
}

#[test]
fn word_write_at_last_eight_bytes_succeeds() {
    let mut mem = MemoryBus48::new();
    let size = mem.get_size() as u64;
    mem.write_bytes(size - 8, &[1, 2, 3, 4, 5, 6, 7, 8]);
    assert_eq!(mem.read_bytes(size - 8, 8), &[1, 2, 3, 4, 5, 6, 7, 8]);
    mem.write_bytes(size - 7, &[9; 8]);
    assert_eq!(mem.read_bytes(size - 8, 8), &[1, 2, 3, 4, 5, 6, 7, 8]);
}

#[test]
fn read_beyond_ram_is_empty() {
    let mem = MemoryBus48::new();
    assert_eq!(mem.read_bytes(4096 - 7, 8).len(), 0);
    assert_eq!(mem.read_bytes(4096, 0).len(), 0);
    assert_eq!(mem.read_bytes(u64::MAX, 2).len(), 0);
    assert_eq!(mem.read_bytes(4096 - 8, 8).len(), 8);
}

#[test]
fn dump_lists_address_and_byte_in_hex() {
    let mut mem = MemoryBus48::new();
    mem.write_bytes(0x0FFE, &[0xAB, 0x0C]);
    assert_eq!(mem.dump_memory(0x0FFD, 10), "0FFD: 00\n0FFE: AB\n0FFF: 0C");
    assert_eq!(mem.dump_memory(0, 1), "0000: 00");
    assert_eq!(mem.dump_memory(4096, 3), "");
}
