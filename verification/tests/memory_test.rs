//! The word-organized little-endian memory block.

use arm7tdmi::bus::TransferSize;
use arm7tdmi::memory::Memory;

#[test]
fn test_memory() {
    let mut memory = Memory::new(0, 0x100000, false, String::from("test memory"));

    assert_eq!(memory.read(0, TransferSize::WORD), 0);
    memory.write(0, 0xaabbccdd, TransferSize::WORD);
    assert_eq!(memory.read(0, TransferSize::WORD), 0xaabbccdd);
    memory.write(0, 0x12341234, TransferSize::HALFWORD);
    assert_eq!(memory.read(0, TransferSize::WORD), 0xaabb1234);
    memory.write(0, 0, TransferSize::BYTE);
    assert_eq!(memory.read(0, TransferSize::WORD), 0xaabb1200);
    memory.write(6, 0x45674567, TransferSize::HALFWORD);
    assert_eq!(memory.read(4, TransferSize::WORD), 0x45670000);
    assert_eq!(memory.read(5, TransferSize::WORD), 0x45670000);
    assert_eq!(memory.read(6, TransferSize::WORD), 0x45670000);
    assert_eq!(memory.read(7, TransferSize::WORD), 0x45670000);
    memory.write(5, 0x12121212, TransferSize::BYTE);
    assert_eq!(memory.read(4, TransferSize::WORD), 0x45671200);
    assert_eq!(memory.read_byte(4), 0x00);
    assert_eq!(memory.read_byte(5), 0x12);
    assert_eq!(memory.read_byte(6), 0x67);
    assert_eq!(memory.read_byte(7), 0x45);
    assert_eq!(memory.read_halfword(4), 0x1200);
    assert_eq!(memory.read_halfword(6), 0x4567);
    assert_eq!(memory.read_word(6), 0x45671200);
}

#[test]
fn test_memory_read_only() {
    let mut rom = Memory::new(0x100, 0x100, true, String::from("rom"));
    rom.write(0x100, 0x11223344, TransferSize::WORD);
    assert_eq!(rom.read_word(0x100), 0);
}

#[test]
fn test_memory_load_bytes() {
    let mut ram = Memory::new(0, 0x10, false, String::from("ram"));
    ram.write(8, 0x55555555, TransferSize::WORD);
    let image: Vec<u8> = vec![0xdd, 0xcc, 0xbb, 0xaa, 0x44, 0x33, 0x22];
    ram.load_bytes(&image);
    // whole words assemble little-endian; the trailing partial word and
    // everything beyond the image keep their previous contents
    assert_eq!(ram.read_word(0), 0xaabbccdd);
    assert_eq!(ram.read_word(4), 0);
    assert_eq!(ram.read_word(8), 0x55555555);
}
