use chip8::memory::{Memory, MEMORY_SIZE, PROGRAM_START};

#[test]
fn new_memory_is_zeroed() {
    let memory = Memory::new();
    for address in 0..MEMORY_SIZE {
        assert_eq!(memory.read_data(address), 0);
    }
}

#[test]
fn write_then_read_gives_the_byte_back() {
    let mut memory = Memory::new();
    memory.write_data(0, 0x12);
    memory.write_data(0xFFF, 0xAB);
    assert_eq!(memory.read_data(0), 0x12);
    assert_eq!(memory.read_data(0xFFF), 0xAB);
    assert_eq!(memory.read_data(1), 0);
    assert_eq!(memory.read_data(0xFFE), 0);
}

#[test]
fn write_overwrites_only_its_address() {
    let mut memory = Memory::new();
    memory.write_data(100, 1);
    memory.write_data(101, 2);
    memory.write_data(100, 3);
    assert_eq!(memory.read_data(99), 0);
    assert_eq!(memory.read_data(100), 3);
    assert_eq!(memory.read_data(101), 2);
    assert_eq!(memory.read_data(102), 0);
}

#[test]
fn load_rom_starts_at_0x200() {
    let mut memory = Memory::new();
    memory.load_rom(&[0x60, 0x05, 0x70, 0x03]);
    assert_eq!(PROGRAM_START, 0x200);
    assert_eq!(memory.read_data(0x1FF), 0);
    assert_eq!(memory.read_data(0x200), 0x60);
    assert_eq!(memory.read_data(0x201), 0x05);
    assert_eq!(memory.read_data(0x202), 0x70);
    assert_eq!(memory.read_data(0x203), 0x03);
    assert_eq!(memory.read_data(0x204), 0);
}

#[test]
fn load_rom_at_location_zero_holds_font_data() {
    let mut memory = Memory::new();
    let font: Vec<u8> = (0..80u8).map(|i| i.wrapping_mul(3).wrapping_add(1)).collect();
    memory.load_rom_at_location(&font, 0);
    for (i, byte) in font.iter().enumerate() {
        assert_eq!(memory.read_data(i), *byte);
    }
    assert_eq!(memory.read_data(80), 0);
}

#[test]
fn load_leaves_the_rest_untouched() {
    let mut memory = Memory::new();
    memory.write_data(0x2FF, 0x77);
    memory.write_data(0x303, 0x88);
    memory.load_rom_at_location(&[1, 2, 3], 0x300);
    assert_eq!(memory.read_data(0x2FF), 0x77);
    assert_eq!(memory.read_data(0x300), 1);
    assert_eq!(memory.read_data(0x301), 2);
    assert_eq!(memory.read_data(0x302), 3);
    assert_eq!(memory.read_data(0x303), 0x88);
}

#[test]
fn load_may_end_on_the_last_byte() {
    let mut memory = Memory::new();
    let rom = vec![0xEE; MEMORY_SIZE - PROGRAM_START];
    memory.load_rom(&rom);
    assert_eq!(memory.read_data(0xFFF), 0xEE);
    assert_eq!(memory.read_data(0x200), 0xEE);
    assert_eq!(memory.read_data(0x1FF), 0);
}

#[test]
fn load_of_nothing_changes_nothing() {
    let mut memory = Memory::new();
    memory.write_data(0x200, 9);
    memory.load_rom(&[]);
    memory.load_rom_at_location(&[], MEMORY_SIZE);
    assert_eq!(memory.read_data(0x200), 9);
}

#[test]
fn read_instruction_is_big_endian() {
    let mut memory = Memory::new();
    memory.write_data(0x200, 0x12);
    memory.write_data(0x201, 0x34);
    assert_eq!(memory.read_instruction(0x200), 0x1234);
    assert_eq!(memory.read_instruction(0x201), 0x3400);
    assert_eq!(memory.read_instruction(0x1FF), 0x0012);
}

#[test]
fn read_instruction_at_the_last_word() {
    let mut memory = Memory::new();
    memory.write_data(0xFFE, 0xFF);
    memory.write_data(0xFFF, 0x01);
    assert_eq!(memory.read_instruction(0xFFE), 0xFF01);
}

#[test]
fn dump_shows_two_hex_digits_and_a_space_per_byte() {
    let mut memory = Memory::new();
    memory.write_data(0, 0x0A);
    memory.write_data(1, 0xF9);
    memory.write_data(2, 0x5C);
    let text = memory.print_mem();
    assert_eq!(&text[..12], b"0A F9 5C 00 ");
    assert!(text.is_ascii());
}

#[test]
fn dump_breaks_the_line_after_every_128th_address_but_zero() {
    let mut memory = Memory::new();
    memory.write_data(128, 0xBE);
    memory.write_data(129, 0xEF);
    let text = memory.print_mem();
    // 4096 entries of three characters, and a line feed after the
    // addresses 128, 256, ..., 3968.
    assert_eq!(text.len(), 4096 * 3 + 31);
    assert_eq!(text.iter().filter(|c| **c == b'\n').count(), 31);
    assert_eq!(&text[128 * 3..128 * 3 + 7], b"BE \nEF ");
    assert_eq!(text[2], b' ');
    assert_eq!(text[3], b'0');
    let lines: Vec<&[u8]> = text.split(|c| *c == b'\n').collect();
    assert_eq!(lines.len(), 32);
    assert_eq!(lines[0].len(), 129 * 3);
    assert_eq!(lines[1].len(), 128 * 3);
    assert_eq!(lines[31].len(), 127 * 3);
}
