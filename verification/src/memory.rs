//! The flat byte store of the machine.

use vstd::prelude::*;

verus! {

/// Number of addressable bytes.
pub const MEMORY_SIZE: usize = 4096;

/// Address at which programs are loaded and start running.
pub const PROGRAM_START: usize = 512;

/// The big-endian 16-bit word stored at `address` and `address + 1` of `bytes`.
pub open spec fn word_at(bytes: Seq<u8>, address: int) -> int
    recommends
        0 <= address,
        address + 1 < bytes.len(),
{
    bytes[address] as int * 256 + bytes[address + 1] as int
}

/// `bytes` with `blob` copied over the positions `start .. start + blob.len()`.
pub open spec fn overlay(bytes: Seq<u8>, start: int, blob: Seq<u8>) -> Seq<u8>
    recommends
        0 <= start,
        start + blob.len() <= bytes.len(),
{
    Seq::new(
        bytes.len(),
        |i: int| if start <= i < start + blob.len() { blob[i - start] } else { bytes[i] },
    )
}

/// The upper-case hexadecimal digit, in ASCII, of a value below 16.
pub open spec fn hex_digit(nibble: u8) -> u8 {
    if nibble < 10 {
        (48 + nibble) as u8
    } else {
        (55 + nibble) as u8
    }
}

/// What a dump shows for the byte at `address`: its two hexadecimal digits
/// and a space, followed by a line feed after every 128th address but 0.
pub open spec fn dump_entry(address: int, byte: u8) -> Seq<u8> {
    let digits = seq![hex_digit(byte / 16), hex_digit(byte % 16), 32u8];
    if address > 0 && address % 128 == 0 {
        digits.push(10u8)
    } else {
        digits
    }
}

/// The dump of `bytes`, as ASCII text: the entries of all its bytes in
/// the order of their addresses.
pub open spec fn dump(bytes: Seq<u8>) -> Seq<u8>
    decreases bytes.len(),
{
    if bytes.len() == 0 {
        Seq::empty()
    } else {
        dump(bytes.drop_last()) + dump_entry(bytes.len() - 1, bytes.last())
    }
}

/// 4096 bytes, addressed from `0x000` to `0xFFF`.
pub struct Memory {
    pub data: [u8; 4096],
}

impl View for Memory {
    type V = Seq<u8>;

    open spec fn view(&self) -> Seq<u8> {
        self.data@
    }
}

impl Memory {
    /// A memory with every byte zero.
    pub fn new() -> (memory: Self)
        ensures
            memory@ == Seq::new(MEMORY_SIZE as nat, |i: int| 0u8),
    {
        Memory { data: [0u8; 4096] }
    }

    /// Copies a program image to the program start address.
    pub fn load_rom(&mut self, rom: &[u8])
        requires
            PROGRAM_START + rom@.len() <= MEMORY_SIZE,
        ensures
            final(self)@ == overlay(old(self)@, PROGRAM_START as int, rom@),
    {
        self.load_rom_at_location(rom, PROGRAM_START)
    }

    /// Copies `rom` into memory, its first byte going to `start_address`.
    pub fn load_rom_at_location(&mut self, rom: &[u8], start_address: usize)
        requires
            start_address + rom@.len() <= MEMORY_SIZE,
        ensures
            final(self)@ == overlay(old(self)@, start_address as int, rom@),
    {
        let mut i: usize = 0;
        while i < rom.len()
            invariant
                i <= rom@.len(),
                start_address + rom@.len() <= MEMORY_SIZE,
                self@ == overlay(old(self)@, start_address as int, rom@.take(i as int)),
            decreases rom@.len() - i,
        {
            self.data[start_address + i] = rom[i];
            i += 1;
        }
        assert(rom@.take(i as int) == rom@);
    }

    /// The byte at `address`.
    pub fn read_data(&self, address: usize) -> (byte: u8)
        requires
            address < MEMORY_SIZE,
        ensures
            byte == self@[address as int],
    {
        self.data[address]
    }

    /// Stores `data` at `address`.
    pub fn write_data(&mut self, address: usize, data: u8)
        requires
            address < MEMORY_SIZE,
        ensures
            final(self)@ == old(self)@.update(address as int, data),
    {
        self.data[address] = data;
    }

    /// The text of a hexadecimal dump of the whole memory, in ASCII, for
    /// the caller to print.
    pub fn print_mem(&self) -> (text: Vec<u8>)
        ensures
            text@ == dump(self@),
    {
        let mut text: Vec<u8> = Vec::new();
        let mut i: usize = 0;
        while i < 4096
            invariant
                i <= 4096,
                text@ == dump(self@.take(i as int)),
            decreases 4096 - i,
        {
            let byte: u8 = self.data[i];
            let high: u8 = byte / 16;
            let low: u8 = byte % 16;
            let ghost before = text@;
            text.push(if high < 10 { 48 + high } else { 55 + high });
            text.push(if low < 10 { 48 + low } else { 55 + low });
            text.push(32);
            if i > 0 && i % 128 == 0 {
                text.push(10);
            }
            proof {
                let prefix = self@.take(i + 1);
                assert(prefix.drop_last() =~= self@.take(i as int));
                assert(prefix.last() == byte);
                assert(text@ =~= before + dump_entry(i as int, byte));
            }
            i += 1;
        }
        assert(self@.take(4096) =~= self@);
        text
    }

    /// The instruction word whose high byte is at `address` and whose low
    /// byte is at `address + 1`.
    pub fn read_instruction(&self, address: usize) -> (word: u16)
        requires
            address + 1 < MEMORY_SIZE,
        ensures
            word == word_at(self@, address as int),
    {
        let high: u8 = self.data[address];
        let low: u8 = self.data[address + 1];
        let word: u16 = ((high as u16) << 8) | (low as u16);
        assert(((high as u16) << 8) | (low as u16) == high as u16 * 256 + low as u16) by (bit_vector);
        word
    }
}

} // verus!
