//! Instruction words and what they stand for.
//!
//! A word has four nibbles; from the most significant down they are the
//! group, `X`, `Y` and `N`. `NN` is the low byte and `NNN` the low twelve
//! bits.

use vstd::prelude::*;

verus! {

/// One decoded instruction. `x` and `y` are register indices, below 16.
#[derive(Clone, Copy, Debug, PartialEq, Eq, Structural)]
pub enum Instruction {
    /// `00E0`: turn every cell of the display off.
    ClearScreen,
    /// `00EE`: return from a subroutine.
    Return,
    /// `1NNN` and `BNNN`: continue at `target`.
    Jump { target: u16 },
    /// `2NNN`: call the subroutine at `target`.
    Call { target: u16 },
    /// `3XNN`: skip the next instruction if register `x` holds `value`.
    SkipIfEqual { x: u8, value: u8 },
    /// `4XNN`: skip the next instruction unless register `x` holds `value`.
    SkipIfNotEqual { x: u8, value: u8 },
    /// `5XY0`: skip the next instruction if registers `x` and `y` are equal.
    SkipIfSame { x: u8, y: u8 },
    /// `6XNN`: put `value` into register `x`.
    Load { x: u8, value: u8 },
    /// `7XNN`: add `value` to register `x`, without carry.
    Add { x: u8, value: u8 },
    /// `8XY0`: copy register `y` to register `x`.
    Move { x: u8, y: u8 },
    /// `8XY1`: bitwise or of register `y` into register `x`.
    Or { x: u8, y: u8 },
    /// `8XY2`: bitwise and of register `y` into register `x`.
    And { x: u8, y: u8 },
    /// `8XY3`: bitwise exclusive or of register `y` into register `x`.
    Xor { x: u8, y: u8 },
    /// `8XY4`: add register `y` to register `x`, with carry.
    AddRegister { x: u8, y: u8 },
    /// `8XY5`: subtract register `y` from register `x`, with borrow.
    Subtract { x: u8, y: u8 },
    /// `8XY6`: shift register `x` right by one bit.
    ShiftRight { x: u8 },
    /// `8XY7`: put register `y` minus register `x` into register `x`, with
    /// borrow.
    SubtractFrom { x: u8, y: u8 },
    /// `8XYE`: shift register `x` left by one bit.
    ShiftLeft { x: u8 },
    /// `9XY0`: skip the next instruction if registers `x` and `y` differ.
    SkipIfDifferent { x: u8, y: u8 },
    /// `ANNN`: point the address register at `target`.
    LoadAddress { target: u16 },
    /// `CXNN`: put a random byte, masked by `mask`, into register `x`.
    Random { x: u8, mask: u8 },
    /// `DXYN`: draw the sprite of `height` rows at the address register,
    /// at the position held by registers `x` and `y`.
    Draw { x: u8, y: u8, height: u8 },
    /// `EX9E`: skip the next instruction if the key in register `x` is held.
    SkipIfKey { x: u8 },
    /// `EXA1`: skip the next instruction unless the key in register `x` is
    /// held.
    SkipIfNotKey { x: u8 },
    /// `FX07`: read the delay timer into register `x`.
    ReadTimer { x: u8 },
    /// `FX0A`: wait for a key and put it into register `x`.
    WaitKey { x: u8 },
    /// `FX15`: set the delay timer from register `x`.
    SetTimer { x: u8 },
    /// `FX18`: set the sound timer from register `x`; there is no sound.
    SetSound { x: u8 },
    /// `FX1E`: add register `x` to the address register.
    AddToAddress { x: u8 },
    /// `FX29`: point the address register at the glyph of the digit held
    /// in register `x`.
    Glyph { x: u8 },
    /// `FX33`: store the three decimal digits of register `x`.
    Decimal { x: u8 },
    /// `FX55`: store the registers from 0 to `x` in memory.
    Store { x: u8 },
    /// `FX65`: load the registers from 0 to `x` from memory.
    Restore { x: u8 },
    /// Any other word: nothing is done.
    Unknown { opcode: u16 },
}

/// The most significant nibble of a word.
pub open spec fn group_of(opcode: u16) -> u8 {
    (opcode / 4096) as u8
}

/// The nibble `X` of a word.
pub open spec fn x_of(opcode: u16) -> u8 {
    ((opcode / 256) % 16) as u8
}

/// The nibble `Y` of a word.
pub open spec fn y_of(opcode: u16) -> u8 {
    ((opcode / 16) % 16) as u8
}

/// The nibble `N` of a word.
pub open spec fn n_of(opcode: u16) -> u8 {
    (opcode % 16) as u8
}

/// The byte `NN` of a word.
pub open spec fn nn_of(opcode: u16) -> u8 {
    (opcode % 256) as u8
}

/// The address `NNN` of a word.
pub open spec fn nnn_of(opcode: u16) -> u16 {
    opcode % 4096
}

/// The instruction that a word stands for.
pub open spec fn decoded(opcode: u16) -> Instruction {
    let x = x_of(opcode);
    let y = y_of(opcode);
    let n = n_of(opcode);
    let nn = nn_of(opcode);
    let nnn = nnn_of(opcode);
    let unknown = Instruction::Unknown { opcode };
    match group_of(opcode) {
        0x0 => if opcode == 0x00E0 {
            Instruction::ClearScreen
        } else if opcode == 0x00EE {
            Instruction::Return
        } else {
            unknown
        },
        0x1 => Instruction::Jump { target: nnn },
        0x2 => Instruction::Call { target: nnn },
        0x3 => Instruction::SkipIfEqual { x, value: nn },
        0x4 => Instruction::SkipIfNotEqual { x, value: nn },
        0x5 => if n == 0 {
            Instruction::SkipIfSame { x, y }
        } else {
            unknown
        },
        0x6 => Instruction::Load { x, value: nn },
        0x7 => Instruction::Add { x, value: nn },
        0x8 => match n {
            0x0 => Instruction::Move { x, y },
            0x1 => Instruction::Or { x, y },
            0x2 => Instruction::And { x, y },
            0x3 => Instruction::Xor { x, y },
            0x4 => Instruction::AddRegister { x, y },
            0x5 => Instruction::Subtract { x, y },
            0x6 => Instruction::ShiftRight { x },
            0x7 => Instruction::SubtractFrom { x, y },
            0xE => Instruction::ShiftLeft { x },
            _ => unknown,
        },
        0x9 => if n == 0 {
            Instruction::SkipIfDifferent { x, y }
        } else {
            unknown
        },
        0xA => Instruction::LoadAddress { target: nnn },
        0xB => Instruction::Jump { target: nnn },
        0xC => Instruction::Random { x, mask: nn },
        0xD => Instruction::Draw { x, y, height: n },
        0xE => match nn {
            0x9E => Instruction::SkipIfKey { x },
            0xA1 => Instruction::SkipIfNotKey { x },
            _ => unknown,
        },
        _ => match nn {
            0x07 => Instruction::ReadTimer { x },
            0x0A => Instruction::WaitKey { x },
            0x15 => Instruction::SetTimer { x },
            0x18 => Instruction::SetSound { x },
            0x1E => Instruction::AddToAddress { x },
            0x29 => Instruction::Glyph { x },
            0x33 => Instruction::Decimal { x },
            0x55 => Instruction::Store { x },
            0x65 => Instruction::Restore { x },
            _ => unknown,
        },
    }
}

impl Instruction {
    /// Every register index of the instruction names a register.
    pub open spec fn wf(self) -> bool {
        match self {
            Instruction::SkipIfEqual { x, .. }
            | Instruction::SkipIfNotEqual { x, .. }
            | Instruction::Load { x, .. }
            | Instruction::Add { x, .. }
            | Instruction::ShiftRight { x }
            | Instruction::ShiftLeft { x }
            | Instruction::Random { x, .. }
            | Instruction::SkipIfKey { x }
            | Instruction::SkipIfNotKey { x }
            | Instruction::ReadTimer { x }
            | Instruction::WaitKey { x }
            | Instruction::SetTimer { x }
            | Instruction::SetSound { x }
            | Instruction::AddToAddress { x }
            | Instruction::Glyph { x }
            | Instruction::Decimal { x }
            | Instruction::Store { x }
            | Instruction::Restore { x } => x < 16,
            Instruction::SkipIfSame { x, y }
            | Instruction::Move { x, y }
            | Instruction::Or { x, y }
            | Instruction::And { x, y }
            | Instruction::Xor { x, y }
            | Instruction::AddRegister { x, y }
            | Instruction::Subtract { x, y }
            | Instruction::SubtractFrom { x, y }
            | Instruction::SkipIfDifferent { x, y } => x < 16 && y < 16,
            Instruction::Draw { x, y, height } => x < 16 && y < 16 && height < 16,
            Instruction::Jump { target }
            | Instruction::Call { target }
            | Instruction::LoadAddress { target } => target < 4096,
            _ => true,
        }
    }

    /// Reads an instruction word.
    pub fn decode(opcode: u16) -> (instruction: Instruction)
        ensures
            instruction == decoded(opcode),
            instruction.wf(),
    {
        let group: u8 = (opcode >> 12) as u8;
        let x: u8 = ((opcode >> 8) & 0x0F) as u8;
        let y: u8 = ((opcode >> 4) & 0x0F) as u8;
        let n: u8 = (opcode & 0x0F) as u8;
        let nn: u8 = (opcode & 0xFF) as u8;
        let nnn: u16 = opcode & 0x0FFF;
        proof {
            assert(opcode >> 12 == opcode / 4096) by (bit_vector);
            assert((opcode >> 8) & 0x0F == (opcode / 256) % 16) by (bit_vector);
            assert((opcode >> 4) & 0x0F == (opcode / 16) % 16) by (bit_vector);
            assert(opcode & 0x0F == opcode % 16) by (bit_vector);
            assert(opcode & 0xFF == opcode % 256) by (bit_vector);
            assert(opcode & 0x0FFF == opcode % 4096) by (bit_vector);
        }
        let unknown = Instruction::Unknown { opcode };
        match group {
            0x0 => if opcode == 0x00E0 {
                Instruction::ClearScreen
            } else if opcode == 0x00EE {
                Instruction::Return
            } else {
                unknown
            },
            0x1 => Instruction::Jump { target: nnn },
            0x2 => Instruction::Call { target: nnn },
            0x3 => Instruction::SkipIfEqual { x, value: nn },
            0x4 => Instruction::SkipIfNotEqual { x, value: nn },
            0x5 => if n == 0 {
                Instruction::SkipIfSame { x, y }
            } else {
                unknown
            },
            0x6 => Instruction::Load { x, value: nn },
            0x7 => Instruction::Add { x, value: nn },
            0x8 => match n {
                0x0 => Instruction::Move { x, y },
                0x1 => Instruction::Or { x, y },
                0x2 => Instruction::And { x, y },
                0x3 => Instruction::Xor { x, y },
                0x4 => Instruction::AddRegister { x, y },
                0x5 => Instruction::Subtract { x, y },
                0x6 => Instruction::ShiftRight { x },
                0x7 => Instruction::SubtractFrom { x, y },
                0xE => Instruction::ShiftLeft { x },
                _ => unknown,
            },
            0x9 => if n == 0 {
                Instruction::SkipIfDifferent { x, y }
            } else {
                unknown
            },
            0xA => Instruction::LoadAddress { target: nnn },
            0xB => Instruction::Jump { target: nnn },
            0xC => Instruction::Random { x, mask: nn },
            0xD => Instruction::Draw { x, y, height: n },
            0xE => match nn {
                0x9E => Instruction::SkipIfKey { x },
                0xA1 => Instruction::SkipIfNotKey { x },
                _ => unknown,
            },
            _ => match nn {
                0x07 => Instruction::ReadTimer { x },
                0x0A => Instruction::WaitKey { x },
                0x15 => Instruction::SetTimer { x },
                0x18 => Instruction::SetSound { x },
                0x1E => Instruction::AddToAddress { x },
                0x29 => Instruction::Glyph { x },
                0x33 => Instruction::Decimal { x },
                0x55 => Instruction::Store { x },
                0x65 => Instruction::Restore { x },
                _ => unknown,
            },
        }
    }
}

} // verus!
