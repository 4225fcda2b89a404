//! The instruction set: what each 16-bit instruction word stands for.

use vstd::prelude::*;

verus! {

/// One instruction, decoded. `x` and `y` name registers, `addr` is a 12-bit
/// address, `byte` an 8-bit constant and `n` a 4-bit one.
#[derive(Clone, Copy, Debug, PartialEq, Eq)]
pub enum Instruction {
    /// `00E0`: clear the display.
    Cls,
    /// `00EE`: return from a subroutine.
    Ret,
    /// `1nnn`: jump to `addr`.
    Jp { addr: u16 },
    /// `2nnn`: call the subroutine at `addr`.
    Call { addr: u16 },
    /// `3xkk`: skip the next instruction if `Vx == byte`.
    SeByte { x: u8, byte: u8 },
    /// `4xkk`: skip the next instruction if `Vx != byte`.
    SneByte { x: u8, byte: u8 },
    /// `5xy0`: skip the next instruction if `Vx == Vy`.
    SeReg { x: u8, y: u8 },
    /// `6xkk`: `Vx = byte`.
    LdByte { x: u8, byte: u8 },
    /// `7xkk`: `Vx = Vx + byte`, without a carry flag.
    AddByte { x: u8, byte: u8 },
    /// `8xy0`: `Vx = Vy`.
    LdReg { x: u8, y: u8 },
    /// `8xy1`: `Vx = Vx | Vy`.
    Or { x: u8, y: u8 },
    /// `8xy2`: `Vx = Vx & Vy`.
    And { x: u8, y: u8 },
    /// `8xy3`: `Vx = Vx ^ Vy`.
    Xor { x: u8, y: u8 },
    /// `8xy4`: `Vx = Vx + Vy`, `VF` = carry.
    AddReg { x: u8, y: u8 },
    /// `8xy5`: `Vx = Vx - Vy`, `VF` = no borrow.
    Sub { x: u8, y: u8 },
    /// `8xy6`: `Vx = Vy >> 1`, `VF` = the bit shifted out.
    Shr { x: u8, y: u8 },
    /// `8xy7`: `Vx = Vy - Vx`, `VF` = no borrow.
    Subn { x: u8, y: u8 },
    /// `8xyE`: `Vx = Vy << 1`, `VF` = the bit shifted out.
    Shl { x: u8, y: u8 },
    /// `9xy0`: skip the next instruction if `Vx != Vy`.
    SneReg { x: u8, y: u8 },
    /// `Annn`: `I = addr`.
    LdI { addr: u16 },
    /// `Bnnn`: jump to `addr + V0`.
    JpV0 { addr: u16 },
    /// `Cxkk`: `Vx` = a random byte `& byte`.
    Rnd { x: u8, byte: u8 },
    /// `Dxyn`: draw the `n`-row sprite at `I` at `(Vx, Vy)`, `VF` = collision.
    Drw { x: u8, y: u8, n: u8 },
    /// `Ex9E`: skip the next instruction if key `Vx` is down.
    Skp { x: u8 },
    /// `ExA1`: skip the next instruction if key `Vx` is up.
    Sknp { x: u8 },
    /// `Fx07`: `Vx` = delay timer.
    LdVxDt { x: u8 },
    /// `Fx0A`: wait for a key to be released, `Vx` = that key.
    LdVxK { x: u8 },
    /// `Fx15`: delay timer = `Vx`.
    LdDtVx { x: u8 },
    /// `Fx18`: sound timer = `Vx`.
    LdStVx { x: u8 },
    /// `Fx1E`: `I = I + Vx`.
    AddIVx { x: u8 },
    /// `Fx29`: `I` = address of the font sprite for digit `Vx`.
    LdFVx { x: u8 },
    /// `Fx33`: store the three decimal digits of `Vx` at `I`, `I+1`, `I+2`.
    LdBVx { x: u8 },
    /// `Fx55`: store `V0..=Vx` in memory from `I` on.
    LdIVx { x: u8 },
    /// `Fx65`: load `V0..=Vx` from memory from `I` on.
    LdVxI { x: u8 },
    /// Any other word: not an instruction.
    Invalid { instruction: u16 },
}

impl Instruction {
    /// Whether the operands are in range: registers below 16, addresses
    /// below `0x1000`, sprite heights below 16.
    pub open spec fn wf(self) -> bool {
        match self {
            Instruction::Cls | Instruction::Ret | Instruction::Invalid { .. } => true,
            Instruction::Jp { addr }
            | Instruction::Call { addr }
            | Instruction::LdI { addr }
            | Instruction::JpV0 { addr } => addr < 0x1000,
            Instruction::SeByte { x, .. }
            | Instruction::SneByte { x, .. }
            | Instruction::LdByte { x, .. }
            | Instruction::AddByte { x, .. }
            | Instruction::Rnd { x, .. }
            | Instruction::Skp { x }
            | Instruction::Sknp { x }
            | Instruction::LdVxDt { x }
            | Instruction::LdVxK { x }
            | Instruction::LdDtVx { x }
            | Instruction::LdStVx { x }
            | Instruction::AddIVx { x }
            | Instruction::LdFVx { x }
            | Instruction::LdBVx { x }
            | Instruction::LdIVx { x }
            | Instruction::LdVxI { x } => x < 16,
            Instruction::SeReg { x, y }
            | Instruction::LdReg { x, y }
            | Instruction::Or { x, y }
            | Instruction::And { x, y }
            | Instruction::Xor { x, y }
            | Instruction::AddReg { x, y }
            | Instruction::Sub { x, y }
            | Instruction::Shr { x, y }
            | Instruction::Subn { x, y }
            | Instruction::Shl { x, y }
            | Instruction::SneReg { x, y } => x < 16 && y < 16,
            Instruction::Drw { x, y, n } => x < 16 && y < 16 && n < 16,
        }
    }
}

/// The hexadecimal digit of `instruction` at `place`, where place 0 is the
/// lowest digit and place 3 the highest.
pub open spec fn digit(instruction: u16, place: int) -> u8 {
    if place == 0 {
        (instruction as int % 16) as u8
    } else if place == 1 {
        ((instruction as int / 0x10) % 16) as u8
    } else if place == 2 {
        ((instruction as int / 0x100) % 16) as u8
    } else {
        (instruction as int / 0x1000) as u8
    }
}

/// What an instruction word stands for. The word is read as four hexadecimal
/// digits: `x` is the second, `y` the third, `n` the last, `byte` the lower
/// two and `addr` the lower three.
pub open spec fn decoded(instruction: u16) -> Instruction {
    let addr = (instruction as int % 0x1000) as u16;
    let byte = (instruction as int % 0x100) as u8;
    let x = digit(instruction, 2);
    let y = digit(instruction, 1);
    let n = digit(instruction, 0);
    match (digit(instruction, 3), digit(instruction, 2), digit(instruction, 1), digit(instruction, 0)) {
        (0x0, 0x0, 0xE, 0x0) => Instruction::Cls,
        (0x0, 0x0, 0xE, 0xE) => Instruction::Ret,
        (0x1, _, _, _) => Instruction::Jp { addr },
        (0x2, _, _, _) => Instruction::Call { addr },
        (0x3, _, _, _) => Instruction::SeByte { x, byte },
        (0x4, _, _, _) => Instruction::SneByte { x, byte },
        (0x5, _, _, 0x0) => Instruction::SeReg { x, y },
        (0x6, _, _, _) => Instruction::LdByte { x, byte },
        (0x7, _, _, _) => Instruction::AddByte { x, byte },
        (0x8, _, _, 0x0) => Instruction::LdReg { x, y },
        (0x8, _, _, 0x1) => Instruction::Or { x, y },
        (0x8, _, _, 0x2) => Instruction::And { x, y },
        (0x8, _, _, 0x3) => Instruction::Xor { x, y },
        (0x8, _, _, 0x4) => Instruction::AddReg { x, y },
        (0x8, _, _, 0x5) => Instruction::Sub { x, y },
        (0x8, _, _, 0x6) => Instruction::Shr { x, y },
        (0x8, _, _, 0x7) => Instruction::Subn { x, y },
        (0x8, _, _, 0xE) => Instruction::Shl { x, y },
        (0x9, _, _, 0x0) => Instruction::SneReg { x, y },
        (0xA, _, _, _) => Instruction::LdI { addr },
        (0xB, _, _, _) => Instruction::JpV0 { addr },
        (0xC, _, _, _) => Instruction::Rnd { x, byte },
        (0xD, _, _, _) => Instruction::Drw { x, y, n },
        (0xE, _, 0x9, 0xE) => Instruction::Skp { x },
        (0xE, _, 0xA, 0x1) => Instruction::Sknp { x },
        (0xF, _, 0x0, 0x7) => Instruction::LdVxDt { x },
        (0xF, _, 0x0, 0xA) => Instruction::LdVxK { x },
        (0xF, _, 0x1, 0x5) => Instruction::LdDtVx { x },
        (0xF, _, 0x1, 0x8) => Instruction::LdStVx { x },
        (0xF, _, 0x1, 0xE) => Instruction::AddIVx { x },
        (0xF, _, 0x2, 0x9) => Instruction::LdFVx { x },
        (0xF, _, 0x3, 0x3) => Instruction::LdBVx { x },
        (0xF, _, 0x5, 0x5) => Instruction::LdIVx { x },
        (0xF, _, 0x6, 0x5) => Instruction::LdVxI { x },
        _ => Instruction::Invalid { instruction },
    }
}

/// The operands of an instruction word are always in range.
pub proof fn lemma_decoded_wf(instruction: u16)
    ensures
        decoded(instruction).wf(),
{
}

/// Decodes an instruction word.
pub fn decode(instruction: u16) -> (op: Instruction)
    ensures
        op == decoded(instruction),
        op.wf(),
{
    let addr = instruction & 0x0FFF;  // 0x0nnn
    let x = ((instruction & 0x0F00) >> 8) as u8;  // 0x0x00
    let y = ((instruction & 0x00F0) >> 4) as u8;  // 0x00y0
    let byte = (instruction & 0x00FF) as u8;  // 0x00kk
    let nibble = (instruction & 0x000F) as u8;  // 0x000n
    let family = instruction & 0xF000;
    proof {
        assert(instruction & 0x0FFF == instruction % 0x1000) by (bit_vector);
        assert((instruction & 0x0F00) >> 8 == (instruction / 0x100) % 16) by (bit_vector);
        assert((instruction & 0x00F0) >> 4 == (instruction / 0x10) % 16) by (bit_vector);
        assert(instruction & 0x00FF == instruction % 0x100) by (bit_vector);
        assert(instruction & 0x000F == instruction % 16) by (bit_vector);
        assert(instruction & 0xF000 == (instruction / 0x1000) * 0x1000) by (bit_vector);
    }
    let invalid = Instruction::Invalid { instruction };
    match family {
        0x0000 => match instruction {
            0x00E0 => Instruction::Cls,
            0x00EE => Instruction::Ret,
            _ => invalid,
        },
        0x1000 => Instruction::Jp { addr },
        0x2000 => Instruction::Call { addr },
        0x3000 => Instruction::SeByte { x, byte },
        0x4000 => Instruction::SneByte { x, byte },
        0x5000 => match nibble {
            0x0 => Instruction::SeReg { x, y },
            _ => invalid,
        },
        0x6000 => Instruction::LdByte { x, byte },
        0x7000 => Instruction::AddByte { x, byte },
        0x8000 => match nibble {
            0x0 => Instruction::LdReg { x, y },
            0x1 => Instruction::Or { x, y },
            0x2 => Instruction::And { x, y },
            0x3 => Instruction::Xor { x, y },
            0x4 => Instruction::AddReg { x, y },
            0x5 => Instruction::Sub { x, y },
            0x6 => Instruction::Shr { x, y },
            0x7 => Instruction::Subn { x, y },
            0xE => Instruction::Shl { x, y },
            _ => invalid,
        },
        0x9000 => match nibble {
            0x0 => Instruction::SneReg { x, y },
            _ => invalid,
        },
        0xA000 => Instruction::LdI { addr },
        0xB000 => Instruction::JpV0 { addr },
        0xC000 => Instruction::Rnd { x, byte },
        0xD000 => Instruction::Drw { x, y, n: nibble },
        0xE000 => match byte {
            0x9E => Instruction::Skp { x },
            0xA1 => Instruction::Sknp { x },
            _ => invalid,
        },
        0xF000 => match byte {
            0x07 => Instruction::LdVxDt { x },
            0x0A => Instruction::LdVxK { x },
            0x15 => Instruction::LdDtVx { x },
            0x18 => Instruction::LdStVx { x },
            0x1E => Instruction::AddIVx { x },
            0x29 => Instruction::LdFVx { x },
            0x33 => Instruction::LdBVx { x },
            0x55 => Instruction::LdIVx { x },
            0x65 => Instruction::LdVxI { x },
            _ => invalid,
        },
        _ => invalid,
    }
}

} // verus!
