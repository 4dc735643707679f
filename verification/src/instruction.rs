//! The instruction set: the 35 operations, and the table that tells which
//! two-byte word stands for which of them.

use vstd::prelude::*;
use crate::nibbles::{word_to_nibbles, nibbles_of, MergeNibbles};

verus! {

/// One decoded instruction. `x` and `y` name registers, `address` is a
/// 12-bit immediate, `value` and `mask` are 8-bit immediates.
#[derive(Clone, Copy, Debug, PartialEq, Eq)]
pub enum Instruction {
    /// `00E0`: blank the display.
    ClearScreen,
    /// `00EE`: return from a subroutine.
    Return,
    /// `0NNN`: call a native routine. Part of the table, never carried out.
    MachineCall { address: u16 },
    /// `1NNN`: jump.
    Jump { address: u16 },
    /// `2NNN`: call a subroutine.
    Call { address: u16 },
    /// `3XNN`: skip the next instruction if `Vx == NN`.
    SkipEqImm { x: u8, value: u8 },
    /// `4XNN`: skip the next instruction if `Vx != NN`.
    SkipNeImm { x: u8, value: u8 },
    /// `5XY0`: skip the next instruction if `Vx == Vy`.
    SkipEq { x: u8, y: u8 },
    /// `6XNN`: `Vx = NN`.
    Load { x: u8, value: u8 },
    /// `7XNN`: `Vx += NN`, wrapping, flags untouched.
    AddImm { x: u8, value: u8 },
    /// `8XY0`: `Vx = Vy`.
    Copy { x: u8, y: u8 },
    /// `8XY1`: `Vx |= Vy`.
    Or { x: u8, y: u8 },
    /// `8XY2`: `Vx &= Vy`.
    And { x: u8, y: u8 },
    /// `8XY3`: `Vx ^= Vy`.
    Xor { x: u8, y: u8 },
    /// `8XY4`: `Vx += Vy`, carry in `VF`.
    Add { x: u8, y: u8 },
    /// `8XY5`: `Vx -= Vy`, `VF` set when nothing was borrowed.
    Sub { x: u8, y: u8 },
    /// `8XY6`: `Vx = Vy >> 1`, the bit shifted out in `VF`.
    ShiftRight { x: u8, y: u8 },
    /// `8XY7`: `Vx = Vy - Vx`, `VF` set when nothing was borrowed.
    SubReverse { x: u8, y: u8 },
    /// `8XYE`: `Vx = Vy << 1`, the bit shifted out in `VF`.
    ShiftLeft { x: u8, y: u8 },
    /// `9XY0`: skip the next instruction if `Vx != Vy`.
    SkipNe { x: u8, y: u8 },
    /// `ANNN`: `I = NNN`.
    LoadIndex { address: u16 },
    /// `BNNN`: jump to `V0 + NNN`.
    JumpOffset { address: u16 },
    /// `CXNN`: `Vx` = a random byte masked by `NN`.
    Random { x: u8, mask: u8 },
    /// `DXYN`: draw the `N`-row sprite at `I` at `(Vx, Vy)`, collision in `VF`.
    Draw { x: u8, y: u8, height: u8 },
    /// `EX9E`: skip the next instruction if the key named by `Vx` is down.
    SkipKey { x: u8 },
    /// `EXA1`: skip the next instruction if the key named by `Vx` is up.
    SkipNoKey { x: u8 },
    /// `FX07`: `Vx` = delay timer.
    ReadDelay { x: u8 },
    /// `FX0A`: wait for a key press. Part of the table, never carried out.
    WaitKey { x: u8 },
    /// `FX15`: delay timer = `Vx`.
    SetDelay { x: u8 },
    /// `FX18`: sound timer = `Vx`.
    SetSound { x: u8 },
    /// `FX1E`: `I += Vx`.
    AddIndex { x: u8 },
    /// `FX29`: `I` = address of the glyph for the low nibble of `Vx`.
    Glyph { x: u8 },
    /// `FX33`: the three decimal digits of `Vx` to `I`, `I+1`, `I+2`.
    Bcd { x: u8 },
    /// `FX55`: `V0..=Vx` to memory at `I`.
    Store { x: u8 },
    /// `FX65`: `V0..=Vx` from memory at `I`.
    Fill { x: u8 },
}

impl Instruction {
    /// Register numbers are below 16, addresses below 4096 and sprite
    /// heights below 16: what four-bit and twelve-bit fields can hold.
    pub open spec fn wf(self) -> bool {
        match self {
            Instruction::ClearScreen | Instruction::Return => true,
            Instruction::MachineCall { address }
            | Instruction::Jump { address }
            | Instruction::Call { address }
            | Instruction::LoadIndex { address }
            | Instruction::JumpOffset { address } => address < 4096,
            Instruction::SkipEqImm { x, .. }
            | Instruction::SkipNeImm { x, .. }
            | Instruction::Load { x, .. }
            | Instruction::AddImm { x, .. }
            | Instruction::Random { x, .. }
            | Instruction::SkipKey { x }
            | Instruction::SkipNoKey { x }
            | Instruction::ReadDelay { x }
            | Instruction::WaitKey { x }
            | Instruction::SetDelay { x }
            | Instruction::SetSound { x }
            | Instruction::AddIndex { x }
            | Instruction::Glyph { x }
            | Instruction::Bcd { x }
            | Instruction::Store { x }
            | Instruction::Fill { x } => x < 16,
            Instruction::SkipEq { x, y }
            | Instruction::Copy { x, y }
            | Instruction::Or { x, y }
            | Instruction::And { x, y }
            | Instruction::Xor { x, y }
            | Instruction::Add { x, y }
            | Instruction::Sub { x, y }
            | Instruction::ShiftRight { x, y }
            | Instruction::SubReverse { x, y }
            | Instruction::ShiftLeft { x, y }
            | Instruction::SkipNe { x, y } => x < 16 && y < 16,
            Instruction::Draw { x, y, height } => x < 16 && y < 16 && height < 16,
        }
    }
}

/// The instruction that the word `hi lo` encodes, if any. `x` and `y` are
/// the second and third nibble, `NN` is the second byte and `NNN` the low
/// twelve bits of the word.
pub open spec fn decode_spec(hi: u8, lo: u8) -> Option<Instruction> {
    let op = (hi / 16) as u8;
    let x = (hi % 16) as u8;
    let y = (lo / 16) as u8;
    let n = (lo % 16) as u8;
    let address = (x * 256 + lo) as u16;
    if op == 0x0 {
        if hi == 0x00 && lo == 0xE0 {
            Some(Instruction::ClearScreen)
        } else if hi == 0x00 && lo == 0xEE {
            Some(Instruction::Return)
        } else {
            Some(Instruction::MachineCall { address })
        }
    } else if op == 0x1 {
        Some(Instruction::Jump { address })
    } else if op == 0x2 {
        Some(Instruction::Call { address })
    } else if op == 0x3 {
        Some(Instruction::SkipEqImm { x, value: lo })
    } else if op == 0x4 {
        Some(Instruction::SkipNeImm { x, value: lo })
    } else if op == 0x5 {
        if n == 0 {
            Some(Instruction::SkipEq { x, y })
        } else {
            None
        }
    } else if op == 0x6 {
        Some(Instruction::Load { x, value: lo })
    } else if op == 0x7 {
        Some(Instruction::AddImm { x, value: lo })
    } else if op == 0x8 {
        if n == 0x0 {
            Some(Instruction::Copy { x, y })
        } else if n == 0x1 {
            Some(Instruction::Or { x, y })
        } else if n == 0x2 {
            Some(Instruction::And { x, y })
        } else if n == 0x3 {
            Some(Instruction::Xor { x, y })
        } else if n == 0x4 {
            Some(Instruction::Add { x, y })
        } else if n == 0x5 {
            Some(Instruction::Sub { x, y })
        } else if n == 0x6 {
            Some(Instruction::ShiftRight { x, y })
        } else if n == 0x7 {
            Some(Instruction::SubReverse { x, y })
        } else if n == 0xE {
            Some(Instruction::ShiftLeft { x, y })
        } else {
            None
        }
    } else if op == 0x9 {
        if n == 0 {
            Some(Instruction::SkipNe { x, y })
        } else {
            None
        }
    } else if op == 0xA {
        Some(Instruction::LoadIndex { address })
    } else if op == 0xB {
        Some(Instruction::JumpOffset { address })
    } else if op == 0xC {
        Some(Instruction::Random { x, mask: lo })
    } else if op == 0xD {
        Some(Instruction::Draw { x, y, height: n })
    } else if op == 0xE {
        if lo == 0x9E {
            Some(Instruction::SkipKey { x })
        } else if lo == 0xA1 {
            Some(Instruction::SkipNoKey { x })
        } else {
            None
        }
    } else {
        if lo == 0x07 {
            Some(Instruction::ReadDelay { x })
        } else if lo == 0x0A {
            Some(Instruction::WaitKey { x })
        } else if lo == 0x15 {
            Some(Instruction::SetDelay { x })
        } else if lo == 0x18 {
            Some(Instruction::SetSound { x })
        } else if lo == 0x1E {
            Some(Instruction::AddIndex { x })
        } else if lo == 0x29 {
            Some(Instruction::Glyph { x })
        } else if lo == 0x33 {
            Some(Instruction::Bcd { x })
        } else if lo == 0x55 {
            Some(Instruction::Store { x })
        } else if lo == 0x65 {
            Some(Instruction::Fill { x })
        } else {
            None
        }
    }
}

/// Decodes the word `hi lo`. `None` means that no instruction has this
/// encoding.
pub fn decode(hi: u8, lo: u8) -> (decoded: Option<Instruction>)
    ensures
        decoded == decode_spec(hi, lo),
        decoded matches Some(instruction) ==> instruction.wf(),
{
    let word = [hi, lo];
    let nibbles = word_to_nibbles(&word);
    let op: u8 = nibbles[0];
    let x: u8 = nibbles[1];
    let y: u8 = nibbles[2];
    let n: u8 = nibbles[3];
    let value: u8 = [y, n].merge_nibbles();
    let address: u16 = [x, y, n].merge_nibbles();
    proof {
        assert(nibbles@ == nibbles_of(hi, lo));
        assert(value == lo);
        assert(address == x * 256 + lo);
    }
    match op {
        0x0 => if x == 0 && y == 0xE && n == 0 {
            Some(Instruction::ClearScreen)
        } else if x == 0 && y == 0xE && n == 0xE {
            Some(Instruction::Return)
        } else {
            Some(Instruction::MachineCall { address })
        },
        0x1 => Some(Instruction::Jump { address }),
        0x2 => Some(Instruction::Call { address }),
        0x3 => Some(Instruction::SkipEqImm { x, value }),
        0x4 => Some(Instruction::SkipNeImm { x, value }),
        0x5 => if n == 0 {
            Some(Instruction::SkipEq { x, y })
        } else {
            None
        },
        0x6 => Some(Instruction::Load { x, value }),
        0x7 => Some(Instruction::AddImm { x, value }),
        0x8 => match n {
            0x0 => Some(Instruction::Copy { x, y }),
            0x1 => Some(Instruction::Or { x, y }),
            0x2 => Some(Instruction::And { x, y }),
            0x3 => Some(Instruction::Xor { x, y }),
            0x4 => Some(Instruction::Add { x, y }),
            0x5 => Some(Instruction::Sub { x, y }),
            0x6 => Some(Instruction::ShiftRight { x, y }),
            0x7 => Some(Instruction::SubReverse { x, y }),
            0xE => Some(Instruction::ShiftLeft { x, y }),
            _ => None,
        },
        0x9 => if n == 0 {
            Some(Instruction::SkipNe { x, y })
        } else {
            None
        },
        0xA => Some(Instruction::LoadIndex { address }),
        0xB => Some(Instruction::JumpOffset { address }),
        0xC => Some(Instruction::Random { x, mask: value }),
        0xD => Some(Instruction::Draw { x, y, height: n }),
        0xE => match value {
            0x9E => Some(Instruction::SkipKey { x }),
            0xA1 => Some(Instruction::SkipNoKey { x }),
            _ => None,
        },
        _ => match value {
            0x07 => Some(Instruction::ReadDelay { x }),
            0x0A => Some(Instruction::WaitKey { x }),
            0x15 => Some(Instruction::SetDelay { x }),
            0x18 => Some(Instruction::SetSound { x }),
            0x1E => Some(Instruction::AddIndex { x }),
            0x29 => Some(Instruction::Glyph { x }),
            0x33 => Some(Instruction::Bcd { x }),
            0x55 => Some(Instruction::Store { x }),
            0x65 => Some(Instruction::Fill { x }),
            _ => None,
        },
    }
}

} // verus!
