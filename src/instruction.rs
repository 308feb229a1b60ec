//! The instruction set as a closed sum type, and the decoder that builds it
//! from a 16-bit opcode by masking out its nibbles.
use vstd::prelude::*;

verus! {

/// One decoded instruction. `x` and `y` name registers 0x0..=0xF, `nn` is an
/// immediate byte, `nnn` a 12-bit address and `n` a 4-bit count. The opcode
/// that decodes to each variant is given beside it.
#[derive(Clone, Copy, Debug, PartialEq, Eq, Structural)]
pub enum Instruction {
    /// `00E0`
    Clear,
    /// `00EE`
    Return,
    /// `1NNN`
    Jump(u16),
    /// `2NNN`
    SubRoutine(u16),
    /// `3XNN`
    SkipOnXeqV(u8, u8),
    /// `4XNN`
    SkipOnXneqV(u8, u8),
    /// `5XY0`
    SkipOnXeqY(u8, u8),
    /// `6XNN`
    LoadNormalRegister(u8, u8),
    /// `7XNN`
    AddToNormalRegister(u8, u8),
    /// `8XY0`
    SetXtoY(u8, u8),
    /// `8XY1`
    SetXtoXorY(u8, u8),
    /// `8XY2`
    SetXtoXandY(u8, u8),
    /// `8XY3`
    SetXtoXxorY(u8, u8),
    /// `8XY4`
    AddYtoX(u8, u8),
    /// `8XY5`
    SubYfromX(u8, u8),
    /// `8XY6`
    SetXtoYshiftRightOnce(u8, u8),
    /// `8XY7`
    SetXtoYMinusX(u8, u8),
    /// `8XYE`
    SetXtoYshiftLeftOnce(u8, u8),
    /// `9XY0`
    SkipOnXneqY(u8, u8),
    /// `ANNN`
    LoadIndexRegister(u16),
    /// `BNNN`
    JumpByRegister(u16),
    /// `CXNN`
    LoadRegisterWithRandom(u8, u8),
    /// `DXYN`
    DrawSprite(u8, u8, u8),
    /// `EX9E`
    SkipIfPressed(u8),
    /// `EXA1`
    SkipNotPressed(u8),
    /// `FX07`
    StoreDelayInRegister(u8),
    /// `FX0A`
    WaitUserInput(u8),
    /// `FX15`
    SetDelayFromRegister(u8),
    /// `FX18`
    SetSoundTimerFromRegister(u8),
    /// `FX1E`
    AddRegisterToIndex(u8),
    /// `FX29`: the glyph of the digit written in the `X` nibble itself.
    LoadFont(u8),
    /// `FX33`
    StoreRegisterInBcd(u8),
    /// `FX55`: afterwards the index register has moved past the bytes
    /// written, unless the machine is set to leave it where it was (see
    /// `Chip8::set_index_advance`).
    StoreRegistersInMemory(u8),
    /// `FX65`: afterwards the index register has moved past the bytes read,
    /// as for `StoreRegistersInMemory`.
    FillRegisters(u8),
}

/// Bits 8..12 of an opcode: the first register operand.
pub open spec fn x_of(op: u16) -> u8 {
    ((op / 256) % 16) as u8
}

/// Bits 4..8 of an opcode: the second register operand.
pub open spec fn y_of(op: u16) -> u8 {
    ((op / 16) % 16) as u8
}

/// Bits 0..4 of an opcode.
pub open spec fn n_of(op: u16) -> u8 {
    (op % 16) as u8
}

/// The low byte of an opcode.
pub open spec fn nn_of(op: u16) -> u8 {
    (op % 256) as u8
}

/// The low 12 bits of an opcode.
pub open spec fn nnn_of(op: u16) -> u16 {
    (op % 4096) as u16
}

/// What `op` decodes to; `None` for an opcode outside the instruction set,
/// including one of the `5XY_` or `9XY_` families whose last nibble is not 0.
pub open spec fn decode_spec(op: u16) -> Option<Instruction> {
    let family = op / 4096;
    let x = x_of(op);
    let y = y_of(op);
    let n = n_of(op);
    let nn = nn_of(op);
    let nnn = nnn_of(op);
    if family == 0x0 {
        if op == 0x00E0 {
            Some(Instruction::Clear)
        } else if op == 0x00EE {
            Some(Instruction::Return)
        } else {
            None
        }
    } else if family == 0x1 {
        Some(Instruction::Jump(nnn))
    } else if family == 0x2 {
        Some(Instruction::SubRoutine(nnn))
    } else if family == 0x3 {
        Some(Instruction::SkipOnXeqV(x, nn))
    } else if family == 0x4 {
        Some(Instruction::SkipOnXneqV(x, nn))
    } else if family == 0x5 {
        if n == 0 {
            Some(Instruction::SkipOnXeqY(x, y))
        } else {
            None
        }
    } else if family == 0x6 {
        Some(Instruction::LoadNormalRegister(x, nn))
    } else if family == 0x7 {
        Some(Instruction::AddToNormalRegister(x, nn))
    } else if family == 0x8 {
        if n == 0x0 {
            Some(Instruction::SetXtoY(x, y))
        } else if n == 0x1 {
            Some(Instruction::SetXtoXorY(x, y))
        } else if n == 0x2 {
            Some(Instruction::SetXtoXandY(x, y))
        } else if n == 0x3 {
            Some(Instruction::SetXtoXxorY(x, y))
        } else if n == 0x4 {
            Some(Instruction::AddYtoX(x, y))
        } else if n == 0x5 {
            Some(Instruction::SubYfromX(x, y))
        } else if n == 0x6 {
            Some(Instruction::SetXtoYshiftRightOnce(x, y))
        } else if n == 0x7 {
            Some(Instruction::SetXtoYMinusX(x, y))
        } else if n == 0xE {
            Some(Instruction::SetXtoYshiftLeftOnce(x, y))
        } else {
            None
        }
    } else if family == 0x9 {
        if n == 0 {
            Some(Instruction::SkipOnXneqY(x, y))
        } else {
            None
        }
    } else if family == 0xA {
        Some(Instruction::LoadIndexRegister(nnn))
    } else if family == 0xB {
        Some(Instruction::JumpByRegister(nnn))
    } else if family == 0xC {
        Some(Instruction::LoadRegisterWithRandom(x, nn))
    } else if family == 0xD {
        Some(Instruction::DrawSprite(x, y, n))
    } else if family == 0xE {
        if nn == 0x9E {
            Some(Instruction::SkipIfPressed(x))
        } else if nn == 0xA1 {
            Some(Instruction::SkipNotPressed(x))
        } else {
            None
        }
    } else {
        if nn == 0x07 {
            Some(Instruction::StoreDelayInRegister(x))
        } else if nn == 0x0A {
            Some(Instruction::WaitUserInput(x))
        } else if nn == 0x15 {
            Some(Instruction::SetDelayFromRegister(x))
        } else if nn == 0x18 {
            Some(Instruction::SetSoundTimerFromRegister(x))
        } else if nn == 0x1E {
            Some(Instruction::AddRegisterToIndex(x))
        } else if nn == 0x29 {
            Some(Instruction::LoadFont(x))
        } else if nn == 0x33 {
            Some(Instruction::StoreRegisterInBcd(x))
        } else if nn == 0x55 {
            Some(Instruction::StoreRegistersInMemory(x))
        } else if nn == 0x65 {
            Some(Instruction::FillRegisters(x))
        } else {
            None
        }
    }
}

impl Instruction {
    /// Register operands are below 16, addresses below 4096 and sprite
    /// heights below 16: what any decoded instruction satisfies.
    pub open spec fn valid(self) -> bool {
        match self {
            Instruction::Clear | Instruction::Return => true,
            Instruction::Jump(a) | Instruction::SubRoutine(a) | Instruction::LoadIndexRegister(a)
            | Instruction::JumpByRegister(a) => a < 4096,
            Instruction::SkipOnXeqV(x, _) | Instruction::SkipOnXneqV(x, _)
            | Instruction::LoadNormalRegister(x, _) | Instruction::AddToNormalRegister(x, _)
            | Instruction::LoadRegisterWithRandom(x, _) => x < 16,
            Instruction::SkipOnXeqY(x, y) | Instruction::SkipOnXneqY(x, y)
            | Instruction::SetXtoY(x, y) | Instruction::SetXtoXorY(x, y)
            | Instruction::SetXtoXandY(x, y) | Instruction::SetXtoXxorY(x, y)
            | Instruction::AddYtoX(x, y) | Instruction::SubYfromX(x, y)
            | Instruction::SetXtoYshiftRightOnce(x, y) | Instruction::SetXtoYMinusX(x, y)
            | Instruction::SetXtoYshiftLeftOnce(x, y) => x < 16 && y < 16,
            Instruction::DrawSprite(x, y, n) => x < 16 && y < 16 && n < 16,
            Instruction::SkipIfPressed(x) | Instruction::SkipNotPressed(x)
            | Instruction::StoreDelayInRegister(x) | Instruction::WaitUserInput(x)
            | Instruction::SetDelayFromRegister(x) | Instruction::SetSoundTimerFromRegister(x)
            | Instruction::AddRegisterToIndex(x) | Instruction::LoadFont(x)
            | Instruction::StoreRegisterInBcd(x) | Instruction::StoreRegistersInMemory(x)
            | Instruction::FillRegisters(x) => x < 16,
        }
    }
}

/// The masks and shifts that the decoder applies select the same fields as
/// the arithmetic in `x_of`, `y_of`, `n_of`, `nn_of` and `nnn_of`.
proof fn lemma_opcode_fields(op: u16)
    ensures
        op & 0xF000 == (op / 4096) * 4096,
        (op >> 8u16) & 0xF == op / 256 % 16,
        (op >> 4u16) & 0xF == op / 16 % 16,
        op & 0xF == op % 16,
        op & 0xFF == op % 256,
        op & 0xFFF == op % 4096,
        op / 4096 < 16,
{
    assert(op & 0xF000 == (op / 4096) * 4096) by (bit_vector);
    assert((op >> 8u16) & 0xF == op / 256 % 16) by (bit_vector);
    assert((op >> 4u16) & 0xF == op / 16 % 16) by (bit_vector);
    assert(op & 0xF == op % 16) by (bit_vector);
    assert(op & 0xFF == op % 256) by (bit_vector);
    assert(op & 0xFFF == op % 4096) by (bit_vector);
}

/// Decodes a 16-bit opcode: its top nibble picks the family, and for the
/// `0`, `8`, `E` and `F` families the low nibble or low byte picks the
/// operation.
pub fn decode(opcode: u16) -> (r: Option<Instruction>)
    ensures
        r == decode_spec(opcode),
        r matches Some(ins) ==> ins.valid(),
{
    proof {
        lemma_opcode_fields(opcode);
    }
    let x: u8 = ((opcode >> 8) & 0x000F) as u8;
    let y: u8 = ((opcode >> 4) & 0x000F) as u8;
    let n: u8 = (opcode & 0x000F) as u8;
    let nn: u8 = (opcode & 0x00FF) as u8;
    let nnn: u16 = opcode & 0x0FFF;
    match opcode & 0xF000 {
        0x0000 => {
            if nnn == 0x00E0 {
                Some(Instruction::Clear)
            } else if nnn == 0x00EE {
                Some(Instruction::Return)
            } else {
                None
            }
        },
        0x1000 => Some(Instruction::Jump(nnn)),
        0x2000 => Some(Instruction::SubRoutine(nnn)),
        0x3000 => Some(Instruction::SkipOnXeqV(x, nn)),
        0x4000 => Some(Instruction::SkipOnXneqV(x, nn)),
        0x5000 => {
            if n == 0 {
                Some(Instruction::SkipOnXeqY(x, y))
            } else {
                None
            }
        },
        0x6000 => Some(Instruction::LoadNormalRegister(x, nn)),
        0x7000 => Some(Instruction::AddToNormalRegister(x, nn)),
        0x8000 => match n {
            0x0 => Some(Instruction::SetXtoY(x, y)),
            0x1 => Some(Instruction::SetXtoXorY(x, y)),
            0x2 => Some(Instruction::SetXtoXandY(x, y)),
            0x3 => Some(Instruction::SetXtoXxorY(x, y)),
            0x4 => Some(Instruction::AddYtoX(x, y)),
            0x5 => Some(Instruction::SubYfromX(x, y)),
            0x6 => Some(Instruction::SetXtoYshiftRightOnce(x, y)),
            0x7 => Some(Instruction::SetXtoYMinusX(x, y)),
            0xE => Some(Instruction::SetXtoYshiftLeftOnce(x, y)),
            _ => None,
        },
        0x9000 => {
            if n == 0 {
                Some(Instruction::SkipOnXneqY(x, y))
            } else {
                None
            }
        },
        0xA000 => Some(Instruction::LoadIndexRegister(nnn)),
        0xB000 => Some(Instruction::JumpByRegister(nnn)),
        0xC000 => Some(Instruction::LoadRegisterWithRandom(x, nn)),
        0xD000 => Some(Instruction::DrawSprite(x, y, n)),
        0xE000 => match nn {
            0x9E => Some(Instruction::SkipIfPressed(x)),
            0xA1 => Some(Instruction::SkipNotPressed(x)),
            _ => None,
        },
        _ => match nn {
            0x07 => Some(Instruction::StoreDelayInRegister(x)),
            0x0A => Some(Instruction::WaitUserInput(x)),
            0x15 => Some(Instruction::SetDelayFromRegister(x)),
            0x18 => Some(Instruction::SetSoundTimerFromRegister(x)),
            0x1E => Some(Instruction::AddRegisterToIndex(x)),
            0x29 => Some(Instruction::LoadFont(x)),
            0x33 => Some(Instruction::StoreRegisterInBcd(x)),
            0x55 => Some(Instruction::StoreRegistersInMemory(x)),
            0x65 => Some(Instruction::FillRegisters(x)),
            _ => None,
        },
    }
}

} // verus!
