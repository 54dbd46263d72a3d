use vstd::prelude::*;

verus! {

/// One decoded instruction.  Register operands are register numbers
/// (0 to 15), `u16` operands are 12-bit addresses.
#[derive(Debug, Clone, Copy, PartialEq, Eq, Structural)]
pub enum Instruction {
    /// `00E0`: clear the framebuffer.
    ClearScreen,
    /// `00EE`: return from a subroutine.
    Return,
    /// `1nnn`: jump to `nnn`.
    Jump(u16),
    /// `2nnn`: call the subroutine at `nnn`.
    Call(u16),
    /// `3xkk`: skip the next instruction when `Vx == kk`.
    SkipEqImm(u8, u8),
    /// `4xkk`: skip the next instruction when `Vx != kk`.
    SkipNeImm(u8, u8),
    /// `5xy0`: skip the next instruction when `Vx == Vy`.
    SkipEqReg(u8, u8),
    /// `6xkk`: `Vx = kk`.
    LoadImm(u8, u8),
    /// `7xkk`: `Vx = Vx + kk`, wrapping, flags untouched.
    AddImm(u8, u8),
    /// `8xy0`: `Vx = Vy`.
    Move(u8, u8),
    /// `8xy1`: `Vx = Vx | Vy`.
    Or(u8, u8),
    /// `8xy2`: `Vx = Vx & Vy`.
    And(u8, u8),
    /// `8xy3`: `Vx = Vx ^ Vy`.
    Xor(u8, u8),
    /// `8xy4`: `Vx = Vx + Vy`, `VF` = carry.
    AddReg(u8, u8),
    /// `8xy5`: `Vx = Vx - Vy`, `VF` = `Vx > Vy`.
    Sub(u8, u8),
    /// `8x_6`: `Vx = Vx / 2`, `VF` = the bit shifted out.
    ShiftRight(u8),
    /// `8xy7`: `Vx = Vy - Vx`, `VF` = `Vy > Vx`.
    SubReverse(u8, u8),
    /// `8x_E`: `Vx = Vx * 2`, `VF` = the bit shifted out.
    ShiftLeft(u8),
    /// `9xy_`: skip the next instruction when `Vx != Vy`.
    SkipNeReg(u8, u8),
    /// `Annn`: `I = nnn`.
    SetIndex(u16),
    /// `Cxkk`: `Vx = random byte & kk`.
    Random(u8, u8),
    /// `Dxyn`: draw an `n`-row sprite from `I` at `(Vx, Vy)`.
    Draw(u8, u8, u8),
    /// `Ex9E`: skip the next instruction when key `Vx mod 16` is down.
    SkipKeyPressed(u8),
    /// `ExA1`: skip the next instruction when key `Vx mod 16` is up.
    SkipKeyNotPressed(u8),
    /// `Fx07`: `Vx = delay timer`.
    ReadDelay(u8),
    /// `Fx15`: `delay timer = Vx`.
    SetDelay(u8),
    /// `Fx18`: `sound timer = Vx`.
    SetSound(u8),
    /// `Fx1E`: `I = I + Vx`, wrapping at 16 bits.
    AddIndex(u8),
    /// `Fx29`: `I` = address of the font glyph for the low nibble of `Vx`.
    FontGlyph(u8),
    /// `Fx33`: store the decimal digits of `Vx` at `I`, `I+1`, `I+2`.
    StoreBcd(u8),
    /// `Fx55`: store `V0..=Vx` at `I` onwards.
    DumpRegisters(u8),
    /// `Fx65`: load `V0..=Vx` from `I` onwards.
    LoadRegisters(u8),
}

/// Bits 12 to 15: the opcode class.
pub open spec fn field_class(w: u16) -> u16 {
    (w >> 12u16) & 0xf
}

/// Bits 8 to 11.
pub open spec fn field_x(w: u16) -> u8 {
    ((w >> 8u16) & 0xf) as u8
}

/// Bits 4 to 7.
pub open spec fn field_y(w: u16) -> u8 {
    ((w >> 4u16) & 0xf) as u8
}

/// Bits 0 to 3.
pub open spec fn field_n(w: u16) -> u8 {
    (w & 0xf) as u8
}

/// Bits 0 to 7.
pub open spec fn field_kk(w: u16) -> u8 {
    (w & 0xff) as u8
}

/// Bits 0 to 11.
pub open spec fn field_nnn(w: u16) -> u16 {
    w & 0xfff
}

/// The instruction that a word encodes, if any.
pub open spec fn decode_spec(w: u16) -> Option<Instruction> {
    let x = field_x(w);
    let y = field_y(w);
    let kk = field_kk(w);
    let nnn = field_nnn(w);
    let n = field_n(w);
    let c = field_class(w);
    if c == 0x0 {
        if kk == 0xe0 {
            Some(Instruction::ClearScreen)
        } else if kk == 0xee {
            Some(Instruction::Return)
        } else {
            None
        }
    } else if c == 0x1 {
        Some(Instruction::Jump(nnn))
    } else if c == 0x2 {
        Some(Instruction::Call(nnn))
    } else if c == 0x3 {
        Some(Instruction::SkipEqImm(x, kk))
    } else if c == 0x4 {
        Some(Instruction::SkipNeImm(x, kk))
    } else if c == 0x5 {
        Some(Instruction::SkipEqReg(x, y))
    } else if c == 0x6 {
        Some(Instruction::LoadImm(x, kk))
    } else if c == 0x7 {
        Some(Instruction::AddImm(x, kk))
    } else if c == 0x8 {
        if n == 0x0 {
            Some(Instruction::Move(x, y))
        } else if n == 0x1 {
            Some(Instruction::Or(x, y))
        } else if n == 0x2 {
            Some(Instruction::And(x, y))
        } else if n == 0x3 {
            Some(Instruction::Xor(x, y))
        } else if n == 0x4 {
            Some(Instruction::AddReg(x, y))
        } else if n == 0x5 {
            Some(Instruction::Sub(x, y))
        } else if n == 0x6 {
            Some(Instruction::ShiftRight(x))
        } else if n == 0x7 {
            Some(Instruction::SubReverse(x, y))
        } else if n == 0xe {
            Some(Instruction::ShiftLeft(x))
        } else {
            None
        }
    } else if c == 0x9 {
        Some(Instruction::SkipNeReg(x, y))
    } else if c == 0xa {
        Some(Instruction::SetIndex(nnn))
    } else if c == 0xc {
        Some(Instruction::Random(x, kk))
    } else if c == 0xd {
        Some(Instruction::Draw(x, y, n))
    } else if c == 0xe {
        if kk == 0x9e {
            Some(Instruction::SkipKeyPressed(x))
        } else if kk == 0xa1 {
            Some(Instruction::SkipKeyNotPressed(x))
        } else {
            None
        }
    } else if c == 0xf {
        if kk == 0x07 {
            Some(Instruction::ReadDelay(x))
        } else if kk == 0x15 {
            Some(Instruction::SetDelay(x))
        } else if kk == 0x18 {
            Some(Instruction::SetSound(x))
        } else if kk == 0x1e {
            Some(Instruction::AddIndex(x))
        } else if kk == 0x29 {
            Some(Instruction::FontGlyph(x))
        } else if kk == 0x33 {
            Some(Instruction::StoreBcd(x))
        } else if kk == 0x55 {
            Some(Instruction::DumpRegisters(x))
        } else if kk == 0x65 {
            Some(Instruction::LoadRegisters(x))
        } else {
            None
        }
    } else {
        None
    }
}

/// Every operand of the instruction lies in the range its field can encode.
pub open spec fn operands_in_range(ins: Instruction) -> bool {
    match ins {
        Instruction::ClearScreen | Instruction::Return => true,
        Instruction::Jump(a) | Instruction::Call(a) | Instruction::SetIndex(a) => a < 0x1000,
        Instruction::SkipEqImm(x, _) | Instruction::SkipNeImm(x, _) | Instruction::LoadImm(x, _)
        | Instruction::AddImm(x, _) | Instruction::Random(x, _) => x < 16,
        Instruction::SkipEqReg(x, y) | Instruction::SkipNeReg(x, y) | Instruction::Move(x, y)
        | Instruction::Or(x, y) | Instruction::And(x, y) | Instruction::Xor(x, y)
        | Instruction::AddReg(x, y) | Instruction::Sub(x, y) | Instruction::SubReverse(
            x,
            y,
        ) => x < 16 && y < 16,
        Instruction::Draw(x, y, n) => x < 16 && y < 16 && n < 16,
        Instruction::ShiftRight(x) | Instruction::ShiftLeft(x) | Instruction::SkipKeyPressed(x)
        | Instruction::SkipKeyNotPressed(x) | Instruction::ReadDelay(x) | Instruction::SetDelay(x)
        | Instruction::SetSound(x) | Instruction::AddIndex(x) | Instruction::FontGlyph(x)
        | Instruction::StoreBcd(x) | Instruction::DumpRegisters(x) | Instruction::LoadRegisters(
            x,
        ) => x < 16,
    }
}

/// Every decoded instruction carries operands in range.
pub proof fn lemma_decode_in_range(w: u16)
    ensures
        decode_spec(w) matches Some(ins) ==> operands_in_range(ins),
{
    assert(((w >> 8u16) & 0xf) < 16) by (bit_vector);
    assert(((w >> 4u16) & 0xf) < 16) by (bit_vector);
    assert((w & 0xf) < 16) by (bit_vector);
    assert((w & 0xfff) < 0x1000) by (bit_vector);
}

/// Splits an instruction word into its operation and operands; `None` when
/// the word matches no instruction.
pub fn decode(w: u16) -> (r: Option<Instruction>)
    ensures
        r == decode_spec(w),
        r matches Some(ins) ==> operands_in_range(ins),
{
    proof {
        lemma_decode_in_range(w);
    }
    let x = ((w >> 8u16) & 0xf) as u8;
    let y = ((w >> 4u16) & 0xf) as u8;
    let kk = (w & 0xff) as u8;
    let nnn = w & 0xfff;
    let n = (w & 0xf) as u8;
    let c = (w >> 12u16) & 0xf;
    if c == 0x0 {
        if kk == 0xe0 {
            Some(Instruction::ClearScreen)
        } else if kk == 0xee {
            Some(Instruction::Return)
        } else {
            None
        }
    } else if c == 0x1 {
        Some(Instruction::Jump(nnn))
    } else if c == 0x2 {
        Some(Instruction::Call(nnn))
    } else if c == 0x3 {
        Some(Instruction::SkipEqImm(x, kk))
    } else if c == 0x4 {
        Some(Instruction::SkipNeImm(x, kk))
    } else if c == 0x5 {
        Some(Instruction::SkipEqReg(x, y))
    } else if c == 0x6 {
        Some(Instruction::LoadImm(x, kk))
    } else if c == 0x7 {
        Some(Instruction::AddImm(x, kk))
    } else if c == 0x8 {
        if n == 0x0 {
            Some(Instruction::Move(x, y))
        } else if n == 0x1 {
            Some(Instruction::Or(x, y))
        } else if n == 0x2 {
            Some(Instruction::And(x, y))
        } else if n == 0x3 {
            Some(Instruction::Xor(x, y))
        } else if n == 0x4 {
            Some(Instruction::AddReg(x, y))
        } else if n == 0x5 {
            Some(Instruction::Sub(x, y))
        } else if n == 0x6 {
            Some(Instruction::ShiftRight(x))
        } else if n == 0x7 {
            Some(Instruction::SubReverse(x, y))
        } else if n == 0xe {
            Some(Instruction::ShiftLeft(x))
        } else {
            None
        }
    } else if c == 0x9 {
        Some(Instruction::SkipNeReg(x, y))
    } else if c == 0xa {
        Some(Instruction::SetIndex(nnn))
    } else if c == 0xc {
        Some(Instruction::Random(x, kk))
    } else if c == 0xd {
        Some(Instruction::Draw(x, y, n))
    } else if c == 0xe {
        if kk == 0x9e {
            Some(Instruction::SkipKeyPressed(x))
        } else if kk == 0xa1 {
            Some(Instruction::SkipKeyNotPressed(x))
        } else {
            None
        }
    } else if c == 0xf {
        if kk == 0x07 {
            Some(Instruction::ReadDelay(x))
        } else if kk == 0x15 {
            Some(Instruction::SetDelay(x))
        } else if kk == 0x18 {
            Some(Instruction::SetSound(x))
        } else if kk == 0x1e {
            Some(Instruction::AddIndex(x))
        } else if kk == 0x29 {
            Some(Instruction::FontGlyph(x))
        } else if kk == 0x33 {
            Some(Instruction::StoreBcd(x))
        } else if kk == 0x55 {
            Some(Instruction::DumpRegisters(x))
        } else if kk == 0x65 {
            Some(Instruction::LoadRegisters(x))
        } else {
            None
        }
    } else {
        None
    }
}

} // verus!
