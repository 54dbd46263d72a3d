use vstd::prelude::*;
use crate::error::Chip8Error;
use crate::instruction::{decode_spec, Instruction};
use crate::state::{
    can_fetch, fetch_spec, MachineState, GLYPH_BYTES, MEMORY_SIZE, SCREEN_CELLS, SCREEN_HEIGHT,
    SCREEN_WIDTH, STACK_DEPTH,
};

verus! {

/// The flag value for a condition: 1 when it holds, 0 otherwise.
pub open spec fn flag(b: bool) -> u8 {
    if b {
        1
    } else {
        0
    }
}

/// Bit `col` of a sprite row, counted from the most significant bit.
pub open spec fn sprite_bit(row: u8, col: int) -> bool {
    (row >> ((7 - col) as u8)) & 1u8 == 1u8
}

/// Whether the sprite of `n` rows at `i`, placed with its top-left corner at
/// column `x0`, row `y0` (each already reduced to the screen), has a set bit
/// over cell `c`.  The cell's offset into the sprite is measured with
/// wraparound: `(cx - x0) mod 64` across and `(cy - y0) mod 32` down.  A
/// sprite is at most 15 rows by 8 columns, so no two of its bits fall on one
/// cell.
pub open spec fn sprite_covers(mem: Seq<u8>, i: int, n: int, x0: int, y0: int, c: int) -> bool {
    let col = (c % 64 + 64 - x0) % 64;
    let row = (c / 64 + 32 - y0) % 32;
    row < n && col < 8 && sprite_bit(mem[i + row], col)
}

/// The framebuffer after XOR-ing the sprite in.
pub open spec fn drawn_video(s: MachineState, n: int, x0: int, y0: int) -> Seq<bool> {
    Seq::new(
        SCREEN_CELLS as nat,
        |c: int| s.video[c] != sprite_covers(s.memory, s.i as int, n, x0, y0, c),
    )
}

/// Whether drawing the sprite turns some lit cell off.
pub open spec fn draw_collides(s: MachineState, n: int, x0: int, y0: int) -> bool {
    exists|c: int|
        0 <= c < SCREEN_CELLS && #[trigger] sprite_covers(s.memory, s.i as int, n, x0, y0, c)
            && s.video[c]
}

/// The next state after a skip instruction: over the next instruction when
/// `cond` holds.
pub open spec fn skip_if(s: MachineState, cond: bool) -> MachineState {
    MachineState { pc: (if cond { s.pc + 4 } else { s.pc + 2 }) as u16, ..s }
}

/// `s` with `Vx = val` and the program counter advanced.
pub open spec fn set_reg(s: MachineState, x: u8, val: u8) -> MachineState {
    MachineState { v: s.v.update(x as int, val), pc: (s.pc + 2) as u16, ..s }
}

/// `s` with `Vx = val`, then `VF = f`, and the program counter advanced.
pub open spec fn set_reg_flag(s: MachineState, x: u8, val: u8, f: bool) -> MachineState {
    MachineState {
        v: s.v.update(x as int, val).update(15, flag(f)),
        pc: (s.pc + 2) as u16,
        ..s
    }
}

/// The decimal digit of `val` at `place` (0 = hundreds, 1 = tens, 2 = ones).
pub open spec fn bcd_digit(val: u8, place: int) -> u8 {
    if place == 0 {
        val / 100
    } else if place == 1 {
        (val / 10) % 10
    } else {
        val % 10
    }
}

/// The result of executing `ins` on `s`, where `s.pc` is the address the
/// instruction was fetched from and `rnd` is the byte the random source
/// supplies.  On failure the state is left as it was.
pub open spec fn execute_spec(s: MachineState, ins: Instruction, rnd: u8) -> Result<
    MachineState,
    Chip8Error,
> {
    let next = (s.pc + 2) as u16;
    match ins {
        Instruction::ClearScreen => Ok(
            MachineState { video: Seq::new(SCREEN_CELLS as nat, |c: int| false), pc: next, ..s },
        ),
        Instruction::Return => if s.stack.len() == 0 {
            Err(Chip8Error::StackUnderflow)
        } else {
            Ok(MachineState { pc: s.stack.last(), stack: s.stack.drop_last(), ..s })
        },
        Instruction::Jump(nnn) => Ok(MachineState { pc: nnn, ..s }),
        Instruction::Call(nnn) => if s.stack.len() >= STACK_DEPTH {
            Err(Chip8Error::StackOverflow)
        } else {
            Ok(MachineState { pc: nnn, stack: s.stack.push(next), ..s })
        },
        Instruction::SkipEqImm(x, kk) => Ok(skip_if(s, s.v[x as int] == kk)),
        Instruction::SkipNeImm(x, kk) => Ok(skip_if(s, s.v[x as int] != kk)),
        Instruction::SkipEqReg(x, y) => Ok(skip_if(s, s.v[x as int] == s.v[y as int])),
        Instruction::SkipNeReg(x, y) => Ok(skip_if(s, s.v[x as int] != s.v[y as int])),
        Instruction::LoadImm(x, kk) => Ok(set_reg(s, x, kk)),
        Instruction::AddImm(x, kk) => Ok(set_reg(s, x, ((s.v[x as int] + kk) % 256) as u8)),
        Instruction::Move(x, y) => Ok(set_reg(s, x, s.v[y as int])),
        Instruction::Or(x, y) => Ok(set_reg(s, x, s.v[x as int] | s.v[y as int])),
        Instruction::And(x, y) => Ok(set_reg(s, x, s.v[x as int] & s.v[y as int])),
        Instruction::Xor(x, y) => Ok(set_reg(s, x, s.v[x as int] ^ s.v[y as int])),
        Instruction::AddReg(x, y) => {
            let sum = s.v[x as int] + s.v[y as int];
            Ok(set_reg_flag(s, x, (sum % 256) as u8, sum > 255))
        },
        Instruction::Sub(x, y) => {
            let a = s.v[x as int];
            let b = s.v[y as int];
            Ok(set_reg_flag(s, x, ((a - b) % 256) as u8, a > b))
        },
        Instruction::SubReverse(x, y) => {
            let a = s.v[x as int];
            let b = s.v[y as int];
            Ok(set_reg_flag(s, x, ((b - a) % 256) as u8, b > a))
        },
        Instruction::ShiftRight(x) => {
            let a = s.v[x as int];
            Ok(set_reg_flag(s, x, a / 2, a % 2 == 1))
        },
        Instruction::ShiftLeft(x) => {
            let a = s.v[x as int];
            Ok(set_reg_flag(s, x, ((a * 2) % 256) as u8, a >= 128))
        },
        Instruction::SetIndex(nnn) => Ok(MachineState { i: nnn, pc: next, ..s }),
        Instruction::Random(x, kk) => Ok(set_reg(s, x, rnd & kk)),
        Instruction::Draw(x, y, n) => if s.i + n > MEMORY_SIZE {
            Err(Chip8Error::MemoryFault)
        } else {
            let x0 = s.v[x as int] % (SCREEN_WIDTH as u8);
            let y0 = s.v[y as int] % (SCREEN_HEIGHT as u8);
            Ok(
                MachineState {
                    video: drawn_video(s, n as int, x0 as int, y0 as int),
                    v: s.v.update(15, flag(draw_collides(s, n as int, x0 as int, y0 as int))),
                    pc: next,
                    ..s
                },
            )
        },
        Instruction::SkipKeyPressed(x) => Ok(skip_if(s, s.keys[(s.v[x as int] % 16) as int])),
        Instruction::SkipKeyNotPressed(x) => Ok(skip_if(s, !s.keys[(s.v[x as int] % 16) as int])),
        Instruction::ReadDelay(x) => Ok(set_reg(s, x, s.dt)),
        Instruction::SetDelay(x) => Ok(MachineState { dt: s.v[x as int], pc: next, ..s }),
        Instruction::SetSound(x) => Ok(MachineState { st: s.v[x as int], pc: next, ..s }),
        Instruction::AddIndex(x) => Ok(
            MachineState { i: ((s.i + s.v[x as int]) % 65536) as u16, pc: next, ..s },
        ),
        Instruction::FontGlyph(x) => Ok(
            MachineState { i: ((s.v[x as int] % 16) * GLYPH_BYTES) as u16, pc: next, ..s },
        ),
        Instruction::StoreBcd(x) => if s.i + 2 >= MEMORY_SIZE {
            Err(Chip8Error::MemoryFault)
        } else {
            let val = s.v[x as int];
            Ok(
                MachineState {
                    memory: s.memory.update(s.i as int, bcd_digit(val, 0)).update(
                        s.i + 1,
                        bcd_digit(val, 1),
                    ).update(s.i + 2, bcd_digit(val, 2)),
                    pc: next,
                    ..s
                },
            )
        },
        Instruction::DumpRegisters(x) => if s.i + x >= MEMORY_SIZE {
            Err(Chip8Error::MemoryFault)
        } else {
            Ok(
                MachineState {
                    memory: Seq::new(
                        s.memory.len(),
                        |a: int|
                            if s.i <= a <= s.i + x {
                                s.v[a - s.i]
                            } else {
                                s.memory[a]
                            },
                    ),
                    pc: next,
                    ..s
                },
            )
        },
        Instruction::LoadRegisters(x) => if s.i + x >= MEMORY_SIZE {
            Err(Chip8Error::MemoryFault)
        } else {
            Ok(
                MachineState {
                    v: Seq::new(
                        16,
                        |r: int|
                            if r <= x {
                                s.memory[s.i + r]
                            } else {
                                s.v[r]
                            },
                    ),
                    pc: next,
                    ..s
                },
            )
        },
    }
}

/// The result of executing an instruction word: the decoded instruction, or
/// `UnsupportedOpcode` carrying the word when it decodes to none.
pub open spec fn execute_word_spec(s: MachineState, w: u16, rnd: u8) -> Result<
    MachineState,
    Chip8Error,
> {
    match decode_spec(w) {
        Some(ins) => execute_spec(s, ins, rnd),
        None => Err(Chip8Error::UnsupportedOpcode(w)),
    }
}

/// The result of one engine cycle: fetch at `pc`, then execute.
pub open spec fn step_spec(s: MachineState, rnd: u8) -> Result<MachineState, Chip8Error> {
    if !can_fetch(s) {
        Err(Chip8Error::MemoryFault)
    } else {
        execute_word_spec(s, fetch_spec(s), rnd)
    }
}

} // verus!
