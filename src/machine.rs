use vstd::prelude::*;
use crate::error::Chip8Error;
use crate::instruction::{decode, operands_in_range, Instruction};
use crate::random::random_byte;
use crate::semantics::{drawn_video, execute_spec, execute_word_spec, sprite_covers, step_spec};
use crate::state::{
    can_fetch, fetch_spec, initial_state, state_wf, timer_tick, with_image, MachineState, FONT,
    GLYPH_BYTES, MEMORY_SIZE, PROGRAM_START, SCREEN_CELLS, SCREEN_HEIGHT, SCREEN_WIDTH,
    STACK_DEPTH,
};

verus! {

/// Whether `ins` is a control-flow instruction.
spec fn is_control(ins: Instruction) -> bool {
    match ins {
        Instruction::ClearScreen | Instruction::Return | Instruction::Jump(..) | Instruction::Call(..) | Instruction::SkipEqImm(..) | Instruction::SkipNeImm(..) | Instruction::SkipEqReg(..) | Instruction::SkipNeReg(..) | Instruction::SkipKeyPressed(..) | Instruction::SkipKeyNotPressed(..) => true,
        _ => false,
    }
}

/// Whether `ins` is a register computation.
spec fn is_alu(ins: Instruction) -> bool {
    match ins {
        Instruction::LoadImm(..) | Instruction::AddImm(..) | Instruction::Move(..) | Instruction::Or(..) | Instruction::And(..) | Instruction::Xor(..) | Instruction::AddReg(..) | Instruction::Sub(..) | Instruction::SubReverse(..) | Instruction::ShiftRight(..) | Instruction::ShiftLeft(..) | Instruction::Random(..) => true,
        _ => false,
    }
}

/// Whether `ins` is an index, memory, framebuffer or timer instruction.
spec fn is_data(ins: Instruction) -> bool {
    match ins {
        Instruction::SetIndex(..) | Instruction::Draw(..) | Instruction::ReadDelay(..) | Instruction::SetDelay(..) | Instruction::SetSound(..) | Instruction::AddIndex(..) | Instruction::FontGlyph(..) | Instruction::StoreBcd(..) | Instruction::DumpRegisters(..) | Instruction::LoadRegisters(..) => true,
        _ => false,
    }
}

/// A machine: memory, registers, call stack, timers, framebuffer and the
/// keypad state for the current cycle.
pub struct Emulator {
    memory: Vec<u8>,
    video: Vec<bool>,
    stack: Vec<u16>,
    v: Vec<u8>,
    i: u16,
    pc: u16,
    dt: u8,
    st: u8,
    keys: [bool; 16],
}

impl View for Emulator {
    type V = MachineState;

    closed spec fn view(&self) -> MachineState {
        MachineState {
            memory: self.memory@,
            video: self.video@,
            stack: self.stack@,
            v: self.v@,
            i: self.i,
            pc: self.pc,
            dt: self.dt,
            st: self.st,
            keys: self.keys@,
        }
    }
}

impl Emulator {
    /// The sizes of memory, framebuffer, registers, keypad and stack hold.
    pub open spec fn wf(&self) -> bool {
        state_wf(self@)
    }

    /// A machine with the font at address 0, `pc` at the program start and
    /// everything else zero.
    pub fn new() -> (r: Emulator)
        ensures
            r.wf(),
            r@ == initial_state(),
    {
        let mut memory = vec![0u8; MEMORY_SIZE];
        let mut a: usize = 0;
        while a < 80
            invariant
                a <= 80,
                memory@.len() == MEMORY_SIZE,
                forall|b: int| 0 <= b < a ==> memory@[b] == FONT@[b],
                forall|b: int| a <= b < MEMORY_SIZE ==> memory@[b] == 0u8,
            decreases 80 - a,
        {
            memory[a] = FONT[a];
            a += 1;
        }
        let r = Emulator {
            memory,
            video: vec![false; SCREEN_CELLS],
            stack: Vec::new(),
            v: vec![0u8; 16],
            i: 0,
            pc: PROGRAM_START as u16,
            dt: 0,
            st: 0,
            keys: [false; 16],
        };
        assert(r@.memory =~= initial_state().memory);
        assert(r@.video =~= initial_state().video);
        assert(r@.v =~= initial_state().v);
        assert(r@.keys =~= initial_state().keys);
        assert(r@.stack =~= initial_state().stack);
        r
    }

    /// Copies a program image to memory at the program start.  Fails with
    /// `ImageTooLarge`, changing nothing, when the image does not fit below
    /// the end of memory.
    pub fn load_rom(&mut self, image: &[u8]) -> (r: Result<(), Chip8Error>)
        requires
            old(self).wf(),
        ensures
            final(self).wf(),
            image@.len() <= MEMORY_SIZE - PROGRAM_START ==> r == Ok::<(), Chip8Error>(())
                && final(self)@ == (MachineState {
                memory: with_image(old(self)@.memory, image@),
                ..old(self)@
            }),
            image@.len() > MEMORY_SIZE - PROGRAM_START ==> r == Err::<(), Chip8Error>(
                Chip8Error::ImageTooLarge,
            ) && final(self)@ == old(self)@,
    {
        if image.len() > MEMORY_SIZE - PROGRAM_START {
            return Err(Chip8Error::ImageTooLarge);
        }
        let ghost s0 = self@;
        let ghost mem0 = self.memory@;
        let mut k: usize = 0;
        while k < image.len()
            invariant
                k <= image@.len() <= MEMORY_SIZE - PROGRAM_START,
                state_wf(s0),
                mem0 == s0.memory,
                self@ == (MachineState { memory: self.memory@, ..s0 }),
                self.memory@.len() == MEMORY_SIZE,
                forall|a: int|
                    0 <= a < MEMORY_SIZE ==> #[trigger] self.memory@[a] == (if PROGRAM_START <= a
                        < PROGRAM_START + k {
                        image@[a - PROGRAM_START]
                    } else {
                        mem0[a]
                    }),
            decreases image@.len() - k,
        {
            self.memory[PROGRAM_START + k] = image[k];
            k += 1;
        }
        assert(self.memory@ =~= with_image(mem0, image@));
        Ok(())
    }

    /// Replaces the keypad state with the sixteen key states of this cycle.
    pub fn set_keys(&mut self, keys: [bool; 16])
        requires
            old(self).wf(),
        ensures
            final(self).wf(),
            final(self)@ == (MachineState { keys: keys@, ..old(self)@ }),
    {
        self.keys = keys;
    }

    /// One tick of the fixed-rate clock: each nonzero timer goes down by one.
    pub fn tick_timers(&mut self)
        requires
            old(self).wf(),
        ensures
            final(self).wf(),
            final(self)@ == (MachineState {
                dt: timer_tick(old(self)@.dt),
                st: timer_tick(old(self)@.st),
                ..old(self)@
            }),
    {
        if self.dt > 0 {
            self.dt = self.dt - 1;
        }
        if self.st > 0 {
            self.st = self.st - 1;
        }
    }

    /// Reads the instruction word at `pc`, high byte first; `MemoryFault`
    /// when `pc + 1` lies beyond memory.
    pub fn fetch(&self) -> (r: Result<u16, Chip8Error>)
        requires
            self.wf(),
        ensures
            can_fetch(self@) ==> r == Ok::<u16, Chip8Error>(fetch_spec(self@)),
            !can_fetch(self@) ==> r == Err::<u16, Chip8Error>(Chip8Error::MemoryFault),
    {
        if self.pc as usize + 1 >= MEMORY_SIZE {
            return Err(Chip8Error::MemoryFault);
        }
        let hi = self.memory[self.pc as usize] as u16;
        let lo = self.memory[self.pc as usize + 1] as u16;
        Ok(hi * 256 + lo)
    }

    /// The draw instruction once `I + n` is known to lie within memory.
    fn draw(&mut self, x: u8, y: u8, n: u8)
        requires
            old(self).wf(),
            x < 16,
            y < 16,
            n < 16,
            old(self)@.pc < MEMORY_SIZE,
            old(self)@.i + n <= MEMORY_SIZE,
        ensures
            execute_spec(old(self)@, Instruction::Draw(x, y, n), 0) == Ok::<
                MachineState,
                Chip8Error,
            >(final(self)@),
            final(self).wf(),
    {
        let ghost s0 = self@;
        let x0 = self.v[x as usize] % (SCREEN_WIDTH as u8);
        let y0 = self.v[y as usize] % (SCREEN_HEIGHT as u8);
        let base = self.i as usize;
        let mut collision = false;
        let mut c: usize = 0;
        while c < SCREEN_CELLS
            invariant
                c <= SCREEN_CELLS,
                state_wf(s0),
                base == s0.i,
                base + n <= MEMORY_SIZE,
                x0 < 64,
                y0 < 32,
                self@ == (MachineState { video: self.video@, ..s0 }),
                self.video@.len() == SCREEN_CELLS,
                forall|d: int|
                    0 <= d < SCREEN_CELLS ==> #[trigger] self.video@[d] == if d < c {
                        s0.video[d] != sprite_covers(s0.memory, base as int, n as int, x0 as int, y0 as int, d)
                    } else {
                        s0.video[d]
                    },
                collision == exists|d: int|
                    0 <= d < c && #[trigger] sprite_covers(s0.memory, base as int, n as int, x0 as int, y0 as int, d)
                        && s0.video[d],
            decreases SCREEN_CELLS - c,
        {
            let col = (c % SCREEN_WIDTH + SCREEN_WIDTH - x0 as usize) % SCREEN_WIDTH;
            let row = (c / SCREEN_WIDTH + SCREEN_HEIGHT - y0 as usize) % SCREEN_HEIGHT;
            let ghost covers = sprite_covers(s0.memory, base as int, n as int, x0 as int, y0 as int, c as int);
            if row < n as usize && col < 8 {
                let bits = self.memory[base + row];
                if (bits >> ((7 - col) as u8)) & 1u8 == 1u8 {
                    assert(covers);
                    if self.video[c] {
                        collision = true;
                    }
                    let lit = self.video[c];
                    self.video[c] = !lit;
                } else {
                    assert(!covers);
                }
            } else {
                assert(!covers);
            }
            c += 1;
        }
        self.v[15] = if collision {
            1
        } else {
            0
        };
        assert(self.video@ =~= drawn_video(s0, n as int, x0 as int, y0 as int));
        self.pc = self.pc + 2;
    }

    /// Writes `V0..=Vx` to memory from `I` on, once `I + x` is known to lie
    /// within memory.
    fn dump_registers(&mut self, x: u8)
        requires
            old(self).wf(),
            x < 16,
            old(self)@.pc < MEMORY_SIZE,
            old(self)@.i + x < MEMORY_SIZE,
        ensures
            execute_spec(old(self)@, Instruction::DumpRegisters(x), 0) == Ok::<
                MachineState,
                Chip8Error,
            >(final(self)@),
            final(self).wf(),
    {
        let ghost s0 = self@;
        let base = self.i as usize;
        let mut k: usize = 0;
        while k <= x as usize
            invariant
                k <= x + 1,
                x < 16,
                state_wf(s0),
                base == s0.i,
                base + x < MEMORY_SIZE,
                self@ == (MachineState { memory: self.memory@, ..s0 }),
                self.memory@.len() == MEMORY_SIZE,
                forall|a: int|
                    0 <= a < MEMORY_SIZE ==> #[trigger] self.memory@[a] == if base <= a < base
                        + k {
                        s0.v[a - base]
                    } else {
                        s0.memory[a]
                    },
            decreases x + 1 - k,
        {
            self.memory[base + k] = self.v[k];
            k += 1;
        }
        assert(self.memory@ =~= execute_spec(s0, Instruction::DumpRegisters(x), 0)->Ok_0.memory);
        self.pc = self.pc + 2;
    }

    /// Reads `V0..=Vx` from memory from `I` on, once `I + x` is known to lie
    /// within memory.
    fn load_registers(&mut self, x: u8)
        requires
            old(self).wf(),
            x < 16,
            old(self)@.pc < MEMORY_SIZE,
            old(self)@.i + x < MEMORY_SIZE,
        ensures
            execute_spec(old(self)@, Instruction::LoadRegisters(x), 0) == Ok::<
                MachineState,
                Chip8Error,
            >(final(self)@),
            final(self).wf(),
    {
        let ghost s0 = self@;
        let base = self.i as usize;
        let mut k: usize = 0;
        while k <= x as usize
            invariant
                k <= x + 1,
                x < 16,
                state_wf(s0),
                base == s0.i,
                base + x < MEMORY_SIZE,
                self@ == (MachineState { v: self.v@, ..s0 }),
                self.v@.len() == 16,
                forall|r: int|
                    0 <= r < 16 ==> #[trigger] self.v@[r] == if r < k {
                        s0.memory[base + r]
                    } else {
                        s0.v[r]
                    },
            decreases x + 1 - k,
        {
            self.v[k] = self.memory[base + k];
            k += 1;
        }
        assert(self.v@ =~= execute_spec(s0, Instruction::LoadRegisters(x), 0)->Ok_0.v);
        self.pc = self.pc + 2;
    }

    /// Executes a control-flow instruction: clear, return, jump, call or a skip.
    fn exec_control(&mut self, ins: Instruction, rnd: u8) -> (r: Result<(), Chip8Error>)
        requires
            old(self).wf(),
            operands_in_range(ins),
            is_control(ins),
            old(self)@.pc < MEMORY_SIZE,
        ensures
            final(self).wf(),
            match execute_spec(old(self)@, ins, rnd) {
                Ok(s) => r == Ok::<(), Chip8Error>(()) && final(self)@ == s,
                Err(e) => r == Err::<(), Chip8Error>(e) && final(self)@ == old(self)@,
            },
    {
        let ghost s0 = self@;
        let next = self.pc + 2;
        match ins {
            Instruction::ClearScreen => {
                let mut c: usize = 0;
                while c < SCREEN_CELLS
                    invariant
                        c <= SCREEN_CELLS,
                        state_wf(s0),
                        self@ == (MachineState { video: self.video@, ..s0 }),
                        self.video@.len() == SCREEN_CELLS,
                        forall|d: int| 0 <= d < c ==> !#[trigger] self.video@[d],
                    decreases SCREEN_CELLS - c,
                {
                    self.video[c] = false;
                    c += 1;
                }
                assert(self.video@ =~= Seq::new(SCREEN_CELLS as nat, |d: int| false));
                self.pc = next;
                assert(self@ =~= execute_spec(s0, ins, rnd)->Ok_0);
            },
            Instruction::Return => {
                match self.stack.pop() {
                    Some(a) => {
                        self.pc = a;
                    },
                    None => {
                        return Err(Chip8Error::StackUnderflow);
                    },
                }
                assert(self@ =~= execute_spec(s0, ins, rnd)->Ok_0);
            },
            Instruction::Jump(nnn) => {
                self.pc = nnn;
                assert(self@ =~= execute_spec(s0, ins, rnd)->Ok_0);
            },
            Instruction::Call(nnn) => {
                if self.stack.len() >= STACK_DEPTH {
                    return Err(Chip8Error::StackOverflow);
                }
                self.stack.push(next);
                self.pc = nnn;
                assert(self@ =~= execute_spec(s0, ins, rnd)->Ok_0);
            },
            Instruction::SkipEqImm(x, kk) => {
                self.pc = if self.v[x as usize] == kk {
                    next + 2
                } else {
                    next
                };
                assert(self@ =~= execute_spec(s0, ins, rnd)->Ok_0);
            },
            Instruction::SkipNeImm(x, kk) => {
                self.pc = if self.v[x as usize] != kk {
                    next + 2
                } else {
                    next
                };
                assert(self@ =~= execute_spec(s0, ins, rnd)->Ok_0);
            },
            Instruction::SkipEqReg(x, y) => {
                self.pc = if self.v[x as usize] == self.v[y as usize] {
                    next + 2
                } else {
                    next
                };
                assert(self@ =~= execute_spec(s0, ins, rnd)->Ok_0);
            },
            Instruction::SkipNeReg(x, y) => {
                self.pc = if self.v[x as usize] != self.v[y as usize] {
                    next + 2
                } else {
                    next
                };
                assert(self@ =~= execute_spec(s0, ins, rnd)->Ok_0);
            },
            Instruction::SkipKeyPressed(x) => {
                self.pc = if self.keys[(self.v[x as usize] % 16) as usize] {
                    next + 2
                } else {
                    next
                };
                assert(self@ =~= execute_spec(s0, ins, rnd)->Ok_0);
            },
            Instruction::SkipKeyNotPressed(x) => {
                self.pc = if !self.keys[(self.v[x as usize] % 16) as usize] {
                    next + 2
                } else {
                    next
                };
                assert(self@ =~= execute_spec(s0, ins, rnd)->Ok_0);
            },
            _ => {},
        }
        Ok(())
    }

    /// Executes an instruction that computes a register from registers, an immediate or the random byte.
    fn exec_alu(&mut self, ins: Instruction, rnd: u8) -> (r: Result<(), Chip8Error>)
        requires
            old(self).wf(),
            operands_in_range(ins),
            is_alu(ins),
            old(self)@.pc < MEMORY_SIZE,
        ensures
            final(self).wf(),
            match execute_spec(old(self)@, ins, rnd) {
                Ok(s) => r == Ok::<(), Chip8Error>(()) && final(self)@ == s,
                Err(e) => r == Err::<(), Chip8Error>(e) && final(self)@ == old(self)@,
            },
    {
        let ghost s0 = self@;
        let next = self.pc + 2;
        match ins {
            Instruction::LoadImm(x, kk) => {
                self.v[x as usize] = kk;
                self.pc = next;
                assert(self@ =~= execute_spec(s0, ins, rnd)->Ok_0);
            },
            Instruction::AddImm(x, kk) => {
                let a = self.v[x as usize];
                self.v[x as usize] = ((a as u16 + kk as u16) % 256) as u8;
                self.pc = next;
                assert(self@ =~= execute_spec(s0, ins, rnd)->Ok_0);
            },
            Instruction::Move(x, y) => {
                self.v[x as usize] = self.v[y as usize];
                self.pc = next;
                assert(self@ =~= execute_spec(s0, ins, rnd)->Ok_0);
            },
            Instruction::Or(x, y) => {
                self.v[x as usize] = self.v[x as usize] | self.v[y as usize];
                self.pc = next;
                assert(self@ =~= execute_spec(s0, ins, rnd)->Ok_0);
            },
            Instruction::And(x, y) => {
                self.v[x as usize] = self.v[x as usize] & self.v[y as usize];
                self.pc = next;
                assert(self@ =~= execute_spec(s0, ins, rnd)->Ok_0);
            },
            Instruction::Xor(x, y) => {
                self.v[x as usize] = self.v[x as usize] ^ self.v[y as usize];
                self.pc = next;
                assert(self@ =~= execute_spec(s0, ins, rnd)->Ok_0);
            },
            Instruction::AddReg(x, y) => {
                let sum = self.v[x as usize] as u16 + self.v[y as usize] as u16;
                self.v[x as usize] = (sum % 256) as u8;
                self.v[15] = if sum > 255 {
                    1
                } else {
                    0
                };
                self.pc = next;
                assert(self@ =~= execute_spec(s0, ins, rnd)->Ok_0);
            },
            Instruction::Sub(x, y) => {
                let a = self.v[x as usize];
                let b = self.v[y as usize];
                self.v[x as usize] = ((a as u16 + 256 - b as u16) % 256) as u8;
                self.v[15] = if a > b {
                    1
                } else {
                    0
                };
                self.pc = next;
                assert(self@ =~= execute_spec(s0, ins, rnd)->Ok_0);
            },
            Instruction::SubReverse(x, y) => {
                let a = self.v[x as usize];
                let b = self.v[y as usize];
                self.v[x as usize] = ((b as u16 + 256 - a as u16) % 256) as u8;
                self.v[15] = if b > a {
                    1
                } else {
                    0
                };
                self.pc = next;
                assert(self@ =~= execute_spec(s0, ins, rnd)->Ok_0);
            },
            Instruction::ShiftRight(x) => {
                let a = self.v[x as usize];
                self.v[x as usize] = a / 2;
                self.v[15] = if a % 2 == 1 {
                    1
                } else {
                    0
                };
                self.pc = next;
                assert(self@ =~= execute_spec(s0, ins, rnd)->Ok_0);
            },
            Instruction::ShiftLeft(x) => {
                let a = self.v[x as usize];
                self.v[x as usize] = ((a as u16 * 2) % 256) as u8;
                self.v[15] = if a >= 128 {
                    1
                } else {
                    0
                };
                self.pc = next;
                assert(self@ =~= execute_spec(s0, ins, rnd)->Ok_0);
            },
            Instruction::Random(x, kk) => {
                self.v[x as usize] = rnd & kk;
                self.pc = next;
                assert(self@ =~= execute_spec(s0, ins, rnd)->Ok_0);
            },
            _ => {},
        }
        Ok(())
    }

    /// Executes an instruction on the index register, memory, the framebuffer or the timers.
    fn exec_data(&mut self, ins: Instruction, rnd: u8) -> (r: Result<(), Chip8Error>)
        requires
            old(self).wf(),
            operands_in_range(ins),
            is_data(ins),
            old(self)@.pc < MEMORY_SIZE,
        ensures
            final(self).wf(),
            match execute_spec(old(self)@, ins, rnd) {
                Ok(s) => r == Ok::<(), Chip8Error>(()) && final(self)@ == s,
                Err(e) => r == Err::<(), Chip8Error>(e) && final(self)@ == old(self)@,
            },
    {
        let ghost s0 = self@;
        let next = self.pc + 2;
        match ins {
            Instruction::SetIndex(nnn) => {
                self.i = nnn;
                self.pc = next;
                assert(self@ =~= execute_spec(s0, ins, rnd)->Ok_0);
            },
            Instruction::Draw(x, y, n) => {
                if self.i as usize + n as usize > MEMORY_SIZE {
                    return Err(Chip8Error::MemoryFault);
                }
                self.draw(x, y, n);
                assert(self@ =~= execute_spec(s0, ins, rnd)->Ok_0);
            },
            Instruction::ReadDelay(x) => {
                self.v[x as usize] = self.dt;
                self.pc = next;
                assert(self@ =~= execute_spec(s0, ins, rnd)->Ok_0);
            },
            Instruction::SetDelay(x) => {
                self.dt = self.v[x as usize];
                self.pc = next;
                assert(self@ =~= execute_spec(s0, ins, rnd)->Ok_0);
            },
            Instruction::SetSound(x) => {
                self.st = self.v[x as usize];
                self.pc = next;
                assert(self@ =~= execute_spec(s0, ins, rnd)->Ok_0);
            },
            Instruction::AddIndex(x) => {
                self.i = ((self.i as u32 + self.v[x as usize] as u32) % 65536) as u16;
                self.pc = next;
                assert(self@ =~= execute_spec(s0, ins, rnd)->Ok_0);
            },
            Instruction::FontGlyph(x) => {
                self.i = ((self.v[x as usize] % 16) as u16) * (GLYPH_BYTES as u16);
                self.pc = next;
                assert(self@ =~= execute_spec(s0, ins, rnd)->Ok_0);
            },
            Instruction::StoreBcd(x) => {
                if self.i as usize + 2 >= MEMORY_SIZE {
                    return Err(Chip8Error::MemoryFault);
                }
                let val = self.v[x as usize];
                let base = self.i as usize;
                self.memory[base] = val / 100;
                self.memory[base + 1] = (val / 10) % 10;
                self.memory[base + 2] = val % 10;
                self.pc = next;
                assert(self@ =~= execute_spec(s0, ins, rnd)->Ok_0);
            },
            Instruction::DumpRegisters(x) => {
                if self.i as usize + x as usize >= MEMORY_SIZE {
                    return Err(Chip8Error::MemoryFault);
                }
                self.dump_registers(x);
                assert(self@ =~= execute_spec(s0, ins, rnd)->Ok_0);
            },
            Instruction::LoadRegisters(x) => {
                if self.i as usize + x as usize >= MEMORY_SIZE {
                    return Err(Chip8Error::MemoryFault);
                }
                self.load_registers(x);
                assert(self@ =~= execute_spec(s0, ins, rnd)->Ok_0);
            },
            _ => {},
        }
        Ok(())
    }

    /// Executes one decoded instruction fetched from `pc`, with `rnd` as the
    /// byte of the random source.  On failure nothing changes.
    fn execute(&mut self, ins: Instruction, rnd: u8) -> (r: Result<(), Chip8Error>)
        requires
            old(self).wf(),
            operands_in_range(ins),
            old(self)@.pc < MEMORY_SIZE,
        ensures
            final(self).wf(),
            match execute_spec(old(self)@, ins, rnd) {
                Ok(s) => r == Ok::<(), Chip8Error>(()) && final(self)@ == s,
                Err(e) => r == Err::<(), Chip8Error>(e) && final(self)@ == old(self)@,
            },
    {
        match ins {
            Instruction::ClearScreen | Instruction::Return | Instruction::Jump(_) | Instruction::Call(
                _,
            ) | Instruction::SkipEqImm(..) | Instruction::SkipNeImm(..) | Instruction::SkipEqReg(..)
            | Instruction::SkipNeReg(..) | Instruction::SkipKeyPressed(_)
            | Instruction::SkipKeyNotPressed(_) => self.exec_control(ins, rnd),
            Instruction::LoadImm(..) | Instruction::AddImm(..) | Instruction::Move(..)
            | Instruction::Or(..) | Instruction::And(..) | Instruction::Xor(..) | Instruction::AddReg(
                ..,
            ) | Instruction::Sub(..) | Instruction::SubReverse(..) | Instruction::ShiftRight(_)
            | Instruction::ShiftLeft(_) | Instruction::Random(..) => self.exec_alu(ins, rnd),
            _ => self.exec_data(ins, rnd),
        }
    }

    /// Decodes and executes one instruction word fetched from `pc`;
    /// `UnsupportedOpcode` carrying the word, with nothing changed, when it
    /// decodes to no instruction.
    fn execute_word(&mut self, w: u16, rnd: u8) -> (r: Result<(), Chip8Error>)
        requires
            old(self).wf(),
            old(self)@.pc < MEMORY_SIZE,
        ensures
            final(self).wf(),
            match execute_word_spec(old(self)@, w, rnd) {
                Ok(s) => r == Ok::<(), Chip8Error>(()) && final(self)@ == s,
                Err(e) => r == Err::<(), Chip8Error>(e) && final(self)@ == old(self)@,
            },
    {
        match decode(w) {
            Some(ins) => self.execute(ins, rnd),
            None => Err(Chip8Error::UnsupportedOpcode(w)),
        }
    }

    /// One engine cycle with `rnd` as the byte of the random source: fetch
    /// the word at `pc`, decode it and execute it.  On failure the state is
    /// left as it was and the error says why.
    pub fn step_with_byte(&mut self, rnd: u8) -> (r: Result<(), Chip8Error>)
        requires
            old(self).wf(),
        ensures
            final(self).wf(),
            match step_spec(old(self)@, rnd) {
                Ok(s) => r == Ok::<(), Chip8Error>(()) && final(self)@ == s,
                Err(e) => r == Err::<(), Chip8Error>(e) && final(self)@ == old(self)@,
            },
    {
        match self.fetch() {
            Ok(w) => self.execute_word(w, rnd),
            Err(e) => Err(e),
        }
    }

    /// One engine cycle, drawing the byte for a random instruction from the
    /// random source.  The outcome is that of `step_with_byte` for some byte.
    pub fn step(&mut self) -> (r: Result<(), Chip8Error>)
        requires
            old(self).wf(),
        ensures
            final(self).wf(),
            exists|b: u8|
                match #[trigger] step_spec(old(self)@, b) {
                    Ok(s) => r == Ok::<(), Chip8Error>(()) && final(self)@ == s,
                    Err(e) => r == Err::<(), Chip8Error>(e) && final(self)@ == old(self)@,
                },
    {
        let b = random_byte();
        let r = self.step_with_byte(b);
        assert(match step_spec(old(self)@, b) {
            Ok(s) => r == Ok::<(), Chip8Error>(()) && self@ == s,
            Err(e) => r == Err::<(), Chip8Error>(e) && self@ == old(self)@,
        });
        r
    }

    /// Register `Vx`.
    pub fn register(&self, x: u8) -> (r: u8)
        requires
            self.wf(),
            x < 16,
        ensures
            r == self@.v[x as int],
    {
        self.v[x as usize]
    }

    /// The index register `I`.
    pub fn index(&self) -> (r: u16)
        ensures
            r == self@.i,
    {
        self.i
    }

    /// The program counter.
    pub fn pc(&self) -> (r: u16)
        ensures
            r == self@.pc,
    {
        self.pc
    }

    /// The delay timer.
    pub fn delay_timer(&self) -> (r: u8)
        ensures
            r == self@.dt,
    {
        self.dt
    }

    /// The sound timer; a tone should sound while it is nonzero.
    pub fn sound_timer(&self) -> (r: u8)
        ensures
            r == self@.st,
    {
        self.st
    }

    /// The number of active call frames.
    pub fn stack_depth(&self) -> (r: usize)
        ensures
            r == self@.stack.len(),
    {
        self.stack.len()
    }

    /// The byte at address `a`.
    pub fn memory_at(&self, a: usize) -> (r: u8)
        requires
            self.wf(),
            a < MEMORY_SIZE,
        ensures
            r == self@.memory[a as int],
    {
        self.memory[a]
    }

    /// Whether the cell at column `cx`, row `cy` is lit.
    pub fn pixel(&self, cx: usize, cy: usize) -> (r: bool)
        requires
            self.wf(),
            cx < SCREEN_WIDTH,
            cy < SCREEN_HEIGHT,
        ensures
            r == self@.video[cy * SCREEN_WIDTH + cx],
    {
        self.video[cy * SCREEN_WIDTH + cx]
    }

    /// The framebuffer, row by row, for presentation.
    pub fn framebuffer(&self) -> (r: &[bool])
        ensures
            r@ == self@.video,
    {
        self.video.as_slice()
    }

} // impl Emulator

} // verus!
