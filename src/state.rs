use vstd::prelude::*;

verus! {

/// Bytes of addressable memory.
pub const MEMORY_SIZE: usize = 4096;

/// Address at which a program image is loaded and execution starts.
pub const PROGRAM_START: usize = 0x200;

/// Framebuffer width in cells.
pub const SCREEN_WIDTH: usize = 64;

/// Framebuffer height in cells.
pub const SCREEN_HEIGHT: usize = 32;

/// Number of framebuffer cells.
pub const SCREEN_CELLS: usize = 2048;

/// Depth of the call stack.
pub const STACK_DEPTH: usize = 16;

/// Bytes per font glyph.
pub const GLYPH_BYTES: usize = 5;

/// The sixteen hexadecimal glyphs, five rows each, kept at address 0.
pub const FONT: [u8; 80] = [
    0xF0, 0x90, 0x90, 0x90, 0xF0, 0x20, 0x60, 0x20, 0x20, 0x70, 0xF0, 0x10, 0xF0, 0x80, 0xF0, 0xF0,
    0x10, 0xF0, 0x10, 0xF0, 0x90, 0x90, 0xF0, 0x10, 0x10, 0xF0, 0x80, 0xF0, 0x10, 0xF0, 0xF0, 0x80,
    0xF0, 0x90, 0xF0, 0xF0, 0x10, 0x20, 0x40, 0x40, 0xF0, 0x90, 0xF0, 0x90, 0xF0, 0xF0, 0x90, 0xF0,
    0x10, 0xF0, 0xF0, 0x90, 0xF0, 0x90, 0x90, 0xE0, 0x90, 0xE0, 0x90, 0xE0, 0xF0, 0x80, 0x80, 0x80,
    0xF0, 0xE0, 0x90, 0x90, 0x90, 0xE0, 0xF0, 0x80, 0xF0, 0x80, 0xF0, 0xF0, 0x80, 0xF0, 0x80, 0x80,
];

/// The whole machine state as mathematical values.  The framebuffer is
/// stored row by row: cell `(cx, cy)` is `video[cy * 64 + cx]`.  The call
/// stack lists the active return addresses, oldest first.
#[verifier::ext_equal]
pub struct MachineState {
    pub memory: Seq<u8>,
    pub video: Seq<bool>,
    pub stack: Seq<u16>,
    pub v: Seq<u8>,
    pub i: u16,
    pub pc: u16,
    pub dt: u8,
    pub st: u8,
    pub keys: Seq<bool>,
}

/// The sizes that every machine state keeps.
pub open spec fn state_wf(s: MachineState) -> bool {
    &&& s.memory.len() == MEMORY_SIZE
    &&& s.video.len() == SCREEN_CELLS
    &&& s.stack.len() <= STACK_DEPTH
    &&& s.v.len() == 16
    &&& s.keys.len() == 16
}

/// The state of a freshly created machine: font loaded, `pc` at the program
/// start, everything else zero.
pub open spec fn initial_state() -> MachineState {
    MachineState {
        memory: Seq::new(
            MEMORY_SIZE as nat,
            |a: int|
                if a < 80 {
                    FONT@[a]
                } else {
                    0u8
                },
        ),
        video: Seq::new(SCREEN_CELLS as nat, |c: int| false),
        stack: Seq::empty(),
        v: Seq::new(16, |r: int| 0u8),
        i: 0,
        pc: PROGRAM_START as u16,
        dt: 0,
        st: 0,
        keys: Seq::new(16, |k: int| false),
    }
}

/// Memory after copying `image` to the program area.
pub open spec fn with_image(memory: Seq<u8>, image: Seq<u8>) -> Seq<u8> {
    Seq::new(
        memory.len(),
        |a: int|
            if PROGRAM_START <= a < PROGRAM_START + image.len() {
                image[a - PROGRAM_START]
            } else {
                memory[a]
            },
    )
}

/// One step of a countdown timer: down by one, never below zero.
pub open spec fn timer_tick(t: u8) -> u8 {
    if t > 0 {
        (t - 1) as u8
    } else {
        0
    }
}

/// The instruction word at `pc`, high byte first.
pub open spec fn fetch_spec(s: MachineState) -> u16 {
    (s.memory[s.pc as int] as u16 * 256 + s.memory[s.pc + 1] as u16) as u16
}

/// Whether an instruction can be fetched at `pc`.
pub open spec fn can_fetch(s: MachineState) -> bool {
    s.pc + 1 < MEMORY_SIZE
}

} // verus!
