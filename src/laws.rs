use vstd::prelude::*;
use crate::error::Chip8Error;
use crate::instruction::{decode_spec, Instruction};
use crate::semantics::{bcd_digit, execute_spec, flag, sprite_covers, step_spec};
use crate::state::{can_fetch, fetch_spec, state_wf, timer_tick, MachineState, MEMORY_SIZE, SCREEN_CELLS, STACK_DEPTH};

verus! {

/// Loading an immediate into `Vx` leaves exactly that value in `Vx`.
pub proof fn lemma_load_immediate(s: MachineState, x: u8, kk: u8, rnd: u8)
    requires
        state_wf(s),
        x < 16,
    ensures
        execute_spec(s, Instruction::LoadImm(x, kk), rnd) is Ok,
        execute_spec(s, Instruction::LoadImm(x, kk), rnd)->Ok_0.v[x as int] == kk,
{
}

/// Adding registers leaves the 8-bit wrapped sum in `Vx` and sets `VF` to 1
/// exactly when the true sum exceeds 255.  When `x` is 15 the flag is what
/// remains in `VF`.
pub proof fn lemma_add_registers(s: MachineState, x: u8, y: u8, rnd: u8)
    requires
        state_wf(s),
        x < 16,
        y < 16,
    ensures
        ({
            let a = s.v[x as int];
            let b = s.v[y as int];
            let r = execute_spec(s, Instruction::AddReg(x, y), rnd);
            &&& r is Ok
            &&& r->Ok_0.v[15] == flag(a + b > 255)
            &&& x != 15 ==> r->Ok_0.v[x as int] == (a + b) % 256
        }),
{
}

/// Subtracting `Vy` from `Vx` leaves the wrapped difference in `Vx` and sets
/// `VF` to 1 exactly when `Vx > Vy` before the subtraction.  When `x` is 15
/// the flag is what remains in `VF`.
pub proof fn lemma_subtract_registers(s: MachineState, x: u8, y: u8, rnd: u8)
    requires
        state_wf(s),
        x < 16,
        y < 16,
    ensures
        ({
            let a = s.v[x as int];
            let b = s.v[y as int];
            let r = execute_spec(s, Instruction::Sub(x, y), rnd);
            &&& r is Ok
            &&& r->Ok_0.v[15] == flag(a > b)
            &&& x != 15 ==> r->Ok_0.v[x as int] == (a - b) % 256
        }),
{
}

/// Drawing the same sprite twice in a row restores the framebuffer, and the
/// second draw reports a collision exactly when some cell under a set sprite
/// bit was unlit before the first draw.  The coordinates must not come from
/// `VF`, which the first draw overwrites.
pub proof fn lemma_draw_twice(s: MachineState, x: u8, y: u8, n: u8, rnd: u8)
    requires
        state_wf(s),
        x < 15,
        y < 15,
        n < 16,
        s.i + n <= MEMORY_SIZE,
    ensures
        ({
            let ins = Instruction::Draw(x, y, n);
            let r1 = execute_spec(s, ins, rnd);
            let r2 = execute_spec(r1->Ok_0, ins, rnd);
            let x0 = s.v[x as int] % 64;
            let y0 = s.v[y as int] % 32;
            &&& r1 is Ok
            &&& r2 is Ok
            &&& r2->Ok_0.video == s.video
            &&& r2->Ok_0.v[15] == flag(
                exists|c: int|
                    0 <= c < SCREEN_CELLS && #[trigger] sprite_covers(
                        s.memory,
                        s.i as int,
                        n as int,
                        x0 as int,
                        y0 as int,
                        c,
                    ) && !s.video[c],
            )
        }),
{
    let ins = Instruction::Draw(x, y, n);
    let t1 = execute_spec(s, ins, rnd)->Ok_0;
    let t2 = execute_spec(t1, ins, rnd)->Ok_0;
    let x0 = s.v[x as int] % 64;
    let y0 = s.v[y as int] % 32;
    assert(t1.v[x as int] == s.v[x as int]);
    assert(t1.v[y as int] == s.v[y as int]);
    assert(t2.video =~= s.video);
    if exists|c: int| 0 <= c < SCREEN_CELLS && #[trigger] sprite_covers(s.memory, s.i as int, n as int, x0 as int, y0 as int, c) && !s.video[c] {
        let c = choose|c: int| 0 <= c < SCREEN_CELLS && #[trigger] sprite_covers(s.memory, s.i as int, n as int, x0 as int, y0 as int, c) && !s.video[c];
        assert(t1.video[c]);
    }
    if exists|c: int| 0 <= c < SCREEN_CELLS && #[trigger] sprite_covers(t1.memory, t1.i as int, n as int, x0 as int, y0 as int, c) && t1.video[c] {
        let c = choose|c: int| 0 <= c < SCREEN_CELLS && #[trigger] sprite_covers(t1.memory, t1.i as int, n as int, x0 as int, y0 as int, c) && t1.video[c];
        assert(!s.video[c]);
    }
}

/// A call followed, once the stack is back to what the call left, by a
/// return resumes at the instruction after the call with the caller's stack.
pub proof fn lemma_call_return(s: MachineState, nnn: u16, u: MachineState, rnd: u8)
    requires
        state_wf(s),
        s.stack.len() < STACK_DEPTH,
        s.pc + 2 < 0x10000,
        state_wf(u),
        u.stack == execute_spec(s, Instruction::Call(nnn), rnd)->Ok_0.stack,
    ensures
        execute_spec(s, Instruction::Call(nnn), rnd) is Ok,
        execute_spec(u, Instruction::Return, rnd) is Ok,
        execute_spec(u, Instruction::Return, rnd)->Ok_0.pc == s.pc + 2,
        execute_spec(u, Instruction::Return, rnd)->Ok_0.stack == s.stack,
{
    assert(s.stack.push((s.pc + 2) as u16).drop_last() =~= s.stack);
}

/// A call succeeds and adds one frame while fewer than sixteen are active
/// (so sixteen nested calls from an empty stack all succeed), fails with
/// `StackOverflow` at sixteen, and a return on an empty stack fails with
/// `StackUnderflow`.
pub proof fn lemma_stack_discipline(s: MachineState, nnn: u16, rnd: u8)
    requires
        state_wf(s),
    ensures
        s.stack.len() < STACK_DEPTH ==> execute_spec(s, Instruction::Call(nnn), rnd) is Ok
            && execute_spec(s, Instruction::Call(nnn), rnd)->Ok_0.stack.len() == s.stack.len()
            + 1,
        s.stack.len() == STACK_DEPTH ==> execute_spec(s, Instruction::Call(nnn), rnd) == Err::<
            MachineState,
            Chip8Error,
        >(Chip8Error::StackOverflow),
        s.stack.len() == 0 ==> execute_spec(s, Instruction::Return, rnd) == Err::<
            MachineState,
            Chip8Error,
        >(Chip8Error::StackUnderflow),
{
}

/// A timer tick lowers a nonzero timer by exactly one and keeps zero at zero.
pub proof fn lemma_timer_tick(t: u8)
    ensures
        t > 0 ==> timer_tick(t) == t - 1,
        t == 0 ==> timer_tick(t) == 0,
        timer_tick(t) <= t,
{
}

/// The three stored digits are decimal digits that spell the value.
pub proof fn lemma_bcd_digits(val: u8)
    ensures
        bcd_digit(val, 0) < 10,
        bcd_digit(val, 1) < 10,
        bcd_digit(val, 2) < 10,
        100 * bcd_digit(val, 0) + 10 * bcd_digit(val, 1) + bcd_digit(val, 2) == val,
{
}

/// A word that decodes to no instruction makes the cycle fail with
/// `UnsupportedOpcode` carrying that word; the cycle then changes nothing.
pub proof fn lemma_unsupported_opcode(s: MachineState, rnd: u8)
    requires
        state_wf(s),
        can_fetch(s),
        decode_spec(fetch_spec(s)) is None,
    ensures
        step_spec(s, rnd) == Err::<MachineState, Chip8Error>(
            Chip8Error::UnsupportedOpcode(fetch_spec(s)),
        ),
{
}

} // verus!
