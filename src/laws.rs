use vstd::prelude::*;

use crate::instruction::{decode_word, Instruction};
use crate::state::{can_fetch, execute, fetch, next_state, tick, Chip8State, SCREEN_SIZE};

verus! {

/// Drawing the same sprite at the same place twice in a row restores the
/// framebuffer exactly, and the second draw reports a collision (`VF` = 1)
/// exactly when the first one lit some cell. Neither coordinate register may
/// be `VF`, which the first draw overwrites.
pub proof fn lemma_draw_twice_restores(s: Chip8State, x: u8, y: u8, n: u8)
    requires
        s.wf(),
        x < 15,
        y < 15,
        n < 16,
        execute(s, (Instruction::Draw { x, y, n }), 0) is Ok,
    ensures
        ({
            let ins = Instruction::Draw { x, y, n };
            let t = execute(s, ins, 0)->Ok_0;
            &&& execute(t, ins, 0) is Ok
            &&& execute(t, ins, 0)->Ok_0.display == s.display
            &&& execute(t, ins, 0)->Ok_0.v[15] == if exists|p: int|
                0 <= p < SCREEN_SIZE && #[trigger] s.sprite_covers(s.reg(x), s.reg(y), n, p)
                    && !s.display[p] {
                1u8
            } else {
                0u8
            }
        }),
{
    let ins = Instruction::Draw { x, y, n };
    let (vx, vy) = (s.reg(x), s.reg(y));
    let t = execute(s, ins, 0)->Ok_0;
    assert(t.reg(x) == vx && t.reg(y) == vy);
    assert forall|p: int| 0 <= p < SCREEN_SIZE implies #[trigger] t.sprite_covers(vx, vy, n, p)
        == s.sprite_covers(vx, vy, n, p) by {}
    let u = execute(t, ins, 0)->Ok_0;
    assert(u.display =~= s.display);
    let lit = exists|p: int|
        0 <= p < SCREEN_SIZE && #[trigger] s.sprite_covers(vx, vy, n, p) && !s.display[p];
    if lit {
        let p = choose|p: int|
            0 <= p < SCREEN_SIZE && #[trigger] s.sprite_covers(vx, vy, n, p) && !s.display[p];
        assert(t.sprite_covers(vx, vy, n, p) && t.display[p]);
    }
    if t.collides(vx, vy, n) {
        let p = choose|p: int|
            0 <= p < SCREEN_SIZE && #[trigger] t.sprite_covers(vx, vy, n, p) && t.display[p];
        assert(s.sprite_covers(vx, vy, n, p) && !s.display[p]);
    }
}

/// Storing `V0..=Vx` at `I` and then loading `V0..=Vx` from `I` gives back
/// every register as it was, and leaves memory as the store left it.
pub proof fn lemma_store_load_round_trip(s: Chip8State, x: u8)
    requires
        s.wf(),
        x < 16,
        execute(s, (Instruction::StoreRegs { x }), 0) is Ok,
    ensures
        ({
            let t = execute(s, (Instruction::StoreRegs { x }), 0)->Ok_0;
            &&& execute(t, (Instruction::LoadRegs { x }), 0) is Ok
            &&& execute(t, (Instruction::LoadRegs { x }), 0)->Ok_0.v == s.v
            &&& execute(t, (Instruction::LoadRegs { x }), 0)->Ok_0.memory == t.memory
        }),
{
    let t = execute(s, (Instruction::StoreRegs { x }), 0)->Ok_0;
    let u = execute(t, (Instruction::LoadRegs { x }), 0)->Ok_0;
    assert(u.v =~= s.v);
}

/// Adding an immediate to a register wraps modulo 256 and leaves `VF`
/// alone, for every register but `VF` itself.
pub proof fn lemma_add_immediate_wraps(s: Chip8State, x: u8, kk: u8)
    requires
        s.wf(),
        x < 15,
    ensures
        execute(s, (Instruction::AddImm { x, kk }), 0) matches Ok(t) && t.reg(x) == (s.reg(x) + kk)
            % 256 && t.v[15] == s.v[15],
{
}

/// A timer tick never takes a timer below zero: a stopped timer stays at
/// zero, and a running one goes down by exactly one.
pub proof fn lemma_tick_floor(s: Chip8State)
    ensures
        tick(s).delay_timer == if s.delay_timer == 0 { 0 } else { s.delay_timer - 1 },
        tick(s).sound_timer == if s.sound_timer == 0 { 0 } else { s.sound_timer - 1 },
{
}

/// A stopped delay timer stays stopped through a cycle, unless that cycle
/// sets it (`Fx15`).
pub proof fn lemma_delay_timer_stays_zero(s: Chip8State, rnd: u8)
    requires
        s.wf(),
        s.delay_timer == 0,
        !(can_fetch(s) && decode_word(fetch(s)) is SetDelay),
    ensures
        next_state(s, rnd) matches Ok(t) ==> t.delay_timer == 0,
{
}

} // verus!
