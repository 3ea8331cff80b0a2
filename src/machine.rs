use vstd::prelude::*;

use crate::instruction::{decode, decode_word, Instruction};
use crate::state::{
    execute, initial_state, next_state, outcome, set_key, tick, load, can_fetch, fetch, first_pressed,
    lemma_next_state_preserves_wf, lemma_next_state_ignores_random, Chip8Error, Chip8State, FONTSET, MEMORY_SIZE, PROGRAM_START, SCREEN_SIZE, STACK_DEPTH,
    GLYPH_BYTES,
};

verus! {

broadcast use vstd::array::group_array_axioms;

/// Relies on `rand::random::<u8>`: a byte from the thread-local generator.
/// Any byte may come back, so nothing is promised of it.
#[verifier::external_body]
fn random_byte() -> (r: u8) {
    rand::random::<u8>()
}

/// A CHIP-8 machine: memory, registers, stack, timers, framebuffer and keypad.
pub struct Chip8 {
    memory: [u8; 4096],
    v: [u8; 16],
    i: u16,
    pc: u16,
    stack: [u16; 16],
    sp: u8,
    display: [bool; 2048],
    delay_timer: u8,
    sound_timer: u8,
    keypad: [bool; 16],
}

impl View for Chip8 {
    type V = Chip8State;

    closed spec fn view(&self) -> Chip8State {
        Chip8State {
            memory: self.memory@,
            v: self.v@,
            i: self.i,
            pc: self.pc,
            stack: self.stack@,
            sp: self.sp,
            display: self.display@,
            delay_timer: self.delay_timer,
            sound_timer: self.sound_timer,
            keypad: self.keypad@,
        }
    }
}

impl Chip8 {
    /// A fresh machine: everything zeroed, the font installed at address 0,
    /// and `pc` at the program start.
    pub fn new() -> (r: Self)
        ensures
            r@ == initial_state(),
            r@.wf(),
    {
        let mut state = Chip8 {
            memory: [0u8; 4096],
            v: [0u8; 16],
            i: 0,
            pc: PROGRAM_START as u16,
            stack: [0u16; 16],
            sp: 0,
            display: [false; 2048],
            delay_timer: 0,
            sound_timer: 0,
            keypad: [false; 16],
        };
        state.load_fontset();
        proof {
            assert(state.v@ =~= initial_state().v);
            assert(state.stack@ =~= initial_state().stack);
            assert(state.display@ =~= initial_state().display);
            assert(state.keypad@ =~= initial_state().keypad);
            assert(state.memory@ =~= initial_state().memory);
            assert(state@.memory.subrange(0, 80) =~= FONTSET@);
        }
        state
    }

    /// Copies the font into the first 80 bytes of memory.
    fn load_fontset(&mut self)
        requires
            forall|a: int| 0 <= a < MEMORY_SIZE ==> old(self).memory@[a] == 0,
        ensures
            final(self).memory@ =~= Seq::new(
                MEMORY_SIZE as nat,
                |a: int|
                    if a < 80 {
                        FONTSET@[a]
                    } else {
                        0u8
                    },
            ),
            final(self).v == old(self).v,
            final(self).i == old(self).i,
            final(self).pc == old(self).pc,
            final(self).stack == old(self).stack,
            final(self).sp == old(self).sp,
            final(self).display == old(self).display,
            final(self).delay_timer == old(self).delay_timer,
            final(self).sound_timer == old(self).sound_timer,
            final(self).keypad == old(self).keypad,
    {
        let mut k: usize = 0;
        while k < 80
            invariant
                k <= 80,
                forall|a: int| 0 <= a < k ==> self.memory@[a] == FONTSET@[a],
                forall|a: int| k <= a < MEMORY_SIZE ==> self.memory@[a] == 0,
                self.v == old(self).v,
                self.i == old(self).i,
                self.pc == old(self).pc,
                self.stack == old(self).stack,
                self.sp == old(self).sp,
                self.display == old(self).display,
                self.delay_timer == old(self).delay_timer,
                self.sound_timer == old(self).sound_timer,
                self.keypad == old(self).keypad,
            decreases 80 - k,
        {
            self.memory[k] = FONTSET[k];
            k = k + 1;
        }
    }
}

/// `ins` takes `before` to `after` without a fault, whatever byte a random draw gives.
spec fn performs(before: Chip8State, ins: Instruction, after: Chip8State) -> bool {
    execute(before, ins, 0) == Ok::<Chip8State, Chip8Error>(after)
}

impl Chip8 {
    /// Reads the big-endian instruction word at `pc`.
    fn fetch_opcode(&self) -> (r: u16)
        requires
            can_fetch(self@),
        ensures
            r == fetch(self@),
    {
        let hi = self.memory[self.pc as usize] as u16;
        let lo = self.memory[self.pc as usize + 1] as u16;
        hi * 256 + lo
    }

    /// Counts each nonzero timer down by one.
    fn update_timers(&mut self)
        ensures
            final(self)@ == tick(old(self)@),
    {
        if self.delay_timer > 0 {
            self.delay_timer = self.delay_timer - 1;
        }
        if self.sound_timer > 0 {
            self.sound_timer = self.sound_timer - 1;
        }
    }

    /// Moves `pc` on by `k` bytes, wrapping at sixteen bits.
    fn advance(&mut self, k: u16)
        ensures
            final(self)@ == old(self)@.advance(k as int),
    {
        self.pc = self.pc.wrapping_add(k);
    }

    /// Moves `pc` past the next instruction when `cond` holds, else to it.
    fn skip_if(&mut self, cond: bool)
        ensures
            final(self)@ == old(self)@.skip_if(cond),
    {
        if cond {
            self.advance(4);
        } else {
            self.advance(2);
        }
    }

    /// Sets `Vx` to `val` and moves on.
    fn set_reg(&mut self, x: u8, val: u8)
        requires
            x < 16,
        ensures
            final(self)@ == old(self)@.set_reg(x, val),
    {
        self.v[x as usize] = val;
        self.advance(2);
    }

    /// Sets `Vx` to `val`, then `VF` to `flag`, and moves on.
    fn set_reg_flag(&mut self, x: u8, val: u8, flag: u8)
        requires
            x < 16,
        ensures
            final(self)@ == old(self)@.set_reg_flag(x, val, flag),
    {
        self.v[x as usize] = val;
        self.v[15] = flag;
        self.advance(2);
    }

    /// Clears the framebuffer.
    fn op_00e0(&mut self)
        ensures
            performs(old(self)@, Instruction::Clear, final(self)@),
    {
        let mut p: usize = 0;
        while p < SCREEN_SIZE
            invariant
                p <= SCREEN_SIZE,
                forall|q: int| 0 <= q < p ==> !self.display@[q],
                self@ == (Chip8State { display: self.display@, ..old(self)@ }),
            decreases SCREEN_SIZE - p,
        {
            self.display[p] = false;
            p = p + 1;
        }
        proof {
            assert(self.display@ =~= Seq::new(SCREEN_SIZE as nat, |q: int| false));
        }
        self.advance(2);
    }

    /// Returns from a subroutine: pops the call's address and moves past the call.
    fn op_00ee(&mut self) -> (r: Result<(), Chip8Error>)
        requires
            old(self)@.wf(),
        ensures
            outcome(old(self)@, final(self)@, r, execute(old(self)@, Instruction::Return, 0)),
    {
        if self.sp == 0 {
            return Err(Chip8Error::StackUnderflow);
        }
        self.sp = self.sp - 1;
        self.pc = self.stack[self.sp as usize].wrapping_add(2);
        Ok(())
    }

    /// Jumps to `addr`.
    fn op_1nnn(&mut self, addr: u16)
        ensures
            performs(old(self)@, (Instruction::Jump { addr }), final(self)@),
    {
        self.pc = addr;
    }

    /// Calls the subroutine at `addr`, pushing the current `pc`.
    fn op_2nnn(&mut self, addr: u16) -> (r: Result<(), Chip8Error>)
        requires
            old(self)@.wf(),
        ensures
            outcome(old(self)@, final(self)@, r, execute(old(self)@, (Instruction::Call { addr }), 0)),
    {
        if self.sp as usize >= STACK_DEPTH {
            return Err(Chip8Error::StackOverflow);
        }
        self.stack[self.sp as usize] = self.pc;
        self.sp = self.sp + 1;
        self.pc = addr;
        Ok(())
    }

    /// Skips the next instruction if `Vx == kk`.
    fn op_3xkk(&mut self, x: u8, kk: u8)
        requires
            x < 16,
        ensures
            performs(old(self)@, (Instruction::SkipEqImm { x, kk }), final(self)@),
    {
        let c = self.v[x as usize] == kk;
        self.skip_if(c);
    }

    /// Skips the next instruction if `Vx != kk`.
    fn op_4xkk(&mut self, x: u8, kk: u8)
        requires
            x < 16,
        ensures
            performs(old(self)@, (Instruction::SkipNeImm { x, kk }), final(self)@),
    {
        let c = self.v[x as usize] != kk;
        self.skip_if(c);
    }

    /// Skips the next instruction if `Vx == Vy`.
    fn op_5xy0(&mut self, x: u8, y: u8)
        requires
            x < 16,
            y < 16,
        ensures
            performs(old(self)@, (Instruction::SkipEqReg { x, y }), final(self)@),
    {
        let c = self.v[x as usize] == self.v[y as usize];
        self.skip_if(c);
    }

    /// Sets `Vx` to `kk`.
    fn op_6xkk(&mut self, x: u8, kk: u8)
        requires
            x < 16,
        ensures
            performs(old(self)@, (Instruction::LoadImm { x, kk }), final(self)@),
    {
        self.set_reg(x, kk);
    }

    /// Adds `kk` to `Vx`, wrapping; `VF` is left alone.
    fn op_7xkk(&mut self, x: u8, kk: u8)
        requires
            x < 16,
        ensures
            performs(old(self)@, (Instruction::AddImm { x, kk }), final(self)@),
    {
        let val = self.v[x as usize].wrapping_add(kk);
        self.set_reg(x, val);
    }

    /// Sets `Vx` to `Vy`.
    fn op_8xy0(&mut self, x: u8, y: u8)
        requires
            x < 16,
            y < 16,
        ensures
            performs(old(self)@, (Instruction::Move { x, y }), final(self)@),
    {
        let val = self.v[y as usize];
        self.set_reg(x, val);
    }

    /// Sets `Vx` to `Vx | Vy`.
    fn op_8xy1(&mut self, x: u8, y: u8)
        requires
            x < 16,
            y < 16,
        ensures
            performs(old(self)@, (Instruction::Or { x, y }), final(self)@),
    {
        let val = self.v[x as usize] | self.v[y as usize];
        self.set_reg(x, val);
    }

    /// Sets `Vx` to `Vx & Vy`.
    fn op_8xy2(&mut self, x: u8, y: u8)
        requires
            x < 16,
            y < 16,
        ensures
            performs(old(self)@, (Instruction::And { x, y }), final(self)@),
    {
        let val = self.v[x as usize] & self.v[y as usize];
        self.set_reg(x, val);
    }

    /// Sets `Vx` to `Vx ^ Vy`.
    fn op_8xy3(&mut self, x: u8, y: u8)
        requires
            x < 16,
            y < 16,
        ensures
            performs(old(self)@, (Instruction::Xor { x, y }), final(self)@),
    {
        let val = self.v[x as usize] ^ self.v[y as usize];
        self.set_reg(x, val);
    }

    /// Adds `Vy` to `Vx`, wrapping; `VF` becomes 1 on a carry, else 0.
    fn op_8xy4(&mut self, x: u8, y: u8)
        requires
            x < 16,
            y < 16,
        ensures
            performs(old(self)@, (Instruction::AddReg { x, y }), final(self)@),
    {
        let (a, b) = (self.v[x as usize], self.v[y as usize]);
        let carry: u8 = if a as u16 + b as u16 > 255 { 1 } else { 0 };
        self.set_reg_flag(x, a.wrapping_add(b), carry);
    }

    /// Subtracts `Vy` from `Vx`, wrapping; `VF` becomes 0 on a borrow, else 1.
    fn op_8xy5(&mut self, x: u8, y: u8)
        requires
            x < 16,
            y < 16,
        ensures
            performs(old(self)@, (Instruction::SubReg { x, y }), final(self)@),
    {
        let (a, b) = (self.v[x as usize], self.v[y as usize]);
        let no_borrow: u8 = if a >= b { 1 } else { 0 };
        self.set_reg_flag(x, a.wrapping_sub(b), no_borrow);
    }

    /// Shifts `Vx` right by one; `VF` becomes the bit shifted out.
    fn op_8xy6(&mut self, x: u8)
        requires
            x < 16,
        ensures
            performs(old(self)@, (Instruction::ShiftRight { x }), final(self)@),
    {
        let a = self.v[x as usize];
        self.set_reg_flag(x, a / 2, a % 2);
    }

    /// Sets `Vx` to `Vy - Vx`, wrapping; `VF` becomes 0 on a borrow, else 1.
    fn op_8xy7(&mut self, x: u8, y: u8)
        requires
            x < 16,
            y < 16,
        ensures
            performs(old(self)@, (Instruction::SubRev { x, y }), final(self)@),
    {
        let (a, b) = (self.v[x as usize], self.v[y as usize]);
        let no_borrow: u8 = if b >= a { 1 } else { 0 };
        self.set_reg_flag(x, b.wrapping_sub(a), no_borrow);
    }

    /// Shifts `Vx` left by one, wrapping; `VF` becomes the bit shifted out.
    fn op_8xye(&mut self, x: u8)
        requires
            x < 16,
        ensures
            performs(old(self)@, (Instruction::ShiftLeft { x }), final(self)@),
    {
        let a = self.v[x as usize];
        self.set_reg_flag(x, a.wrapping_mul(2), a / 128);
    }

    /// Skips the next instruction if `Vx != Vy`.
    fn op_9xy0(&mut self, x: u8, y: u8)
        requires
            x < 16,
            y < 16,
        ensures
            performs(old(self)@, (Instruction::SkipNeReg { x, y }), final(self)@),
    {
        let c = self.v[x as usize] != self.v[y as usize];
        self.skip_if(c);
    }

    /// Sets `I` to `addr`.
    fn op_annn(&mut self, addr: u16)
        ensures
            performs(old(self)@, (Instruction::LoadIndex { addr }), final(self)@),
    {
        self.i = addr;
        self.advance(2);
    }

    /// Jumps to `addr + V0`.
    fn op_bnnn(&mut self, addr: u16)
        requires
            old(self)@.wf(),
        ensures
            performs(old(self)@, (Instruction::JumpOffset { addr }), final(self)@),
    {
        self.pc = addr.wrapping_add(self.v[0] as u16);
    }

    /// Sets `Vx` to `rnd & kk`, where `rnd` is the byte drawn for this instruction.
    fn op_cxkk(&mut self, x: u8, kk: u8, rnd: u8)
        requires
            x < 16,
        ensures
            execute(old(self)@, (Instruction::Random { x, kk }), rnd) == Ok::<Chip8State, Chip8Error>(final(self)@),
    {
        self.set_reg(x, rnd & kk);
    }
}

impl Chip8 {
    /// XORs an `n`-row sprite from `memory[I..]` onto the framebuffer at
    /// `(Vx, Vy)`, wrapping on each axis; `VF` becomes 1 if a lit cell went
    /// dark, else 0. Reading past the end of memory is a fault.
    fn op_dxyn(&mut self, x: u8, y: u8, n: u8) -> (r: Result<(), Chip8Error>)
        requires
            old(self)@.wf(),
            x < 16,
            y < 16,
            n < 16,
        ensures
            outcome(old(self)@, final(self)@, r, execute(old(self)@, (Instruction::Draw { x, y, n }), 0)),
    {
        if n > 0 && self.i as usize + n as usize > MEMORY_SIZE {
            return Err(Chip8Error::OutOfBounds);
        }
        let vx = self.v[x as usize];
        let vy = self.v[y as usize];
        let ghost s0 = self@;
        let mut collision = false;
        let mut p: usize = 0;
        while p < SCREEN_SIZE
            invariant
                s0 == old(self)@,
                s0.wf(),
                n == 0 || s0.i + n <= MEMORY_SIZE,
                vx == s0.reg(x),
                vy == s0.reg(y),
                p <= SCREEN_SIZE,
                self@ == (Chip8State { display: self.display@, ..s0 }),
                forall|q: int|
                    0 <= q < SCREEN_SIZE ==> #[trigger] self.display@[q] == if q < p {
                        s0.display[q] != s0.sprite_covers(vx, vy, n, q)
                    } else {
                        s0.display[q]
                    },
                collision == exists|q: int|
                    0 <= q < p && #[trigger] s0.sprite_covers(vx, vy, n, q) && s0.display[q],
            decreases SCREEN_SIZE - p,
        {
            let col = (p % 64 + 64 - (vx as usize) % 64) % 64;
            let row = (p / 64 + 32 - (vy as usize) % 32) % 32;
            let covered = if row < n as usize && col < 8 {
                let byte = self.memory[self.i as usize + row];
                byte & (0x80u8 >> col as u8) != 0
            } else {
                false
            };
            assert(covered == s0.sprite_covers(vx, vy, n, p as int));
            if covered {
                if self.display[p] {
                    collision = true;
                }
                self.display[p] = !self.display[p];
            }
            p = p + 1;
        }
        proof {
            assert(self.display@ =~= s0.drawn(vx, vy, n));
        }
        self.v[15] = if collision { 1 } else { 0 };
        self.advance(2);
        Ok(())
    }

    /// Skips the next instruction if the key named by `Vx` is down.
    fn op_ex9e(&mut self, x: u8) -> (r: Result<(), Chip8Error>)
        requires
            old(self)@.wf(),
            x < 16,
        ensures
            outcome(old(self)@, final(self)@, r, execute(old(self)@, (Instruction::SkipKey { x }), 0)),
    {
        let key = self.v[x as usize];
        if key >= 16 {
            return Err(Chip8Error::InvalidKey);
        }
        let c = self.keypad[key as usize];
        self.skip_if(c);
        Ok(())
    }

    /// Skips the next instruction if the key named by `Vx` is up.
    fn op_exa1(&mut self, x: u8) -> (r: Result<(), Chip8Error>)
        requires
            old(self)@.wf(),
            x < 16,
        ensures
            outcome(old(self)@, final(self)@, r, execute(old(self)@, (Instruction::SkipNoKey { x }), 0)),
    {
        let key = self.v[x as usize];
        if key >= 16 {
            return Err(Chip8Error::InvalidKey);
        }
        let c = !self.keypad[key as usize];
        self.skip_if(c);
        Ok(())
    }

    /// Sets `Vx` to the delay timer.
    fn op_fx07(&mut self, x: u8)
        requires
            x < 16,
        ensures
            performs(old(self)@, (Instruction::ReadDelay { x }), final(self)@),
    {
        let val = self.delay_timer;
        self.set_reg(x, val);
    }

    /// Waits for a key: with a key down, stores the lowest such key in `Vx`
    /// and moves on; with none, leaves `pc` where it is, so that the same
    /// instruction runs again on the next cycle.
    fn op_fx0a(&mut self, x: u8)
        requires
            old(self)@.wf(),
            x < 16,
        ensures
            performs(old(self)@, (Instruction::WaitKey { x }), final(self)@),
    {
        let mut k: usize = 0;
        while k < 16
            invariant
                self@ == old(self)@,
                self@.wf(),
                x < 16,
                k <= 16,
                first_pressed(self@.keypad, 0) == first_pressed(self@.keypad, k as int),
            decreases 16 - k,
        {
            if self.keypad[k] {
                self.set_reg(x, k as u8);
                return;
            }
            k = k + 1;
        }
    }

    /// Sets the delay timer to `Vx`.
    fn op_fx15(&mut self, x: u8)
        requires
            x < 16,
        ensures
            performs(old(self)@, (Instruction::SetDelay { x }), final(self)@),
    {
        self.delay_timer = self.v[x as usize];
        self.advance(2);
    }

    /// Sets the sound timer to `Vx`.
    fn op_fx18(&mut self, x: u8)
        requires
            x < 16,
        ensures
            performs(old(self)@, (Instruction::SetSound { x }), final(self)@),
    {
        self.sound_timer = self.v[x as usize];
        self.advance(2);
    }

    /// Adds `Vx` to `I`, wrapping at sixteen bits.
    fn op_fx1e(&mut self, x: u8)
        requires
            x < 16,
        ensures
            performs(old(self)@, (Instruction::AddIndex { x }), final(self)@),
    {
        self.i = self.i.wrapping_add(self.v[x as usize] as u16);
        self.advance(2);
    }

    /// Points `I` at the font glyph for the low nibble of `Vx`.
    fn op_fx29(&mut self, x: u8)
        requires
            x < 16,
        ensures
            performs(old(self)@, (Instruction::FontChar { x }), final(self)@),
    {
        let digit = self.v[x as usize] % 16;
        self.i = GLYPH_BYTES as u16 * digit as u16;
        self.advance(2);
    }

    /// Stores the hundreds, tens and ones digits of `Vx` at `I`, `I+1`, `I+2`.
    fn op_fx33(&mut self, x: u8) -> (r: Result<(), Chip8Error>)
        requires
            old(self)@.wf(),
            x < 16,
        ensures
            outcome(old(self)@, final(self)@, r, execute(old(self)@, (Instruction::Bcd { x }), 0)),
    {
        let base = self.i as usize;
        if base < PROGRAM_START || base + 2 >= MEMORY_SIZE {
            return Err(Chip8Error::OutOfBounds);
        }
        let vx = self.v[x as usize];
        self.memory[base] = vx / 100;
        self.memory[base + 1] = (vx % 100) / 10;
        self.memory[base + 2] = vx % 10;
        self.advance(2);
        Ok(())
    }

    /// Stores `V0..=Vx` in memory from `I` on.
    fn op_fx55(&mut self, x: u8) -> (r: Result<(), Chip8Error>)
        requires
            old(self)@.wf(),
            x < 16,
        ensures
            outcome(old(self)@, final(self)@, r, execute(old(self)@, (Instruction::StoreRegs { x }), 0)),
    {
        let base = self.i as usize;
        if base < PROGRAM_START || base + x as usize >= MEMORY_SIZE {
            return Err(Chip8Error::OutOfBounds);
        }
        let ghost s0 = self@;
        let mut k: usize = 0;
        while k <= x as usize
            invariant
                s0 == old(self)@,
                s0.wf(),
                base == s0.i,
                base + x < MEMORY_SIZE,
                x < 16,
                k <= x + 1,
                self@ == (Chip8State { memory: self.memory@, ..s0 }),
                forall|a: int|
                    0 <= a < MEMORY_SIZE ==> #[trigger] self.memory@[a] == if base <= a < base + k {
                        s0.v[a - base]
                    } else {
                        s0.memory[a]
                    },
            decreases x + 1 - k,
        {
            self.memory[base + k] = self.v[k];
            k = k + 1;
        }
        proof {
            assert(self.memory@ =~= s0.with_regs_stored(x));
        }
        self.advance(2);
        Ok(())
    }

    /// Loads `V0..=Vx` from memory from `I` on.
    fn op_fx65(&mut self, x: u8) -> (r: Result<(), Chip8Error>)
        requires
            old(self)@.wf(),
            x < 16,
        ensures
            outcome(old(self)@, final(self)@, r, execute(old(self)@, (Instruction::LoadRegs { x }), 0)),
    {
        let base = self.i as usize;
        if base + x as usize >= MEMORY_SIZE {
            return Err(Chip8Error::OutOfBounds);
        }
        let ghost s0 = self@;
        let mut k: usize = 0;
        while k <= x as usize
            invariant
                s0 == old(self)@,
                s0.wf(),
                base == s0.i,
                base + x < MEMORY_SIZE,
                x < 16,
                k <= x + 1,
                self@ == (Chip8State { v: self.v@, ..s0 }),
                forall|r: int|
                    0 <= r < 16 ==> #[trigger] self.v@[r] == if r < k {
                        s0.memory[base + r]
                    } else {
                        s0.v[r]
                    },
            decreases x + 1 - k,
        {
            self.v[k] = self.memory[base + k];
            k = k + 1;
        }
        proof {
            assert(self.v@ =~= s0.with_regs_loaded(x));
        }
        self.advance(2);
        Ok(())
    }
}

impl Chip8 {
    /// Runs one decoded instruction; `rnd` is the byte a random instruction uses.
    fn execute_opcode(&mut self, ins: Instruction, rnd: u8) -> (r: Result<(), Chip8Error>)
        requires
            old(self)@.wf(),
            ins.well_formed(),
        ensures
            outcome(old(self)@, final(self)@, r, execute(old(self)@, ins, rnd)),
    {
        match ins {
            Instruction::Clear => {
                self.op_00e0();
                Ok(())
            },
            Instruction::Return => self.op_00ee(),
            Instruction::Jump { addr } => {
                self.op_1nnn(addr);
                Ok(())
            },
            Instruction::Call { addr } => self.op_2nnn(addr),
            Instruction::SkipEqImm { x, kk } => {
                self.op_3xkk(x, kk);
                Ok(())
            },
            Instruction::SkipNeImm { x, kk } => {
                self.op_4xkk(x, kk);
                Ok(())
            },
            Instruction::SkipEqReg { x, y } => {
                self.op_5xy0(x, y);
                Ok(())
            },
            Instruction::LoadImm { x, kk } => {
                self.op_6xkk(x, kk);
                Ok(())
            },
            Instruction::AddImm { x, kk } => {
                self.op_7xkk(x, kk);
                Ok(())
            },
            Instruction::Move { x, y } => {
                self.op_8xy0(x, y);
                Ok(())
            },
            Instruction::Or { x, y } => {
                self.op_8xy1(x, y);
                Ok(())
            },
            Instruction::And { x, y } => {
                self.op_8xy2(x, y);
                Ok(())
            },
            Instruction::Xor { x, y } => {
                self.op_8xy3(x, y);
                Ok(())
            },
            Instruction::AddReg { x, y } => {
                self.op_8xy4(x, y);
                Ok(())
            },
            Instruction::SubReg { x, y } => {
                self.op_8xy5(x, y);
                Ok(())
            },
            Instruction::ShiftRight { x } => {
                self.op_8xy6(x);
                Ok(())
            },
            Instruction::SubRev { x, y } => {
                self.op_8xy7(x, y);
                Ok(())
            },
            Instruction::ShiftLeft { x } => {
                self.op_8xye(x);
                Ok(())
            },
            Instruction::SkipNeReg { x, y } => {
                self.op_9xy0(x, y);
                Ok(())
            },
            Instruction::LoadIndex { addr } => {
                self.op_annn(addr);
                Ok(())
            },
            Instruction::JumpOffset { addr } => {
                self.op_bnnn(addr);
                Ok(())
            },
            Instruction::Random { x, kk } => {
                self.op_cxkk(x, kk, rnd);
                Ok(())
            },
            Instruction::Draw { x, y, n } => self.op_dxyn(x, y, n),
            Instruction::SkipKey { x } => self.op_ex9e(x),
            Instruction::SkipNoKey { x } => self.op_exa1(x),
            Instruction::ReadDelay { x } => {
                self.op_fx07(x);
                Ok(())
            },
            Instruction::WaitKey { x } => {
                self.op_fx0a(x);
                Ok(())
            },
            Instruction::SetDelay { x } => {
                self.op_fx15(x);
                Ok(())
            },
            Instruction::SetSound { x } => {
                self.op_fx18(x);
                Ok(())
            },
            Instruction::AddIndex { x } => {
                self.op_fx1e(x);
                Ok(())
            },
            Instruction::FontChar { x } => {
                self.op_fx29(x);
                Ok(())
            },
            Instruction::Bcd { x } => self.op_fx33(x),
            Instruction::StoreRegs { x } => self.op_fx55(x),
            Instruction::LoadRegs { x } => self.op_fx65(x),
            Instruction::Unknown => {
                self.advance(2);
                Ok(())
            },
        }
    }

    /// Runs one cycle with `random` as the byte that a random instruction
    /// (`Cxkk`) uses: fetch the word at `pc`, decode it, execute it, then
    /// count each nonzero timer down by one. A fault changes nothing.
    pub fn step(&mut self, random: u8) -> (r: Result<(), Chip8Error>)
        requires
            old(self)@.wf(),
        ensures
            final(self)@.wf(),
            outcome(old(self)@, final(self)@, r, next_state(old(self)@, random)),
    {
        proof {
            lemma_next_state_preserves_wf(self@, random);
        }
        if self.pc as usize + 1 >= MEMORY_SIZE {
            return Err(Chip8Error::OutOfBounds);
        }
        let op = self.fetch_opcode();
        let ins = decode(op);
        match self.execute_opcode(ins, random) {
            Ok(()) => {
                self.update_timers();
                Ok(())
            },
            Err(e) => Err(e),
        }
    }

    /// Runs one cycle, drawing a fresh random byte for a random instruction.
    /// The outcome is that of `step` for some byte; for any instruction but
    /// `Cxkk` it does not depend on the byte.
    pub fn cycle(&mut self) -> (r: Result<(), Chip8Error>)
        requires
            old(self)@.wf(),
        ensures
            final(self)@.wf(),
            exists|rnd: u8| outcome(old(self)@, final(self)@, r, #[trigger] next_state(old(self)@, rnd)),
            !(can_fetch(old(self)@) && decode_word(fetch(old(self)@)) is Random) ==> outcome(
                old(self)@,
                final(self)@,
                r,
                next_state(old(self)@, 0),
            ),
    {
        let rnd = random_byte();
        let ghost s0 = self@;
        let r = self.step(rnd);
        proof {
            assert(outcome(s0, self@, r, next_state(s0, rnd)));
            lemma_next_state_ignores_random(s0, rnd);
        }
        r
    }

    /// Loads a program at the program start. A program longer than the
    /// region from there to the end of memory is refused with `OutOfBounds`
    /// and nothing is written. Nothing else changes.
    pub fn load_rom(&mut self, rom: &[u8]) -> (r: Result<(), Chip8Error>)
        requires
            old(self)@.wf(),
        ensures
            final(self)@.wf(),
            outcome(old(self)@, final(self)@, r, load(old(self)@, rom@)),
    {
        if rom.len() > MEMORY_SIZE - PROGRAM_START {
            return Err(Chip8Error::OutOfBounds);
        }
        let ghost s0 = self@;
        let mut k: usize = 0;
        while k < rom.len()
            invariant
                s0 == old(self)@,
                s0.wf(),
                rom.len() <= MEMORY_SIZE - PROGRAM_START,
                k <= rom.len(),
                self@ == (Chip8State { memory: self.memory@, ..s0 }),
                forall|a: int|
                    0 <= a < MEMORY_SIZE ==> #[trigger] self.memory@[a] == if PROGRAM_START <= a
                        < PROGRAM_START + k {
                        rom@[a - PROGRAM_START]
                    } else {
                        s0.memory[a]
                    },
            decreases rom.len() - k,
        {
            self.memory[PROGRAM_START + k] = rom[k];
            k = k + 1;
        }
        proof {
            let t = load(s0, rom@)->Ok_0;
            assert(self.memory@ =~= t.memory);
            assert(self.memory@.subrange(0, 80) =~= s0.memory.subrange(0, 80));
        }
        Ok(())
    }

    /// Marks key `key` as down; an index above 0xF is ignored.
    pub fn key_down(&mut self, key: u8)
        requires
            old(self)@.wf(),
        ensures
            final(self)@ == set_key(old(self)@, key, true),
            final(self)@.wf(),
    {
        if key < 16 {
            self.keypad[key as usize] = true;
        }
    }

    /// Marks key `key` as up; an index above 0xF is ignored.
    pub fn key_up(&mut self, key: u8)
        requires
            old(self)@.wf(),
        ensures
            final(self)@ == set_key(old(self)@, key, false),
            final(self)@.wf(),
    {
        if key < 16 {
            self.keypad[key as usize] = false;
        }
    }

    /// Whether key `key` is down; false for an index above 0xF.
    pub fn is_key_down(&self, key: u8) -> (r: bool)
        requires
            self@.wf(),
        ensures
            r == (key < 16 && self@.keypad[key as int]),
    {
        key < 16 && self.keypad[key as usize]
    }

    /// The framebuffer, 64 cells per row, 32 rows, row-major.
    pub fn get_display(&self) -> (r: &[bool; 2048])
        ensures
            r@ == self@.display,
    {
        &self.display
    }

    /// The delay timer.
    pub fn delay_timer(&self) -> (r: u8)
        ensures
            r == self@.delay_timer,
    {
        self.delay_timer
    }

    /// The sound timer.
    pub fn sound_timer(&self) -> (r: u8)
        ensures
            r == self@.sound_timer,
    {
        self.sound_timer
    }

    /// The program counter.
    pub fn pc(&self) -> (r: u16)
        ensures
            r == self@.pc,
    {
        self.pc
    }

    /// The address register `I`.
    pub fn index_register(&self) -> (r: u16)
        ensures
            r == self@.i,
    {
        self.i
    }

    /// The stack pointer: the number of return addresses on the stack.
    pub fn stack_pointer(&self) -> (r: u8)
        ensures
            r == self@.sp,
    {
        self.sp
    }

    /// Register `Vx`.
    pub fn register(&self, x: u8) -> (r: u8)
        requires
            self@.wf(),
            x < 16,
        ensures
            r == self@.v[x as int],
    {
        self.v[x as usize]
    }

    /// The byte at `addr`.
    pub fn memory_at(&self, addr: u16) -> (r: u8)
        requires
            self@.wf(),
            addr < MEMORY_SIZE,
        ensures
            r == self@.memory[addr as int],
    {
        self.memory[addr as usize]
    }
}

} // verus!
