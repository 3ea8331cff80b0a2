use vstd::prelude::*;

use crate::instruction::{decode_word, Instruction};

verus! {

/// Bytes of addressable memory.
pub const MEMORY_SIZE: usize = 4096;

/// Address at which programs are loaded and execution starts.
pub const PROGRAM_START: usize = 0x200;

/// Framebuffer width in pixels.
pub const SCREEN_WIDTH: usize = 64;

/// Framebuffer height in pixels.
pub const SCREEN_HEIGHT: usize = 32;

/// Number of framebuffer cells, row-major.
pub const SCREEN_SIZE: usize = 2048;

/// Depth of the call stack.
pub const STACK_DEPTH: usize = 16;

/// Bytes per font glyph.
pub const GLYPH_BYTES: usize = 5;

/// The built-in font: one five-byte glyph for each hexadecimal digit, stored at address 0.
pub const FONTSET: [u8; 80] = [
    0xF0, 0x90, 0x90, 0x90, 0xF0, // 0
    0x20, 0x60, 0x20, 0x20, 0x70, // 1
    0xF0, 0x10, 0xF0, 0x80, 0xF0, // 2
    0xF0, 0x10, 0xF0, 0x10, 0xF0, // 3
    0x90, 0x90, 0xF0, 0x10, 0x10, // 4
    0xF0, 0x80, 0xF0, 0x10, 0xF0, // 5
    0xF0, 0x80, 0xF0, 0x90, 0xF0, // 6
    0xF0, 0x10, 0x20, 0x40, 0x40, // 7
    0xF0, 0x90, 0xF0, 0x90, 0xF0, // 8
    0xF0, 0x90, 0xF0, 0x10, 0xF0, // 9
    0xF0, 0x90, 0xF0, 0x90, 0x90, // A
    0xE0, 0x90, 0xE0, 0x90, 0xE0, // B
    0xF0, 0x80, 0x80, 0x80, 0xF0, // C
    0xE0, 0x90, 0x90, 0x90, 0xE0, // D
    0xF0, 0x80, 0xF0, 0x80, 0xF0, // E
    0xF0, 0x80, 0xF0, 0x80, 0x80, // F
];

/// A fault that stops a cycle or a load. A faulting operation changes nothing.
#[derive(Debug, Clone, Copy, PartialEq, Eq, Structural)]
pub enum Chip8Error {
    /// A memory access past the end of memory, an instruction write outside
    /// the program region, or a program too large for that region.
    OutOfBounds,
    /// A call with all sixteen stack slots in use.
    StackOverflow,
    /// A return with an empty stack.
    StackUnderflow,
    /// A key instruction whose register names no key (a value above 0xF).
    InvalidKey,
}

/// The whole architectural state of the machine, as mathematical values.
pub ghost struct Chip8State {
    pub memory: Seq<u8>,
    pub v: Seq<u8>,
    pub i: u16,
    pub pc: u16,
    pub stack: Seq<u16>,
    pub sp: u8,
    pub display: Seq<bool>,
    pub delay_timer: u8,
    pub sound_timer: u8,
    pub keypad: Seq<bool>,
}

/// `a + k` wrapped to sixteen bits.
pub open spec fn wrap16(a: int, k: int) -> u16 {
    ((a + k) % 0x10000) as u16
}

/// `a + b` wrapped to eight bits.
pub open spec fn wrap8(a: int) -> u8 {
    (a % 0x100) as u8
}

/// Whether `addr` may be written by an instruction: the program region only.
pub open spec fn writable(addr: int) -> bool {
    PROGRAM_START <= addr < MEMORY_SIZE
}

/// Whether bit `col` (0 = leftmost) of the sprite row `byte` is set.
pub open spec fn sprite_bit(byte: u8, col: u8) -> bool {
    byte & (0x80u8 >> col) != 0
}

/// The lowest pressed key at index `k` or above, or the number of keys if none is.
pub open spec fn first_pressed(keys: Seq<bool>, k: int) -> int
    decreases keys.len() - k,
{
    if k >= keys.len() || k < 0 {
        keys.len() as int
    } else if keys[k] {
        k
    } else {
        first_pressed(keys, k + 1)
    }
}

impl Chip8State {
    /// Every component has its architectural size, the stack pointer is in
    /// range, and the font sits unchanged at the bottom of memory.
    pub open spec fn wf(self) -> bool {
        &&& self.memory.len() == MEMORY_SIZE
        &&& self.v.len() == 16
        &&& self.stack.len() == STACK_DEPTH
        &&& self.sp <= STACK_DEPTH
        &&& self.display.len() == SCREEN_SIZE
        &&& self.keypad.len() == 16
        &&& self.memory.subrange(0, 80) == FONTSET@
    }

    /// Register `x`.
    pub open spec fn reg(self, x: u8) -> u8 {
        self.v[x as int]
    }

    /// The state with `pc` moved on by `k` bytes.
    pub open spec fn advance(self, k: int) -> Chip8State {
        Chip8State { pc: wrap16(self.pc as int, k), ..self }
    }

    /// Moves on past the next instruction when `cond` holds, else to it.
    pub open spec fn skip_if(self, cond: bool) -> Chip8State {
        self.advance(if cond { 4 } else { 2 })
    }

    /// The state with register `x` set to `val`, then `pc` moved on by two.
    pub open spec fn set_reg(self, x: u8, val: u8) -> Chip8State {
        Chip8State { v: self.v.update(x as int, val), ..self }.advance(2)
    }

    /// The state with register `x` set to `val` and then `VF` to `flag`, `pc` moved on by two.
    pub open spec fn set_reg_flag(self, x: u8, val: u8, flag: u8) -> Chip8State {
        Chip8State { v: self.v.update(x as int, val).update(15, flag), ..self }.advance(2)
    }

    /// Whether the sprite of `n` rows at `memory[i..]`, drawn at `(vx, vy)`,
    /// covers screen cell `p` with a set bit. Coordinates wrap on each axis.
    pub open spec fn sprite_covers(self, vx: u8, vy: u8, n: u8, p: int) -> bool {
        let col = (p % 64 + 64 - vx % 64) % 64;
        let row = (p / 64 + 32 - vy % 32) % 32;
        row < n && col < 8 && sprite_bit(self.memory[self.i + row], col as u8)
    }

    /// The framebuffer after drawing that sprite: each covered cell flips.
    pub open spec fn drawn(self, vx: u8, vy: u8, n: u8) -> Seq<bool> {
        Seq::new(SCREEN_SIZE as nat, |p: int| self.display[p] != self.sprite_covers(vx, vy, n, p))
    }

    /// Whether drawing that sprite turns some lit cell off.
    pub open spec fn collides(self, vx: u8, vy: u8, n: u8) -> bool {
        exists|p: int|
            0 <= p < SCREEN_SIZE && #[trigger] self.sprite_covers(vx, vy, n, p) && self.display[p]
    }

    /// The three decimal digits of `val` stored at `I`, `I+1`, `I+2`.
    pub open spec fn with_bcd(self, val: u8) -> Seq<u8> {
        self.memory.update(self.i as int, val / 100).update(self.i + 1, (val % 100) / 10).update(
            self.i + 2,
            val % 10,
        )
    }

    /// Memory with `V0..=Vx` stored from `I` on.
    pub open spec fn with_regs_stored(self, x: u8) -> Seq<u8> {
        Seq::new(
            MEMORY_SIZE as nat,
            |a: int|
                if self.i <= a <= self.i + x {
                    self.v[a - self.i]
                } else {
                    self.memory[a]
                },
        )
    }

    /// Registers with `V0..=Vx` loaded from `I` on.
    pub open spec fn with_regs_loaded(self, x: u8) -> Seq<u8> {
        Seq::new(16, |r: int| if r <= x { self.memory[self.i + r] } else { self.v[r] })
    }
}

/// The state after executing `ins`, or the fault it raises; `rnd` is the byte
/// that a random instruction draws.
pub open spec fn execute(s: Chip8State, ins: Instruction, rnd: u8) -> Result<Chip8State, Chip8Error> {
    match ins {
        Instruction::Clear => Ok(
            Chip8State { display: Seq::new(SCREEN_SIZE as nat, |p: int| false), ..s }.advance(2),
        ),
        Instruction::Return => if s.sp == 0 {
            Err(Chip8Error::StackUnderflow)
        } else {
            Ok(
                Chip8State {
                    sp: (s.sp - 1) as u8,
                    pc: wrap16(s.stack[s.sp - 1] as int, 2),
                    ..s
                },
            )
        },
        Instruction::Jump { addr } => Ok(Chip8State { pc: addr, ..s }),
        Instruction::Call { addr } => if s.sp >= STACK_DEPTH {
            Err(Chip8Error::StackOverflow)
        } else {
            Ok(
                Chip8State {
                    stack: s.stack.update(s.sp as int, s.pc),
                    sp: (s.sp + 1) as u8,
                    pc: addr,
                    ..s
                },
            )
        },
        Instruction::SkipEqImm { x, kk } => Ok(s.skip_if(s.reg(x) == kk)),
        Instruction::SkipNeImm { x, kk } => Ok(s.skip_if(s.reg(x) != kk)),
        Instruction::SkipEqReg { x, y } => Ok(s.skip_if(s.reg(x) == s.reg(y))),
        Instruction::LoadImm { x, kk } => Ok(s.set_reg(x, kk)),
        Instruction::AddImm { x, kk } => Ok(s.set_reg(x, wrap8(s.reg(x) + kk))),
        Instruction::Move { x, y } => Ok(s.set_reg(x, s.reg(y))),
        Instruction::Or { x, y } => Ok(s.set_reg(x, s.reg(x) | s.reg(y))),
        Instruction::And { x, y } => Ok(s.set_reg(x, s.reg(x) & s.reg(y))),
        Instruction::Xor { x, y } => Ok(s.set_reg(x, s.reg(x) ^ s.reg(y))),
        Instruction::AddReg { x, y } => Ok(
            s.set_reg_flag(
                x,
                wrap8(s.reg(x) + s.reg(y)),
                if s.reg(x) + s.reg(y) > 255 { 1 } else { 0 },
            ),
        ),
        Instruction::SubReg { x, y } => Ok(
            s.set_reg_flag(
                x,
                wrap8(s.reg(x) - s.reg(y)),
                if s.reg(x) >= s.reg(y) { 1 } else { 0 },
            ),
        ),
        Instruction::ShiftRight { x } => Ok(s.set_reg_flag(x, s.reg(x) / 2, s.reg(x) % 2)),
        Instruction::SubRev { x, y } => Ok(
            s.set_reg_flag(
                x,
                wrap8(s.reg(y) - s.reg(x)),
                if s.reg(y) >= s.reg(x) { 1 } else { 0 },
            ),
        ),
        Instruction::ShiftLeft { x } => Ok(
            s.set_reg_flag(x, wrap8(s.reg(x) * 2), s.reg(x) / 128),
        ),
        Instruction::SkipNeReg { x, y } => Ok(s.skip_if(s.reg(x) != s.reg(y))),
        Instruction::LoadIndex { addr } => Ok(Chip8State { i: addr, ..s }.advance(2)),
        Instruction::JumpOffset { addr } => Ok(Chip8State { pc: wrap16(addr as int, s.v[0] as int), ..s }),
        Instruction::Random { x, kk } => Ok(s.set_reg(x, rnd & kk)),
        Instruction::Draw { x, y, n } => if n > 0 && s.i + n > MEMORY_SIZE {
            Err(Chip8Error::OutOfBounds)
        } else {
            let (vx, vy) = (s.reg(x), s.reg(y));
            Ok(
                Chip8State {
                    display: s.drawn(vx, vy, n),
                    v: s.v.update(15, if s.collides(vx, vy, n) { 1 } else { 0 }),
                    ..s
                }.advance(2),
            )
        },
        Instruction::SkipKey { x } => if s.reg(x) >= 16 {
            Err(Chip8Error::InvalidKey)
        } else {
            Ok(s.skip_if(s.keypad[s.reg(x) as int]))
        },
        Instruction::SkipNoKey { x } => if s.reg(x) >= 16 {
            Err(Chip8Error::InvalidKey)
        } else {
            Ok(s.skip_if(!s.keypad[s.reg(x) as int]))
        },
        Instruction::ReadDelay { x } => Ok(s.set_reg(x, s.delay_timer)),
        Instruction::WaitKey { x } => {
            let k = first_pressed(s.keypad, 0);
            if k < 16 {
                Ok(s.set_reg(x, k as u8))
            } else {
                Ok(s)
            }
        },
        Instruction::SetDelay { x } => Ok(Chip8State { delay_timer: s.reg(x), ..s }.advance(2)),
        Instruction::SetSound { x } => Ok(Chip8State { sound_timer: s.reg(x), ..s }.advance(2)),
        Instruction::AddIndex { x } => Ok(
            Chip8State { i: wrap16(s.i as int, s.reg(x) as int), ..s }.advance(2),
        ),
        Instruction::FontChar { x } => Ok(
            Chip8State { i: (GLYPH_BYTES * (s.reg(x) % 16)) as u16, ..s }.advance(2),
        ),
        Instruction::Bcd { x } => if !writable(s.i as int) || !writable(s.i + 2) {
            Err(Chip8Error::OutOfBounds)
        } else {
            Ok(Chip8State { memory: s.with_bcd(s.reg(x)), ..s }.advance(2))
        },
        Instruction::StoreRegs { x } => if !writable(s.i as int) || !writable(s.i + x) {
            Err(Chip8Error::OutOfBounds)
        } else {
            Ok(Chip8State { memory: s.with_regs_stored(x), ..s }.advance(2))
        },
        Instruction::LoadRegs { x } => if s.i + x >= MEMORY_SIZE {
            Err(Chip8Error::OutOfBounds)
        } else {
            Ok(Chip8State { v: s.with_regs_loaded(x), ..s }.advance(2))
        },
        Instruction::Unknown => Ok(s.advance(2)),
    }
}

/// The state after one timer tick: each nonzero timer counts down by one.
pub open spec fn tick(s: Chip8State) -> Chip8State {
    Chip8State {
        delay_timer: if s.delay_timer > 0 { (s.delay_timer - 1) as u8 } else { 0 },
        sound_timer: if s.sound_timer > 0 { (s.sound_timer - 1) as u8 } else { 0 },
        ..s
    }
}

/// Whether the two bytes of the instruction at `pc` lie in memory.
pub open spec fn can_fetch(s: Chip8State) -> bool {
    s.pc + 1 < MEMORY_SIZE
}

/// The big-endian instruction word at `pc`.
pub open spec fn fetch(s: Chip8State) -> u16 {
    (s.memory[s.pc as int] * 256 + s.memory[s.pc + 1]) as u16
}

/// One full cycle: fetch, decode, execute, then tick the timers. A fault
/// leaves the state as it was.
pub open spec fn next_state(s: Chip8State, rnd: u8) -> Result<Chip8State, Chip8Error> {
    if !can_fetch(s) {
        Err(Chip8Error::OutOfBounds)
    } else {
        match execute(s, decode_word(fetch(s)), rnd) {
            Ok(t) => Ok(tick(t)),
            Err(e) => Err(e),
        }
    }
}

/// The machine as created: zeroed, with the font installed and `pc` at the program start.
pub open spec fn initial_state() -> Chip8State {
    Chip8State {
        memory: Seq::new(
            MEMORY_SIZE as nat,
            |a: int|
                if a < 80 {
                    FONTSET@[a]
                } else {
                    0u8
                },
        ),
        v: Seq::new(16, |r: int| 0u8),
        i: 0,
        pc: PROGRAM_START as u16,
        stack: Seq::new(STACK_DEPTH as nat, |k: int| 0u16),
        sp: 0,
        display: Seq::new(SCREEN_SIZE as nat, |p: int| false),
        delay_timer: 0,
        sound_timer: 0,
        keypad: Seq::new(16, |k: int| false),
    }
}

/// The state after loading `rom` at the program start, or the fault if it does not fit.
pub open spec fn load(s: Chip8State, rom: Seq<u8>) -> Result<Chip8State, Chip8Error> {
    if rom.len() > MEMORY_SIZE - PROGRAM_START {
        Err(Chip8Error::OutOfBounds)
    } else {
        Ok(
            Chip8State {
                memory: Seq::new(
                    MEMORY_SIZE as nat,
                    |a: int|
                        if PROGRAM_START <= a < PROGRAM_START + rom.len() {
                            rom[a - PROGRAM_START]
                        } else {
                            s.memory[a]
                        },
                ),
                ..s
            },
        )
    }
}

/// The state with key `key` set to `down`; a key index above 0xF is ignored.
pub open spec fn set_key(s: Chip8State, key: u8, down: bool) -> Chip8State {
    if key < 16 {
        Chip8State { keypad: s.keypad.update(key as int, down), ..s }
    } else {
        s
    }
}

/// Whether `r` and the state change from `before` to `after` are what `expected` says:
/// on success the new state, on a fault the same error and no change.
pub open spec fn outcome(
    before: Chip8State,
    after: Chip8State,
    r: Result<(), Chip8Error>,
    expected: Result<Chip8State, Chip8Error>,
) -> bool {
    match expected {
        Ok(t) => r == Ok::<(), Chip8Error>(()) && after == t,
        Err(e) => r == Err::<(), Chip8Error>(e) && after == before,
    }
}

/// Executing a well-formed instruction keeps the state well-formed; in
/// particular no instruction ever writes into the font.
pub proof fn lemma_execute_preserves_wf(s: Chip8State, ins: Instruction, rnd: u8)
    requires
        s.wf(),
        ins.well_formed(),
    ensures
        execute(s, ins, rnd) matches Ok(t) ==> t.wf(),
{
    match ins {
        Instruction::Bcd { x } => {
            if writable(s.i as int) && writable(s.i + 2) {
                assert(s.with_bcd(s.reg(x)).subrange(0, 80) =~= s.memory.subrange(0, 80));
            }
        },
        Instruction::StoreRegs { x } => {
            if writable(s.i as int) && writable(s.i + x) {
                assert(s.with_regs_stored(x).subrange(0, 80) =~= s.memory.subrange(0, 80));
            }
        },
        _ => {},
    }
}

/// A timer tick keeps the state well-formed.
pub proof fn lemma_tick_preserves_wf(s: Chip8State)
    requires
        s.wf(),
    ensures
        tick(s).wf(),
{
}

/// A full cycle keeps the state well-formed.
pub proof fn lemma_next_state_preserves_wf(s: Chip8State, rnd: u8)
    requires
        s.wf(),
    ensures
        next_state(s, rnd) matches Ok(t) ==> t.wf(),
{
    if can_fetch(s) {
        crate::instruction::lemma_decode_well_formed(fetch(s));
        lemma_execute_preserves_wf(s, decode_word(fetch(s)), rnd);
    }
}

/// Only a random instruction reads the random byte: for any other, a cycle's
/// outcome is the same whatever byte is drawn.
pub proof fn lemma_next_state_ignores_random(s: Chip8State, rnd: u8)
    ensures
        !(can_fetch(s) && decode_word(fetch(s)) is Random) ==> next_state(s, rnd) == next_state(s, 0),
{
}

} // verus!
