use vstd::prelude::*;

verus! {

/// One decoded 16-bit instruction word. Register operands (`x`, `y`) and the
/// sprite height `n` are nibbles; `kk` is the low byte and `addr` the low 12 bits.
#[derive(Debug, Clone, Copy, PartialEq, Eq, Structural)]
pub enum Instruction {
    /// `00E0`: clear the framebuffer.
    Clear,
    /// `00EE`: return from a subroutine.
    Return,
    /// `1nnn`: jump to `addr`.
    Jump { addr: u16 },
    /// `2nnn`: call the subroutine at `addr`.
    Call { addr: u16 },
    /// `3xkk`: skip the next instruction if `Vx == kk`.
    SkipEqImm { x: u8, kk: u8 },
    /// `4xkk`: skip the next instruction if `Vx != kk`.
    SkipNeImm { x: u8, kk: u8 },
    /// `5xy0`: skip the next instruction if `Vx == Vy`.
    SkipEqReg { x: u8, y: u8 },
    /// `6xkk`: `Vx = kk`.
    LoadImm { x: u8, kk: u8 },
    /// `7xkk`: `Vx = Vx + kk`, wrapping, `VF` untouched.
    AddImm { x: u8, kk: u8 },
    /// `8xy0`: `Vx = Vy`.
    Move { x: u8, y: u8 },
    /// `8xy1`: `Vx = Vx | Vy`.
    Or { x: u8, y: u8 },
    /// `8xy2`: `Vx = Vx & Vy`.
    And { x: u8, y: u8 },
    /// `8xy3`: `Vx = Vx ^ Vy`.
    Xor { x: u8, y: u8 },
    /// `8xy4`: `Vx = Vx + Vy`, wrapping; `VF` = carry.
    AddReg { x: u8, y: u8 },
    /// `8xy5`: `Vx = Vx - Vy`, wrapping; `VF` = no borrow.
    SubReg { x: u8, y: u8 },
    /// `8xy6`: `VF` = low bit of `Vx`; `Vx >>= 1`.
    ShiftRight { x: u8 },
    /// `8xy7`: `Vx = Vy - Vx`, wrapping; `VF` = no borrow.
    SubRev { x: u8, y: u8 },
    /// `8xyE`: `VF` = high bit of `Vx`; `Vx <<= 1`.
    ShiftLeft { x: u8 },
    /// `9xy0`: skip the next instruction if `Vx != Vy`.
    SkipNeReg { x: u8, y: u8 },
    /// `Annn`: `I = addr`.
    LoadIndex { addr: u16 },
    /// `Bnnn`: jump to `addr + V0`.
    JumpOffset { addr: u16 },
    /// `Cxkk`: `Vx = random byte & kk`.
    Random { x: u8, kk: u8 },
    /// `Dxyn`: XOR an `n`-row sprite from `memory[I..]` onto the screen at `(Vx, Vy)`.
    Draw { x: u8, y: u8, n: u8 },
    /// `Ex9E`: skip the next instruction if key `Vx` is down.
    SkipKey { x: u8 },
    /// `ExA1`: skip the next instruction if key `Vx` is up.
    SkipNoKey { x: u8 },
    /// `Fx07`: `Vx = delay timer`.
    ReadDelay { x: u8 },
    /// `Fx0A`: wait for a key press and store its index in `Vx`.
    WaitKey { x: u8 },
    /// `Fx15`: `delay timer = Vx`.
    SetDelay { x: u8 },
    /// `Fx18`: `sound timer = Vx`.
    SetSound { x: u8 },
    /// `Fx1E`: `I = I + Vx`, wrapping at 16 bits.
    AddIndex { x: u8 },
    /// `Fx29`: `I` = address of the font glyph for the low nibble of `Vx`.
    FontChar { x: u8 },
    /// `Fx33`: store the three decimal digits of `Vx` at `I`, `I+1`, `I+2`.
    Bcd { x: u8 },
    /// `Fx55`: store `V0..=Vx` at `memory[I..=I+x]`.
    StoreRegs { x: u8 },
    /// `Fx65`: load `V0..=Vx` from `memory[I..=I+x]`.
    LoadRegs { x: u8 },
    /// Any word that matches no pattern: skipped.
    Unknown,
}

/// The `k`-th nibble of `op`, counting from the most significant (k = 0).
pub open spec fn nibble(op: u16, k: int) -> u8 {
    if k == 0 {
        (op / 0x1000) as u8
    } else if k == 1 {
        ((op / 0x100) % 0x10) as u8
    } else if k == 2 {
        ((op / 0x10) % 0x10) as u8
    } else {
        (op % 0x10) as u8
    }
}

/// The low byte of `op`.
pub open spec fn low_byte(op: u16) -> u8 {
    (op % 0x100) as u8
}

/// The low twelve bits of `op`.
pub open spec fn low_addr(op: u16) -> u16 {
    (op % 0x1000) as u16
}

/// The instruction that the word `op` encodes.
pub open spec fn decode_word(op: u16) -> Instruction {
    let (a, x, y, n) = (nibble(op, 0), nibble(op, 1), nibble(op, 2), nibble(op, 3));
    let kk = low_byte(op);
    let addr = low_addr(op);
    if op == 0x00E0 {
        Instruction::Clear
    } else if op == 0x00EE {
        Instruction::Return
    } else if a == 0x1 {
        Instruction::Jump { addr }
    } else if a == 0x2 {
        Instruction::Call { addr }
    } else if a == 0x3 {
        Instruction::SkipEqImm { x, kk }
    } else if a == 0x4 {
        Instruction::SkipNeImm { x, kk }
    } else if a == 0x5 && n == 0x0 {
        Instruction::SkipEqReg { x, y }
    } else if a == 0x6 {
        Instruction::LoadImm { x, kk }
    } else if a == 0x7 {
        Instruction::AddImm { x, kk }
    } else if a == 0x8 && n == 0x0 {
        Instruction::Move { x, y }
    } else if a == 0x8 && n == 0x1 {
        Instruction::Or { x, y }
    } else if a == 0x8 && n == 0x2 {
        Instruction::And { x, y }
    } else if a == 0x8 && n == 0x3 {
        Instruction::Xor { x, y }
    } else if a == 0x8 && n == 0x4 {
        Instruction::AddReg { x, y }
    } else if a == 0x8 && n == 0x5 {
        Instruction::SubReg { x, y }
    } else if a == 0x8 && n == 0x6 {
        Instruction::ShiftRight { x }
    } else if a == 0x8 && n == 0x7 {
        Instruction::SubRev { x, y }
    } else if a == 0x8 && n == 0xE {
        Instruction::ShiftLeft { x }
    } else if a == 0x9 && n == 0x0 {
        Instruction::SkipNeReg { x, y }
    } else if a == 0xA {
        Instruction::LoadIndex { addr }
    } else if a == 0xB {
        Instruction::JumpOffset { addr }
    } else if a == 0xC {
        Instruction::Random { x, kk }
    } else if a == 0xD {
        Instruction::Draw { x, y, n }
    } else if a == 0xE && kk == 0x9E {
        Instruction::SkipKey { x }
    } else if a == 0xE && kk == 0xA1 {
        Instruction::SkipNoKey { x }
    } else if a == 0xF && kk == 0x07 {
        Instruction::ReadDelay { x }
    } else if a == 0xF && kk == 0x0A {
        Instruction::WaitKey { x }
    } else if a == 0xF && kk == 0x15 {
        Instruction::SetDelay { x }
    } else if a == 0xF && kk == 0x18 {
        Instruction::SetSound { x }
    } else if a == 0xF && kk == 0x1E {
        Instruction::AddIndex { x }
    } else if a == 0xF && kk == 0x29 {
        Instruction::FontChar { x }
    } else if a == 0xF && kk == 0x33 {
        Instruction::Bcd { x }
    } else if a == 0xF && kk == 0x55 {
        Instruction::StoreRegs { x }
    } else if a == 0xF && kk == 0x65 {
        Instruction::LoadRegs { x }
    } else {
        Instruction::Unknown
    }
}

impl Instruction {
    /// Every operand fits the field it was decoded from: register indices and
    /// heights are nibbles, addresses are twelve bits.
    pub open spec fn well_formed(self) -> bool {
        match self {
            Instruction::Jump { addr } => addr < 0x1000,
            Instruction::Call { addr } => addr < 0x1000,
            Instruction::LoadIndex { addr } => addr < 0x1000,
            Instruction::JumpOffset { addr } => addr < 0x1000,
            Instruction::SkipEqImm { x, kk } => x < 16,
            Instruction::SkipNeImm { x, kk } => x < 16,
            Instruction::LoadImm { x, kk } => x < 16,
            Instruction::AddImm { x, kk } => x < 16,
            Instruction::Random { x, kk } => x < 16,
            Instruction::SkipEqReg { x, y } => x < 16 && y < 16,
            Instruction::Move { x, y } => x < 16 && y < 16,
            Instruction::Or { x, y } => x < 16 && y < 16,
            Instruction::And { x, y } => x < 16 && y < 16,
            Instruction::Xor { x, y } => x < 16 && y < 16,
            Instruction::AddReg { x, y } => x < 16 && y < 16,
            Instruction::SubReg { x, y } => x < 16 && y < 16,
            Instruction::SubRev { x, y } => x < 16 && y < 16,
            Instruction::SkipNeReg { x, y } => x < 16 && y < 16,
            Instruction::Draw { x, y, n } => x < 16 && y < 16 && n < 16,
            Instruction::ShiftRight { x } => x < 16,
            Instruction::ShiftLeft { x } => x < 16,
            Instruction::SkipKey { x } => x < 16,
            Instruction::SkipNoKey { x } => x < 16,
            Instruction::ReadDelay { x } => x < 16,
            Instruction::WaitKey { x } => x < 16,
            Instruction::SetDelay { x } => x < 16,
            Instruction::SetSound { x } => x < 16,
            Instruction::AddIndex { x } => x < 16,
            Instruction::FontChar { x } => x < 16,
            Instruction::Bcd { x } => x < 16,
            Instruction::StoreRegs { x } => x < 16,
            Instruction::LoadRegs { x } => x < 16,
            Instruction::Clear | Instruction::Return | Instruction::Unknown => true,
        }
    }
}

/// Every decoded word has operands in range.
pub proof fn lemma_decode_well_formed(op: u16)
    ensures
        decode_word(op).well_formed(),
{
}

/// Splits `op` into its nibble fields and picks the instruction they encode.
pub fn decode(op: u16) -> (r: Instruction)
    ensures
        r == decode_word(op),
        r.well_formed(),
{
    let a = (op / 0x1000) as u8;
    let x = ((op / 0x100) % 0x10) as u8;
    let y = ((op / 0x10) % 0x10) as u8;
    let n = (op % 0x10) as u8;
    let kk = (op % 0x100) as u8;
    let addr = op % 0x1000;
    if op == 0x00E0 {
        Instruction::Clear
    } else if op == 0x00EE {
        Instruction::Return
    } else if a == 0x1 {
        Instruction::Jump { addr }
    } else if a == 0x2 {
        Instruction::Call { addr }
    } else if a == 0x3 {
        Instruction::SkipEqImm { x, kk }
    } else if a == 0x4 {
        Instruction::SkipNeImm { x, kk }
    } else if a == 0x5 && n == 0x0 {
        Instruction::SkipEqReg { x, y }
    } else if a == 0x6 {
        Instruction::LoadImm { x, kk }
    } else if a == 0x7 {
        Instruction::AddImm { x, kk }
    } else if a == 0x8 {
        match n {
            0x0 => Instruction::Move { x, y },
            0x1 => Instruction::Or { x, y },
            0x2 => Instruction::And { x, y },
            0x3 => Instruction::Xor { x, y },
            0x4 => Instruction::AddReg { x, y },
            0x5 => Instruction::SubReg { x, y },
            0x6 => Instruction::ShiftRight { x },
            0x7 => Instruction::SubRev { x, y },
            0xE => Instruction::ShiftLeft { x },
            _ => Instruction::Unknown,
        }
    } else if a == 0x9 && n == 0x0 {
        Instruction::SkipNeReg { x, y }
    } else if a == 0xA {
        Instruction::LoadIndex { addr }
    } else if a == 0xB {
        Instruction::JumpOffset { addr }
    } else if a == 0xC {
        Instruction::Random { x, kk }
    } else if a == 0xD {
        Instruction::Draw { x, y, n }
    } else if a == 0xE && kk == 0x9E {
        Instruction::SkipKey { x }
    } else if a == 0xE && kk == 0xA1 {
        Instruction::SkipNoKey { x }
    } else if a == 0xF {
        match kk {
            0x07 => Instruction::ReadDelay { x },
            0x0A => Instruction::WaitKey { x },
            0x15 => Instruction::SetDelay { x },
            0x18 => Instruction::SetSound { x },
            0x1E => Instruction::AddIndex { x },
            0x29 => Instruction::FontChar { x },
            0x33 => Instruction::Bcd { x },
            0x55 => Instruction::StoreRegs { x },
            0x65 => Instruction::LoadRegs { x },
            _ => Instruction::Unknown,
        }
    } else {
        Instruction::Unknown
    }
}

} // verus!
