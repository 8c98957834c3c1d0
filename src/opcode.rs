//! Decoding of 16-bit opcodes into operations.

use vstd::prelude::*;

verus! {

/// A decoded instruction. `x` and `y` name registers, `n` is a 4-bit
/// immediate, `nn` an 8-bit one and `nnn` a 12-bit address.
#[derive(Clone, Copy, Debug, PartialEq, Eq, Structural)]
pub enum Op {
    /// `00E0`: clear the screen.
    Clear,
    /// `00EE`: return from a subroutine.
    Return,
    /// `1nnn`: jump to `nnn`.
    Jump { nnn: usize },
    /// `2nnn`: call the subroutine at `nnn`.
    Call { nnn: usize },
    /// `3xnn`: skip the next instruction if `Vx == nn`.
    SkipEqImm { x: usize, nn: u8 },
    /// `4xnn`: skip the next instruction if `Vx != nn`.
    SkipNeImm { x: usize, nn: u8 },
    /// `5xy0`: skip the next instruction if `Vx == Vy`.
    SkipEqReg { x: usize, y: usize },
    /// `6xnn`: `Vx = nn`.
    LoadImm { x: usize, nn: u8 },
    /// `7xnn`: `Vx += nn`, wrapping.
    AddImm { x: usize, nn: u8 },
    /// `8xy0`: `Vx = Vy`.
    Move { x: usize, y: usize },
    /// `8xy1`: `Vx |= Vy`, `VF = 0`.
    Or { x: usize, y: usize },
    /// `8xy2`: `Vx &= Vy`, `VF = 0`.
    And { x: usize, y: usize },
    /// `8xy3`: `Vx ^= Vy`, `VF = 0`.
    Xor { x: usize, y: usize },
    /// `8xy4`: `Vx += Vy`, `VF` = carry.
    AddReg { x: usize, y: usize },
    /// `8xy5`: `Vx -= Vy`, `VF` = no borrow.
    SubReg { x: usize, y: usize },
    /// `8xy6`: shift right by one, `VF` = bit shifted out.
    ShiftRight { x: usize, y: usize },
    /// `8xy7`: `Vx = Vy - Vx`, `VF` = no borrow.
    SubRev { x: usize, y: usize },
    /// `8xyE`: shift left by one, `VF` = bit shifted out.
    ShiftLeft { x: usize, y: usize },
    /// `9xy0`: skip the next instruction if `Vx != Vy`.
    SkipNeReg { x: usize, y: usize },
    /// `Annn`: `I = nnn`.
    LoadIndex { nnn: usize },
    /// `Bnnn`: jump to `nnn + V0`.
    JumpOffset { nnn: usize },
    /// `Cxnn`: `Vx` = random byte AND `nn`.
    Random { x: usize, nn: u8 },
    /// `Dxyn`: draw an `n`-row sprite from `I` at `(Vx, Vy)`, `VF` = collision.
    Draw { x: usize, y: usize, n: usize },
    /// `Ex9E`: skip the next instruction if key `Vx` is down.
    SkipKeyDown { x: usize },
    /// `ExA1`: skip the next instruction if key `Vx` is up.
    SkipKeyUp { x: usize },
    /// `Fx07`: `Vx` = delay timer.
    LoadDelay { x: usize },
    /// `Fx0A`: wait for a key and put it in `Vx`.
    WaitKey { x: usize },
    /// `Fx15`: delay timer = `Vx`.
    SetDelay { x: usize },
    /// `Fx18`: sound timer = `Vx`.
    SetSound { x: usize },
    /// `Fx1E`: `I += Vx`.
    AddIndex { x: usize },
    /// `Fx29`: `I` = address of the font glyph of the low nibble of `Vx`.
    FontGlyph { x: usize },
    /// `Fx33`: store the three decimal digits of `Vx` from `I`.
    Bcd { x: usize },
    /// `Fx55`: store `V0` to `Vx` from `I`, then `I += x + 1`.
    Store { x: usize },
    /// `Fx65`: load `V0` to `Vx` from `I`, then `I += x + 1`.
    Load { x: usize },
    /// Any other opcode: no effect.
    Invalid,
}

/// Bits 8 to 11 of an opcode.
pub open spec fn field_x(opcode: usize) -> usize {
    (opcode & 0x0F00) >> 8
}

/// Bits 4 to 7 of an opcode.
pub open spec fn field_y(opcode: usize) -> usize {
    (opcode & 0x00F0) >> 4
}

/// Bits 0 to 3 of an opcode.
pub open spec fn field_n(opcode: usize) -> usize {
    opcode & 0x000F
}

/// Bits 0 to 7 of an opcode.
pub open spec fn field_nn(opcode: usize) -> u8 {
    (opcode & 0x00FF) as u8
}

/// Bits 0 to 11 of an opcode.
pub open spec fn field_nnn(opcode: usize) -> usize {
    opcode & 0x0FFF
}

/// The operation an opcode stands for: dispatch on the top nibble, then on
/// the low nibble for the `0`, `8` and `E` families and on the low byte for
/// the `F` family.
pub open spec fn decoded(opcode: usize) -> Op {
    let x = field_x(opcode);
    let y = field_y(opcode);
    let n = field_n(opcode);
    let nn = field_nn(opcode);
    let nnn = field_nnn(opcode);
    let family = (opcode & 0xF000) >> 12;
    if family == 0x0 {
        if n == 0x0 {
            Op::Clear
        } else if n == 0xE {
            Op::Return
        } else {
            Op::Invalid
        }
    } else if family == 0x1 {
        Op::Jump { nnn }
    } else if family == 0x2 {
        Op::Call { nnn }
    } else if family == 0x3 {
        Op::SkipEqImm { x, nn }
    } else if family == 0x4 {
        Op::SkipNeImm { x, nn }
    } else if family == 0x5 {
        Op::SkipEqReg { x, y }
    } else if family == 0x6 {
        Op::LoadImm { x, nn }
    } else if family == 0x7 {
        Op::AddImm { x, nn }
    } else if family == 0x8 {
        if n == 0x0 {
            Op::Move { x, y }
        } else if n == 0x1 {
            Op::Or { x, y }
        } else if n == 0x2 {
            Op::And { x, y }
        } else if n == 0x3 {
            Op::Xor { x, y }
        } else if n == 0x4 {
            Op::AddReg { x, y }
        } else if n == 0x5 {
            Op::SubReg { x, y }
        } else if n == 0x6 {
            Op::ShiftRight { x, y }
        } else if n == 0x7 {
            Op::SubRev { x, y }
        } else if n == 0xE {
            Op::ShiftLeft { x, y }
        } else {
            Op::Invalid
        }
    } else if family == 0x9 {
        Op::SkipNeReg { x, y }
    } else if family == 0xA {
        Op::LoadIndex { nnn }
    } else if family == 0xB {
        Op::JumpOffset { nnn }
    } else if family == 0xC {
        Op::Random { x, nn }
    } else if family == 0xD {
        Op::Draw { x, y, n }
    } else if family == 0xE {
        if n == 0xE {
            Op::SkipKeyDown { x }
        } else if n == 0x1 {
            Op::SkipKeyUp { x }
        } else {
            Op::Invalid
        }
    } else if family == 0xF {
        if nn == 0x07 {
            Op::LoadDelay { x }
        } else if nn == 0x0A {
            Op::WaitKey { x }
        } else if nn == 0x15 {
            Op::SetDelay { x }
        } else if nn == 0x18 {
            Op::SetSound { x }
        } else if nn == 0x1E {
            Op::AddIndex { x }
        } else if nn == 0x29 {
            Op::FontGlyph { x }
        } else if nn == 0x33 {
            Op::Bcd { x }
        } else if nn == 0x55 {
            Op::Store { x }
        } else if nn == 0x65 {
            Op::Load { x }
        } else {
            Op::Invalid
        }
    } else {
        Op::Invalid
    }
}

/// Register fields of an operation are below 16, `n` below 16 and addresses
/// below 0x1000.
pub open spec fn fields_in_range(op: Op) -> bool {
    match op {
        Op::Jump { nnn } | Op::Call { nnn } | Op::LoadIndex { nnn } | Op::JumpOffset { nnn } => nnn
            < 0x1000,
        Op::SkipEqImm { x, .. } | Op::SkipNeImm { x, .. } | Op::LoadImm { x, .. } | Op::AddImm {
            x,
            ..
        } | Op::Random { x, .. } => x < 16,
        Op::SkipEqReg { x, y } | Op::SkipNeReg { x, y } | Op::Move { x, y } | Op::Or { x, y }
        | Op::And { x, y } | Op::Xor { x, y } | Op::AddReg { x, y } | Op::SubReg { x, y }
        | Op::ShiftRight { x, y } | Op::SubRev { x, y } | Op::ShiftLeft { x, y } => x < 16 && y < 16,
        Op::Draw { x, y, n } => x < 16 && y < 16 && n < 16,
        Op::SkipKeyDown { x } | Op::SkipKeyUp { x } | Op::LoadDelay { x } | Op::WaitKey { x }
        | Op::SetDelay { x } | Op::SetSound { x } | Op::AddIndex { x } | Op::FontGlyph { x }
        | Op::Bcd { x } | Op::Store { x } | Op::Load { x } => x < 16,
        Op::Clear | Op::Return | Op::Invalid => true,
    }
}

/// Decodes `opcode` into the operation it stands for.
pub fn decode(opcode: usize) -> (op: Op)
    ensures
        op == decoded(opcode),
        fields_in_range(op),
{
    let x = (opcode & 0x0F00) >> 8;
    let y = (opcode & 0x00F0) >> 4;
    let n = opcode & 0x000F;
    let nn = (opcode & 0x00FF) as u8;
    let nnn = opcode & 0x0FFF;
    assert(x < 16 && y < 16 && n < 16 && nnn < 0x1000) by (bit_vector)
        requires
            x == (opcode & 0x0F00) >> 8,
            y == (opcode & 0x00F0) >> 4,
            n == opcode & 0x000F,
            nnn == opcode & 0x0FFF,
    ;
    let family = (opcode & 0xF000) >> 12;
    if family == 0x0 {
        if n == 0x0 {
            Op::Clear
        } else if n == 0xE {
            Op::Return
        } else {
            Op::Invalid
        }
    } else if family == 0x1 {
        Op::Jump { nnn }
    } else if family == 0x2 {
        Op::Call { nnn }
    } else if family == 0x3 {
        Op::SkipEqImm { x, nn }
    } else if family == 0x4 {
        Op::SkipNeImm { x, nn }
    } else if family == 0x5 {
        Op::SkipEqReg { x, y }
    } else if family == 0x6 {
        Op::LoadImm { x, nn }
    } else if family == 0x7 {
        Op::AddImm { x, nn }
    } else if family == 0x8 {
        if n == 0x0 {
            Op::Move { x, y }
        } else if n == 0x1 {
            Op::Or { x, y }
        } else if n == 0x2 {
            Op::And { x, y }
        } else if n == 0x3 {
            Op::Xor { x, y }
        } else if n == 0x4 {
            Op::AddReg { x, y }
        } else if n == 0x5 {
            Op::SubReg { x, y }
        } else if n == 0x6 {
            Op::ShiftRight { x, y }
        } else if n == 0x7 {
            Op::SubRev { x, y }
        } else if n == 0xE {
            Op::ShiftLeft { x, y }
        } else {
            Op::Invalid
        }
    } else if family == 0x9 {
        Op::SkipNeReg { x, y }
    } else if family == 0xA {
        Op::LoadIndex { nnn }
    } else if family == 0xB {
        Op::JumpOffset { nnn }
    } else if family == 0xC {
        Op::Random { x, nn }
    } else if family == 0xD {
        Op::Draw { x, y, n }
    } else if family == 0xE {
        if n == 0xE {
            Op::SkipKeyDown { x }
        } else if n == 0x1 {
            Op::SkipKeyUp { x }
        } else {
            Op::Invalid
        }
    } else if family == 0xF {
        if nn == 0x07 {
            Op::LoadDelay { x }
        } else if nn == 0x0A {
            Op::WaitKey { x }
        } else if nn == 0x15 {
            Op::SetDelay { x }
        } else if nn == 0x18 {
            Op::SetSound { x }
        } else if nn == 0x1E {
            Op::AddIndex { x }
        } else if nn == 0x29 {
            Op::FontGlyph { x }
        } else if nn == 0x33 {
            Op::Bcd { x }
        } else if nn == 0x55 {
            Op::Store { x }
        } else if nn == 0x65 {
            Op::Load { x }
        } else {
            Op::Invalid
        }
    } else {
        Op::Invalid
    }
}

} // verus!
