//! Human-readable descriptions of operations, as recorded in the
//! instruction trace.

use crate::opcode::Op;
use vstd::prelude::*;
use vstd::string::StringExecFns;

verus! {

/// The hex digit of `d` (0 to 15), upper case.
pub open spec fn hex_digit(d: int) -> Seq<char> {
    if d == 0 {
        "0"@
    } else if d == 1 {
        "1"@
    } else if d == 2 {
        "2"@
    } else if d == 3 {
        "3"@
    } else if d == 4 {
        "4"@
    } else if d == 5 {
        "5"@
    } else if d == 6 {
        "6"@
    } else if d == 7 {
        "7"@
    } else if d == 8 {
        "8"@
    } else if d == 9 {
        "9"@
    } else if d == 10 {
        "A"@
    } else if d == 11 {
        "B"@
    } else if d == 12 {
        "C"@
    } else if d == 13 {
        "D"@
    } else if d == 14 {
        "E"@
    } else {
        "F"@
    }
}

/// `n` in decimal.
pub open spec fn decimal(n: int) -> Seq<char>
    decreases n,
{
    if n < 10 {
        hex_digit(n)
    } else {
        decimal(n / 10) + hex_digit(n % 10)
    }
}

/// An address below 0x10000 as `0x` and four hex digits.
pub open spec fn address_text(a: int) -> Seq<char> {
    "0x"@ + hex_digit(a / 0x1000 % 16) + hex_digit(a / 0x100 % 16) + hex_digit(a / 0x10 % 16)
        + hex_digit(a % 16)
}

/// The description of `op`.
pub open spec fn description(op: Op) -> Seq<char> {
    match op {
        Op::Clear => "Clear the screen"@,
        Op::Return => "Return from subroutine"@,
        Op::Jump { nnn } => "Jump to addr "@ + address_text(nnn as int),
        Op::Call { nnn } => "Call subroutine at "@ + address_text(nnn as int),
        Op::SkipEqImm { x, nn } => "If V"@ + hex_digit(x as int) + " == "@ + decimal(nn as int) + ", skip next instr"@,
        Op::SkipNeImm { x, nn } => "If V"@ + hex_digit(x as int) + " != "@ + decimal(nn as int) + ", skip next instr"@,
        Op::SkipEqReg { x, y } => "If V"@ + hex_digit(x as int) + " == V"@ + hex_digit(y as int) + ", skip next instr"@,
        Op::LoadImm { x, nn } => "Set V"@ + hex_digit(x as int) + " to "@ + decimal(nn as int),
        Op::AddImm { x, nn } => "Add "@ + decimal(nn as int) + " to V"@ + hex_digit(x as int),
        Op::Move { x, y } => "Set V"@ + hex_digit(x as int) + " to V"@ + hex_digit(y as int),
        Op::Or { x, y } => "Set V"@ + hex_digit(x as int) + " to V"@ + hex_digit(x as int) + " OR V"@ + hex_digit(y as int),
        Op::And { x, y } => "Set V"@ + hex_digit(x as int) + " to V"@ + hex_digit(x as int) + " AND V"@ + hex_digit(y as int),
        Op::Xor { x, y } => "Set V"@ + hex_digit(x as int) + " to V"@ + hex_digit(x as int) + " XOR V"@ + hex_digit(y as int),
        Op::AddReg { x, y } => "Set V"@ + hex_digit(x as int) + " to V"@ + hex_digit(x as int) + " + V"@ + hex_digit(y as int) + ", VF = carry"@,
        Op::SubReg { x, y } => "Set V"@ + hex_digit(x as int) + " to V"@ + hex_digit(x as int) + " - V"@ + hex_digit(y as int) + ", VF = no borrow"@,
        Op::ShiftRight { x, y } => "V"@ + hex_digit(x as int) + " shifted one right, VF = bit out"@,
        Op::SubRev { x, y } => "Set V"@ + hex_digit(x as int) + " to V"@ + hex_digit(y as int) + " - V"@ + hex_digit(x as int) + ", VF = no borrow"@,
        Op::ShiftLeft { x, y } => "V"@ + hex_digit(x as int) + " shifted one left, VF = bit out"@,
        Op::SkipNeReg { x, y } => "If V"@ + hex_digit(x as int) + " != V"@ + hex_digit(y as int) + ", skip next instr"@,
        Op::LoadIndex { nnn } => "Set I register to "@ + address_text(nnn as int),
        Op::JumpOffset { nnn } => "Jump to "@ + address_text(nnn as int) + " + V0"@,
        Op::Random { x, nn } => "Set V"@ + hex_digit(x as int) + " to a random byte AND "@ + decimal(nn as int),
        Op::Draw { x, y, n } => "Draw "@ + decimal(n as int) + " byte sprite from I at (V"@ + hex_digit(x as int) + ", V"@ + hex_digit(y as int) + ")"@,
        Op::SkipKeyDown { x } => "Skip next instr if key V"@ + hex_digit(x as int) + " pressed"@,
        Op::SkipKeyUp { x } => "Skip next instr if key V"@ + hex_digit(x as int) + " not pressed"@,
        Op::LoadDelay { x } => "Set V"@ + hex_digit(x as int) + " to delay timer"@,
        Op::WaitKey { x } => "Store next key press in V"@ + hex_digit(x as int),
        Op::SetDelay { x } => "Set delay timer to V"@ + hex_digit(x as int),
        Op::SetSound { x } => "Set sound timer to V"@ + hex_digit(x as int),
        Op::AddIndex { x } => "Set I to I + V"@ + hex_digit(x as int),
        Op::FontGlyph { x } => "Set I to addr of sprite digit in V"@ + hex_digit(x as int),
        Op::Bcd { x } => "Store BCD of V"@ + hex_digit(x as int) + " starting at I"@,
        Op::Store { x } => "Store V0 to V"@ + hex_digit(x as int) + " starting at I"@,
        Op::Load { x } => "Read memory at I into V0 to V"@ + hex_digit(x as int),
        Op::Invalid => "Invalid instruction"@,
    }
}

fn hex_digit_str(d: usize) -> (r: &'static str)
    requires
        d < 16,
    ensures
        r@ == hex_digit(d as int),
{
    if d == 0 {
        "0"
    } else if d == 1 {
        "1"
    } else if d == 2 {
        "2"
    } else if d == 3 {
        "3"
    } else if d == 4 {
        "4"
    } else if d == 5 {
        "5"
    } else if d == 6 {
        "6"
    } else if d == 7 {
        "7"
    } else if d == 8 {
        "8"
    } else if d == 9 {
        "9"
    } else if d == 10 {
        "A"
    } else if d == 11 {
        "B"
    } else if d == 12 {
        "C"
    } else if d == 13 {
        "D"
    } else if d == 14 {
        "E"
    } else {
        "F"
    }
}

fn append_decimal(s: &mut String, n: u8)
    ensures
        final(s)@ == old(s)@ + decimal(n as int),
{
    if n >= 100 {
        s.append(hex_digit_str((n / 100) as usize));
        s.append(hex_digit_str((n / 10 % 10) as usize));
        s.append(hex_digit_str((n % 10) as usize));
        let ghost m = n as int;
        assert(m / 10 / 10 == m / 100);
        assert(decimal(m / 10) == decimal(m / 100) + hex_digit(m / 10 % 10));
        assert(decimal(m) == decimal(m / 10) + hex_digit(m % 10));
        assert(decimal(m) == decimal(m / 100) + hex_digit(m / 10 % 10) + hex_digit(m % 10));
    } else if n >= 10 {
        s.append(hex_digit_str((n / 10) as usize));
        s.append(hex_digit_str((n % 10) as usize));
        assert(decimal(n as int) == decimal(n as int / 10) + hex_digit(n as int % 10));
    } else {
        s.append(hex_digit_str(n as usize));
    }
}

fn append_address(s: &mut String, a: usize)
    requires
        a < 0x10000,
    ensures
        final(s)@ == old(s)@ + address_text(a as int),
{
    s.append("0x");
    s.append(hex_digit_str(a / 0x1000 % 16));
    s.append(hex_digit_str(a / 0x100 % 16));
    s.append(hex_digit_str(a / 0x10 % 16));
    s.append(hex_digit_str(a % 16));
    assert(final(s)@ =~= old(s)@ + address_text(a as int));
}

/// The description of `op`, for the instruction trace.
pub fn describe(op: Op) -> (r: String)
    requires
        crate::opcode::fields_in_range(op),
    ensures
        r@ == description(op),
{
    match op {
        Op::Clear => String::from_str("Clear the screen"),
        Op::Return => String::from_str("Return from subroutine"),
        Op::Jump { nnn } => {
            let mut s = String::from_str("Jump to addr ");
            append_address(&mut s, nnn);
            s
        },
        Op::Call { nnn } => {
            let mut s = String::from_str("Call subroutine at ");
            append_address(&mut s, nnn);
            s
        },
        Op::SkipEqImm { x, nn } => {
            let mut s = String::from_str("If V");
            s.append(hex_digit_str(x));
            s.append(" == ");
            append_decimal(&mut s, nn);
            s.append(", skip next instr");
            s
        },
        Op::SkipNeImm { x, nn } => {
            let mut s = String::from_str("If V");
            s.append(hex_digit_str(x));
            s.append(" != ");
            append_decimal(&mut s, nn);
            s.append(", skip next instr");
            s
        },
        Op::SkipEqReg { x, y } => {
            let mut s = String::from_str("If V");
            s.append(hex_digit_str(x));
            s.append(" == V");
            s.append(hex_digit_str(y));
            s.append(", skip next instr");
            s
        },
        Op::LoadImm { x, nn } => {
            let mut s = String::from_str("Set V");
            s.append(hex_digit_str(x));
            s.append(" to ");
            append_decimal(&mut s, nn);
            s
        },
        Op::AddImm { x, nn } => {
            let mut s = String::from_str("Add ");
            append_decimal(&mut s, nn);
            s.append(" to V");
            s.append(hex_digit_str(x));
            s
        },
        Op::Move { x, y } => {
            let mut s = String::from_str("Set V");
            s.append(hex_digit_str(x));
            s.append(" to V");
            s.append(hex_digit_str(y));
            s
        },
        Op::Or { x, y } => {
            let mut s = String::from_str("Set V");
            s.append(hex_digit_str(x));
            s.append(" to V");
            s.append(hex_digit_str(x));
            s.append(" OR V");
            s.append(hex_digit_str(y));
            s
        },
        Op::And { x, y } => {
            let mut s = String::from_str("Set V");
            s.append(hex_digit_str(x));
            s.append(" to V");
            s.append(hex_digit_str(x));
            s.append(" AND V");
            s.append(hex_digit_str(y));
            s
        },
        Op::Xor { x, y } => {
            let mut s = String::from_str("Set V");
            s.append(hex_digit_str(x));
            s.append(" to V");
            s.append(hex_digit_str(x));
            s.append(" XOR V");
            s.append(hex_digit_str(y));
            s
        },
        Op::AddReg { x, y } => {
            let mut s = String::from_str("Set V");
            s.append(hex_digit_str(x));
            s.append(" to V");
            s.append(hex_digit_str(x));
            s.append(" + V");
            s.append(hex_digit_str(y));
            s.append(", VF = carry");
            s
        },
        Op::SubReg { x, y } => {
            let mut s = String::from_str("Set V");
            s.append(hex_digit_str(x));
            s.append(" to V");
            s.append(hex_digit_str(x));
            s.append(" - V");
            s.append(hex_digit_str(y));
            s.append(", VF = no borrow");
            s
        },
        Op::ShiftRight { x, y } => {
            let mut s = String::from_str("V");
            s.append(hex_digit_str(x));
            s.append(" shifted one right, VF = bit out");
            s
        },
        Op::SubRev { x, y } => {
            let mut s = String::from_str("Set V");
            s.append(hex_digit_str(x));
            s.append(" to V");
            s.append(hex_digit_str(y));
            s.append(" - V");
            s.append(hex_digit_str(x));
            s.append(", VF = no borrow");
            s
        },
        Op::ShiftLeft { x, y } => {
            let mut s = String::from_str("V");
            s.append(hex_digit_str(x));
            s.append(" shifted one left, VF = bit out");
            s
        },
        Op::SkipNeReg { x, y } => {
            let mut s = String::from_str("If V");
            s.append(hex_digit_str(x));
            s.append(" != V");
            s.append(hex_digit_str(y));
            s.append(", skip next instr");
            s
        },
        Op::LoadIndex { nnn } => {
            let mut s = String::from_str("Set I register to ");
            append_address(&mut s, nnn);
            s
        },
        Op::JumpOffset { nnn } => {
            let mut s = String::from_str("Jump to ");
            append_address(&mut s, nnn);
            s.append(" + V0");
            s
        },
        Op::Random { x, nn } => {
            let mut s = String::from_str("Set V");
            s.append(hex_digit_str(x));
            s.append(" to a random byte AND ");
            append_decimal(&mut s, nn);
            s
        },
        Op::Draw { x, y, n } => {
            let mut s = String::from_str("Draw ");
            append_decimal(&mut s, n as u8);
            s.append(" byte sprite from I at (V");
            s.append(hex_digit_str(x));
            s.append(", V");
            s.append(hex_digit_str(y));
            s.append(")");
            s
        },
        Op::SkipKeyDown { x } => {
            let mut s = String::from_str("Skip next instr if key V");
            s.append(hex_digit_str(x));
            s.append(" pressed");
            s
        },
        Op::SkipKeyUp { x } => {
            let mut s = String::from_str("Skip next instr if key V");
            s.append(hex_digit_str(x));
            s.append(" not pressed");
            s
        },
        Op::LoadDelay { x } => {
            let mut s = String::from_str("Set V");
            s.append(hex_digit_str(x));
            s.append(" to delay timer");
            s
        },
        Op::WaitKey { x } => {
            let mut s = String::from_str("Store next key press in V");
            s.append(hex_digit_str(x));
            s
        },
        Op::SetDelay { x } => {
            let mut s = String::from_str("Set delay timer to V");
            s.append(hex_digit_str(x));
            s
        },
        Op::SetSound { x } => {
            let mut s = String::from_str("Set sound timer to V");
            s.append(hex_digit_str(x));
            s
        },
        Op::AddIndex { x } => {
            let mut s = String::from_str("Set I to I + V");
            s.append(hex_digit_str(x));
            s
        },
        Op::FontGlyph { x } => {
            let mut s = String::from_str("Set I to addr of sprite digit in V");
            s.append(hex_digit_str(x));
            s
        },
        Op::Bcd { x } => {
            let mut s = String::from_str("Store BCD of V");
            s.append(hex_digit_str(x));
            s.append(" starting at I");
            s
        },
        Op::Store { x } => {
            let mut s = String::from_str("Store V0 to V");
            s.append(hex_digit_str(x));
            s.append(" starting at I");
            s
        },
        Op::Load { x } => {
            let mut s = String::from_str("Read memory at I into V0 to V");
            s.append(hex_digit_str(x));
            s
        },
        Op::Invalid => String::from_str("Invalid instruction"),
    }
}

} // verus!
