//! The processor: register file, call stack, instruction trace, and the
//! fetch-decode-execute cycle.

use crate::clock::Clock;
use crate::describe::{describe, description};
use crate::graphics::{lemma_sprite_collision, overlaps, sprite_drawn, Rgb, HEIGHT, PIXEL_COUNT, WIDTH};
use crate::input::{key_requested, response_taken, InputView, KEY_COUNT};
use crate::memory::{byte_at, stored, MEMORY_SIZE};
use crate::opcode::{decode, decoded, fields_in_range, Op};
use crate::Bus;
use std::collections::VecDeque;
use vstd::prelude::*;

verus! {

/// Number of instructions the trace keeps.
pub const INSTRUCTION_BUFFER_LENGTH: usize = 100;

/// Address of the first instruction executed.
pub const STARTING_PC: usize = 0x200;

/// Number of general-purpose registers.
pub const REGISTER_COUNT: usize = 16;

/// Number of entries in the call stack.
pub const STACK_SIZE: usize = 16;

/// Index of the flag register VF.
pub const VF: usize = 15;

/// Declares `getrandom::Error`, the failure of the system's random source.
#[verifier::external_type_specification]
#[verifier::external_body]
pub struct ExRandomError(getrandom::Error);

/// Relies on `getrandom::getrandom`: it fills the buffer from the system's
/// random source, or reports that the source failed. Nothing is known of the
/// byte.
#[verifier::external_body]
fn random_byte() -> Result<u8, getrandom::Error> {
    let mut buf = [0u8; 1];
    getrandom::getrandom(&mut buf).map(|()| buf[0])
}

/// How the program counter moves after an instruction.
#[derive(Clone, Copy, Debug, PartialEq, Eq, Structural)]
pub enum ProgramCounterUpdate {
    /// To the next instruction: `pc + 2`.
    Next,
    /// Over the next instruction: `pc + 4`.
    SkipNext,
    /// To the given address.
    Jump(usize),
}

/// One entry of the instruction trace.
pub struct Instruction {
    /// Address the instruction was fetched from.
    pub address: usize,
    /// The opcode.
    pub opcode: usize,
    /// What the instruction does, in words.
    pub display: String,
}

/// The register file, program counter, call stack, configuration and
/// instruction trace of the machine.
pub struct Cpu {
    /// The registers V0 to VF.
    pub v: [u8; REGISTER_COUNT],
    /// The index register I.
    pub i: u16,
    /// The program counter.
    pub pc: usize,
    /// The number of addresses on the call stack.
    pub sp: usize,
    /// The call stack; entries below `sp` are in use.
    pub stack: [usize; STACK_SIZE],
    /// Whether `8xy6` and `8xyE` shift `Vy` into `Vx` rather than `Vx` itself.
    pub shift_quirk_enabled: bool,
    /// Whether `Dxyn` waits for a timer tick before drawing.
    pub vblank_wait: bool,
    /// The latest instructions executed, newest first.
    pub instructions: VecDeque<Instruction>,
}

/// The state that instructions read and write.
pub struct Machine {
    /// The registers V0 to VF.
    pub v: Seq<u8>,
    /// The index register.
    pub i: u16,
    /// The stack pointer.
    pub sp: usize,
    /// The call stack.
    pub stack: Seq<usize>,
    /// The framebuffer pixels.
    pub pixels: Seq<Rgb>,
    /// The memory.
    pub memory: Seq<u8>,
    /// The keypad.
    pub input: InputView,
    /// The delay timer.
    pub delay: u8,
    /// The sound timer.
    pub sound: u8,
}

/// The state of `cpu` and `bus` that instructions read and write.
pub open spec fn machine(cpu: Cpu, bus: Bus) -> Machine {
    Machine {
        v: cpu.v@,
        i: cpu.i,
        sp: cpu.sp,
        stack: cpu.stack@,
        pixels: bus.graphics.pixels(),
        memory: bus.memory@,
        input: bus.input@,
        delay: bus.clock.delay(),
        sound: bus.clock.sound(),
    }
}

/// `SkipNext` if `cond`, else `Next`.
pub open spec fn skip_if(cond: bool) -> ProgramCounterUpdate {
    if cond {
        ProgramCounterUpdate::SkipNext
    } else {
        ProgramCounterUpdate::Next
    }
}

/// The registers with `value` in `Vx` and then `flag` in VF.
pub open spec fn with_flag(v: Seq<u8>, x: usize, value: u8, flag: u8) -> Seq<u8> {
    v.update(x as int, value).update(VF as int, flag)
}

/// 1 if `b`, else 0.
pub open spec fn bit(b: bool) -> u8 {
    if b {
        1
    } else {
        0
    }
}

/// `a - b` modulo 256.
pub open spec fn wrapping_diff(a: u8, b: u8) -> u8 {
    ((a + 256 - b) % 256) as u8
}

/// `i + k` modulo 0x10000.
pub open spec fn index_plus(i: u16, k: int) -> u16 {
    ((i + k) % 0x10000) as u16
}

/// The rows of an `n`-row sprite read from `i` on.
pub open spec fn sprite_rows(memory: Seq<u8>, i: u16, n: usize) -> Seq<u8> {
    Seq::new(n as nat, |k: int| byte_at(memory, i + k))
}

/// The state after `op` executes on `m` from address `pc`, and where the
/// program counter goes. `fg` and `bg` are the palette, `shift_quirk` the
/// shift configuration and `rand` the random byte drawn for `Cxnn`.
/// A call with a full stack and a return with an empty one do nothing;
/// memory accesses outside the memory read 0 and write nothing.
pub open spec fn executed(
    op: Op,
    m: Machine,
    fg: Rgb,
    bg: Rgb,
    shift_quirk: bool,
    pc: usize,
    rand: u8,
) -> (Machine, ProgramCounterUpdate) {
    let v = m.v;
    match op {
        Op::Clear => (
            Machine { pixels: Seq::new(PIXEL_COUNT as nat, |i: int| bg), ..m },
            ProgramCounterUpdate::Next,
        ),
        Op::Return => if 0 < m.sp <= STACK_SIZE {
            (Machine { sp: (m.sp - 1) as usize, ..m }, ProgramCounterUpdate::Jump(m.stack[m.sp - 1]))
        } else {
            (m, ProgramCounterUpdate::Next)
        },
        Op::Jump { nnn } => (m, ProgramCounterUpdate::Jump(nnn)),
        Op::Call { nnn } => if m.sp < STACK_SIZE {
            (
                Machine {
                    stack: m.stack.update(m.sp as int, (pc + 2) as usize),
                    sp: (m.sp + 1) as usize,
                    ..m
                },
                ProgramCounterUpdate::Jump(nnn),
            )
        } else {
            (m, ProgramCounterUpdate::Next)
        },
        Op::SkipEqImm { x, nn } => (m, skip_if(v[x as int] == nn)),
        Op::SkipNeImm { x, nn } => (m, skip_if(v[x as int] != nn)),
        Op::SkipEqReg { x, y } => (m, skip_if(v[x as int] == v[y as int])),
        Op::SkipNeReg { x, y } => (m, skip_if(v[x as int] != v[y as int])),
        Op::LoadImm { x, nn } => (Machine { v: v.update(x as int, nn), ..m }, ProgramCounterUpdate::Next),
        Op::AddImm { x, nn } => (
            Machine { v: v.update(x as int, ((v[x as int] + nn) % 256) as u8), ..m },
            ProgramCounterUpdate::Next,
        ),
        Op::Move { x, y } => (Machine { v: v.update(x as int, v[y as int]), ..m }, ProgramCounterUpdate::Next),
        Op::Or { x, y } => (
            Machine { v: with_flag(v, x, v[x as int] | v[y as int], 0), ..m },
            ProgramCounterUpdate::Next,
        ),
        Op::And { x, y } => (
            Machine { v: with_flag(v, x, v[x as int] & v[y as int], 0), ..m },
            ProgramCounterUpdate::Next,
        ),
        Op::Xor { x, y } => (
            Machine { v: with_flag(v, x, v[x as int] ^ v[y as int], 0), ..m },
            ProgramCounterUpdate::Next,
        ),
        Op::AddReg { x, y } => (
            Machine {
                v: with_flag(
                    v,
                    x,
                    ((v[x as int] + v[y as int]) % 256) as u8,
                    bit(v[x as int] + v[y as int] > 255),
                ),
                ..m
            },
            ProgramCounterUpdate::Next,
        ),
        Op::SubReg { x, y } => (
            Machine {
                v: with_flag(v, x, wrapping_diff(v[x as int], v[y as int]), bit(v[x as int] >= v[y as int])),
                ..m
            },
            ProgramCounterUpdate::Next,
        ),
        Op::SubRev { x, y } => (
            Machine {
                v: with_flag(v, x, wrapping_diff(v[y as int], v[x as int]), bit(v[y as int] >= v[x as int])),
                ..m
            },
            ProgramCounterUpdate::Next,
        ),
        Op::ShiftRight { x, y } => {
            let s = if shift_quirk { v[y as int] } else { v[x as int] };
            (Machine { v: with_flag(v, x, s / 2, s % 2), ..m }, ProgramCounterUpdate::Next)
        },
        Op::ShiftLeft { x, y } => {
            let s = if shift_quirk { v[y as int] } else { v[x as int] };
            (Machine { v: with_flag(v, x, ((s * 2) % 256) as u8, s / 128), ..m }, ProgramCounterUpdate::Next)
        },
        Op::LoadIndex { nnn } => (Machine { i: nnn as u16, ..m }, ProgramCounterUpdate::Next),
        Op::JumpOffset { nnn } => (m, ProgramCounterUpdate::Jump((nnn + v[0]) as usize)),
        Op::Random { x, nn } => (Machine { v: v.update(x as int, rand & nn), ..m }, ProgramCounterUpdate::Next),
        Op::Draw { x, y, n } => {
            let (pixels, collision) = sprite_drawn(
                m.pixels,
                fg,
                bg,
                (v[x as int] as int) % (WIDTH as int),
                (v[y as int] as int) % (HEIGHT as int),
                sprite_rows(m.memory, m.i, n),
            );
            (Machine { pixels, v: v.update(VF as int, bit(collision)), ..m }, ProgramCounterUpdate::Next)
        },
        Op::SkipKeyDown { x } => (m, skip_if(v[x as int] < KEY_COUNT && m.input.keys[v[x as int] as int])),
        Op::SkipKeyUp { x } => (m, skip_if(!(v[x as int] < KEY_COUNT && m.input.keys[v[x as int] as int]))),
        Op::LoadDelay { x } => (Machine { v: v.update(x as int, m.delay), ..m }, ProgramCounterUpdate::Next),
        Op::WaitKey { x } => (Machine { input: key_requested(m.input, x), ..m }, ProgramCounterUpdate::Next),
        Op::SetDelay { x } => (Machine { delay: v[x as int], ..m }, ProgramCounterUpdate::Next),
        Op::SetSound { x } => (Machine { sound: v[x as int], ..m }, ProgramCounterUpdate::Next),
        Op::AddIndex { x } => (Machine { i: index_plus(m.i, v[x as int] as int), ..m }, ProgramCounterUpdate::Next),
        Op::FontGlyph { x } => (Machine { i: (5 * (v[x as int] % 16)) as u16, ..m }, ProgramCounterUpdate::Next),
        Op::Bcd { x } => (
            Machine {
                memory: stored(
                    stored(stored(m.memory, m.i as int, v[x as int] / 100), m.i + 1, v[x as int] / 10 % 10),
                    m.i + 2,
                    v[x as int] % 10,
                ),
                ..m
            },
            ProgramCounterUpdate::Next,
        ),
        Op::Store { x } => (
            Machine {
                memory: Seq::new(
                    m.memory.len(),
                    |a: int| if m.i <= a <= m.i + x { v[a - m.i] } else { m.memory[a] },
                ),
                i: index_plus(m.i, x + 1),
                ..m
            },
            ProgramCounterUpdate::Next,
        ),
        Op::Load { x } => (
            Machine {
                v: Seq::new(
                    REGISTER_COUNT as nat,
                    |k: int| if k <= x { byte_at(m.memory, m.i + k) } else { v[k] },
                ),
                i: index_plus(m.i, x + 1),
                ..m
            },
            ProgramCounterUpdate::Next,
        ),
        Op::Invalid => (m, ProgramCounterUpdate::Next),
    }
}

/// What executing an instruction leaves alone on the bus: the palette, the
/// tick flag and the timer's reference time; the bus stays well formed.
pub open spec fn bus_frame(b0: Bus, b1: Bus) -> bool {
    &&& b1.wf()
    &&& b1.graphics.fg() == b0.graphics.fg()
    &&& b1.graphics.bg() == b0.graphics.bg()
    &&& b1.clock.vblank() == b0.clock.vblank()
    &&& b1.clock.ticks() == b0.clock.ticks()
}

/// What executing an instruction leaves alone in the processor: the program
/// counter, the configuration and the trace.
pub open spec fn cpu_frame(c0: Cpu, c1: Cpu) -> bool {
    &&& c1.pc == c0.pc
    &&& c1.shift_quirk_enabled == c0.shift_quirk_enabled
    &&& c1.vblank_wait == c0.vblank_wait
    &&& c1.instructions@ == c0.instructions@
}

/// The registers after a pending key answer, if any, is written to the
/// register that asked for it and taken from the keypad.
pub open spec fn delivered(m: Machine) -> Machine {
    match m.input.response {
        Some(r) => Machine {
            v: m.v.update(r.register as int, r.key_code),
            input: response_taken(m.input),
            ..m
        },
        None => m,
    }
}

/// The opcode at `pc`: the byte there and the next one, big-endian.
pub open spec fn fetched(memory: Seq<u8>, pc: usize) -> usize {
    (byte_at(memory, pc as int) * 256 + byte_at(memory, pc + 1)) as usize
}

/// Where the program counter goes from `pc` under `update`.
pub open spec fn next_pc(pc: usize, update: ProgramCounterUpdate) -> usize {
    match update {
        ProgramCounterUpdate::Next => (pc + 2) as usize,
        ProgramCounterUpdate::SkipNext => (pc + 4) as usize,
        ProgramCounterUpdate::Jump(addr) => addr,
    }
}

/// Whether `new` is the trace `old` with a record of `address`, `opcode`
/// and `text` put in front, the oldest record dropped past
/// [`INSTRUCTION_BUFFER_LENGTH`].
pub open spec fn recorded(
    old: Seq<Instruction>,
    new: Seq<Instruction>,
    address: usize,
    opcode: usize,
    text: Seq<char>,
) -> bool {
    let kept = if old.len() + 1 > INSTRUCTION_BUFFER_LENGTH {
        old.drop_last()
    } else {
        old
    };
    &&& new.len() == kept.len() + 1
    &&& new[0].address == address
    &&& new[0].opcode == opcode
    &&& new[0].display@ == text
    &&& new.subrange(1, new.len() as int) == kept
}

/// Whether `c1` and `b1` are `c0` and `b0` after one cycle in which `rand`
/// was the random byte at hand:
/// - while a key request is pending nothing changes;
/// - else a pending key answer is delivered, and then, unless the program
///   counter lies outside the memory or the instruction there is a draw that
///   must wait for a timer tick that has not come, the instruction at the
///   program counter is executed, recorded in the trace, and the program
///   counter moved.
pub open spec fn cycled(c0: Cpu, b0: Bus, c1: Cpu, b1: Bus, rand: u8) -> bool {
    if b0.input@.waiting {
        c1 == c0 && b1 == b0
    } else {
        let m = delivered(machine(c0, b0));
        let opcode = fetched(m.memory, c0.pc);
        let op = decoded(opcode);
        &&& bus_frame(b0, b1)
        &&& c1.shift_quirk_enabled == c0.shift_quirk_enabled
        &&& c1.vblank_wait == c0.vblank_wait
        &&& if c0.pc >= MEMORY_SIZE || (op is Draw && c0.vblank_wait && !b0.clock.vblank()) {
            &&& machine(c1, b1) == m
            &&& c1.pc == c0.pc
            &&& c1.instructions@ == c0.instructions@
        } else {
            let (m1, update) = executed(
                op,
                m,
                b0.graphics.fg(),
                b0.graphics.bg(),
                c0.shift_quirk_enabled,
                c0.pc,
                rand,
            );
            &&& machine(c1, b1) == m1
            &&& c1.pc == next_pc(c0.pc, update)
            &&& recorded(c0.instructions@, c1.instructions@, c0.pc, opcode, description(op))
        }
    }
}

impl Cpu {
    /// All registers, the stack and the trace empty, the program counter at
    /// [`STARTING_PC`], both configuration flags off.
    pub fn new() -> (r: Self)
        ensures
            r.v@ == Seq::new(REGISTER_COUNT as nat, |k: int| 0u8),
            r.i == 0,
            r.pc == STARTING_PC,
            r.sp == 0,
            r.stack@ == Seq::new(STACK_SIZE as nat, |k: int| 0usize),
            !r.shift_quirk_enabled,
            !r.vblank_wait,
            r.instructions@ == Seq::<Instruction>::empty(),
    {
        let r = Cpu {
            v: [0u8; REGISTER_COUNT],
            i: 0,
            pc: STARTING_PC,
            sp: 0,
            stack: [0usize; STACK_SIZE],
            shift_quirk_enabled: false,
            vblank_wait: false,
            instructions: VecDeque::new(),
        };
        assert(r.v@ =~= Seq::new(REGISTER_COUNT as nat, |k: int| 0u8));
        assert(r.stack@ =~= Seq::new(STACK_SIZE as nat, |k: int| 0usize));
        r
    }

    /// `Dxyn`: draws the `n` rows at `I` at `(Vx mod 64, Vy mod 32)`; VF
    /// tells whether a set bit met a pixel that was on.
    fn op_dxyn(&mut self, bus: &mut Bus, x: usize, y: usize, n: usize)
        requires
            old(bus).wf(),
            x < REGISTER_COUNT,
            y < REGISTER_COUNT,
            n < 16,
        ensures
            (machine(*final(self), *final(bus)), ProgramCounterUpdate::Next) == executed(
                Op::Draw { x, y, n },
                machine(*old(self), *old(bus)),
                old(bus).graphics.fg(),
                old(bus).graphics.bg(),
                old(self).shift_quirk_enabled,
                old(self).pc,
                0,
            ),
            bus_frame(*old(bus), *final(bus)),
            cpu_frame(*old(self), *final(self)),
    {
        let px: usize = self.v[x] as usize % WIDTH;
        let py: usize = self.v[y] as usize % HEIGHT;
        let ghost rows = sprite_rows(bus.memory@, self.i, n);
        let ghost pixels0 = bus.graphics.pixels();
        let mut collision = false;
        let mut k: usize = 0;
        while k < n
            invariant
                0 <= k <= n < 16,
                px < WIDTH,
                py < HEIGHT,
                bus.wf(),
                bus.graphics.fg() == old(bus).graphics.fg(),
                bus.graphics.bg() == old(bus).graphics.bg(),
                bus.memory@ == old(bus).memory@,
                bus.input@ == old(bus).input@,
                bus.clock == old(bus).clock,
                pixels0 == old(bus).graphics.pixels(),
                rows == sprite_rows(old(bus).memory@, old(self).i, n),
                *self == *old(self),
                (bus.graphics.pixels(), collision) == sprite_drawn(
                    pixels0,
                    bus.graphics.fg(),
                    bus.graphics.bg(),
                    px as int,
                    py as int,
                    rows.take(k as int),
                ),
            decreases n - k,
        {
            let data = bus.memory.read(self.i as usize + k);
            let hit = bus.graphics.draw_byte(px, py + k, data);
            collision = collision || hit;
            assert(rows.take(k + 1).drop_last() =~= rows.take(k as int));
            k = k + 1;
        }
        assert(rows.take(n as int) =~= rows);
        self.v[VF] = if collision { 1 } else { 0 };
    }

    /// `Fx33`: stores the hundreds, tens and ones of `Vx` at `I`, `I + 1`
    /// and `I + 2`.
    fn op_fx33(&mut self, bus: &mut Bus, x: usize)
        requires
            old(bus).wf(),
            x < REGISTER_COUNT,
        ensures
            (machine(*final(self), *final(bus)), ProgramCounterUpdate::Next) == executed(
                Op::Bcd { x },
                machine(*old(self), *old(bus)),
                old(bus).graphics.fg(),
                old(bus).graphics.bg(),
                old(self).shift_quirk_enabled,
                old(self).pc,
                0,
            ),
            bus_frame(*old(bus), *final(bus)),
            *final(self) == *old(self),
    {
        let value = self.v[x];
        let addr = self.i as usize;
        bus.memory.write(addr, value / 100);
        bus.memory.write(addr + 1, value / 10 % 10);
        bus.memory.write(addr + 2, value % 10);
    }

    /// `Fx55`: stores `V0` to `Vx` from `I` on, then advances `I` past them.
    fn op_fx55(&mut self, bus: &mut Bus, x: usize)
        requires
            old(bus).wf(),
            x < REGISTER_COUNT,
        ensures
            (machine(*final(self), *final(bus)), ProgramCounterUpdate::Next) == executed(
                Op::Store { x },
                machine(*old(self), *old(bus)),
                old(bus).graphics.fg(),
                old(bus).graphics.bg(),
                old(self).shift_quirk_enabled,
                old(self).pc,
                0,
            ),
            bus_frame(*old(bus), *final(bus)),
            cpu_frame(*old(self), *final(self)),
    {
        let base = self.i as usize;
        let ghost mem0 = bus.memory@;
        proof {
            bus.memory.lemma_len();
        }
        let mut k: usize = 0;
        while k <= x
            invariant
                0 <= k <= x + 1,
                x < REGISTER_COUNT,
                base == old(self).i,
                *self == *old(self),
                bus.wf(),
                bus.graphics == old(bus).graphics,
                bus.input == old(bus).input,
                bus.clock == old(bus).clock,
                mem0 == old(bus).memory@,
                mem0.len() == MEMORY_SIZE,
                bus.memory@ == Seq::new(
                    mem0.len(),
                    |a: int| if base <= a < base + k { self.v@[a - base] } else { mem0[a] },
                ),
            decreases x + 1 - k,
        {
            bus.memory.write(base + k, self.v[k]);
            assert(bus.memory@ =~= Seq::new(
                mem0.len(),
                |a: int| if base <= a < base + k + 1 { self.v@[a - base] } else { mem0[a] },
            ));
            k = k + 1;
        }
        assert(bus.memory@ =~= Seq::new(
            mem0.len(),
            |a: int| if old(self).i <= a <= old(self).i + x { self.v@[a - old(self).i] } else { mem0[a] },
        ));
        self.i = ((self.i as u32 + x as u32 + 1) % 0x10000) as u16;
    }

    /// `Fx65`: loads `V0` to `Vx` from `I` on, then advances `I` past them.
    fn op_fx65(&mut self, bus: &mut Bus, x: usize)
        requires
            old(bus).wf(),
            x < REGISTER_COUNT,
        ensures
            (machine(*final(self), *final(bus)), ProgramCounterUpdate::Next) == executed(
                Op::Load { x },
                machine(*old(self), *old(bus)),
                old(bus).graphics.fg(),
                old(bus).graphics.bg(),
                old(self).shift_quirk_enabled,
                old(self).pc,
                0,
            ),
            bus_frame(*old(bus), *final(bus)),
            cpu_frame(*old(self), *final(self)),
    {
        let base = self.i as usize;
        let ghost v0 = self.v@;
        let mut k: usize = 0;
        while k <= x
            invariant
                0 <= k <= x + 1,
                x < REGISTER_COUNT,
                base == old(self).i,
                self.i == old(self).i,
                self.pc == old(self).pc,
                self.sp == old(self).sp,
                self.stack == old(self).stack,
                self.shift_quirk_enabled == old(self).shift_quirk_enabled,
                self.vblank_wait == old(self).vblank_wait,
                self.instructions == old(self).instructions,
                v0 == old(self).v@,
                *bus == *old(bus),
                self.v@ == Seq::new(
                    REGISTER_COUNT as nat,
                    |j: int| if j < k { byte_at(bus.memory@, base + j) } else { v0[j] },
                ),
            decreases x + 1 - k,
        {
            let value = bus.memory.read(base + k);
            self.v[k] = value;
            assert(self.v@ =~= Seq::new(
                REGISTER_COUNT as nat,
                |j: int| if j < k + 1 { byte_at(bus.memory@, base + j) } else { v0[j] },
            ));
            k = k + 1;
        }
        assert(self.v@ =~= Seq::new(
            REGISTER_COUNT as nat,
            |j: int| if j <= x { byte_at(bus.memory@, old(self).i + j) } else { v0[j] },
        ));
        self.i = ((self.i as u32 + x as u32 + 1) % 0x10000) as u16;
    }

    /// Executes `op`, fetched from the program counter, on this processor
    /// and `bus`; `rand` is the random byte for `Cxnn`. Returns where the
    /// program counter goes and the description of `op`.
    #[verifier::rlimit(40)]
    fn process_opcode(&mut self, bus: &mut Bus, op: Op, rand: u8) -> (r: (ProgramCounterUpdate, String))
        requires
            old(bus).wf(),
            fields_in_range(op),
            old(self).pc < MEMORY_SIZE,
        ensures
            (machine(*final(self), *final(bus)), r.0) == executed(
                op,
                machine(*old(self), *old(bus)),
                old(bus).graphics.fg(),
                old(bus).graphics.bg(),
                old(self).shift_quirk_enabled,
                old(self).pc,
                rand,
            ),
            r.1@ == description(op),
            bus_frame(*old(bus), *final(bus)),
            cpu_frame(*old(self), *final(self)),
    {
        let update = match op {
            Op::Clear => {
                bus.graphics.clear();
                ProgramCounterUpdate::Next
            },
            Op::Return => {
                if 0 < self.sp && self.sp <= STACK_SIZE {
                    self.sp = self.sp - 1;
                    ProgramCounterUpdate::Jump(self.stack[self.sp])
                } else {
                    ProgramCounterUpdate::Next
                }
            },
            Op::Jump { nnn } => ProgramCounterUpdate::Jump(nnn),
            Op::Call { nnn } => {
                if self.sp < STACK_SIZE {
                    self.stack[self.sp] = self.pc + 2;
                    self.sp = self.sp + 1;
                    ProgramCounterUpdate::Jump(nnn)
                } else {
                    ProgramCounterUpdate::Next
                }
            },
            Op::SkipEqImm { x, nn } => if self.v[x] == nn {
                ProgramCounterUpdate::SkipNext
            } else {
                ProgramCounterUpdate::Next
            },
            Op::SkipNeImm { x, nn } => if self.v[x] != nn {
                ProgramCounterUpdate::SkipNext
            } else {
                ProgramCounterUpdate::Next
            },
            Op::SkipEqReg { x, y } => if self.v[x] == self.v[y] {
                ProgramCounterUpdate::SkipNext
            } else {
                ProgramCounterUpdate::Next
            },
            Op::SkipNeReg { x, y } => if self.v[x] != self.v[y] {
                ProgramCounterUpdate::SkipNext
            } else {
                ProgramCounterUpdate::Next
            },
            Op::LoadImm { x, nn } => {
                self.v[x] = nn;
                ProgramCounterUpdate::Next
            },
            Op::AddImm { x, nn } => {
                self.v[x] = ((self.v[x] as u16 + nn as u16) % 256) as u8;
                ProgramCounterUpdate::Next
            },
            Op::Move { x, y } => {
                self.v[x] = self.v[y];
                ProgramCounterUpdate::Next
            },
            Op::Or { x, y } => {
                self.v[x] = self.v[x] | self.v[y];
                self.v[VF] = 0;
                ProgramCounterUpdate::Next
            },
            Op::And { x, y } => {
                self.v[x] = self.v[x] & self.v[y];
                self.v[VF] = 0;
                ProgramCounterUpdate::Next
            },
            Op::Xor { x, y } => {
                self.v[x] = self.v[x] ^ self.v[y];
                self.v[VF] = 0;
                ProgramCounterUpdate::Next
            },
            Op::AddReg { x, y } => {
                let sum: u16 = self.v[x] as u16 + self.v[y] as u16;
                self.v[x] = (sum % 256) as u8;
                self.v[VF] = if sum > 255 { 1 } else { 0 };
                ProgramCounterUpdate::Next
            },
            Op::SubReg { x, y } => {
                let (a, b) = (self.v[x], self.v[y]);
                self.v[x] = ((a as u16 + 256 - b as u16) % 256) as u8;
                self.v[VF] = if a >= b { 1 } else { 0 };
                ProgramCounterUpdate::Next
            },
            Op::SubRev { x, y } => {
                let (a, b) = (self.v[x], self.v[y]);
                self.v[x] = ((b as u16 + 256 - a as u16) % 256) as u8;
                self.v[VF] = if b >= a { 1 } else { 0 };
                ProgramCounterUpdate::Next
            },
            Op::ShiftRight { x, y } => {
                let shifted = if self.shift_quirk_enabled { self.v[y] } else { self.v[x] };
                self.v[x] = shifted / 2;
                self.v[VF] = shifted % 2;
                ProgramCounterUpdate::Next
            },
            Op::ShiftLeft { x, y } => {
                let shifted = if self.shift_quirk_enabled { self.v[y] } else { self.v[x] };
                self.v[x] = ((shifted as u16 * 2) % 256) as u8;
                self.v[VF] = shifted / 128;
                ProgramCounterUpdate::Next
            },
            Op::LoadIndex { nnn } => {
                self.i = nnn as u16;
                ProgramCounterUpdate::Next
            },
            Op::JumpOffset { nnn } => ProgramCounterUpdate::Jump(nnn + self.v[0] as usize),
            Op::Random { x, nn } => {
                self.v[x] = rand & nn;
                ProgramCounterUpdate::Next
            },
            Op::Draw { x, y, n } => {
                self.op_dxyn(bus, x, y, n);
                ProgramCounterUpdate::Next
            },
            Op::SkipKeyDown { x } => if bus.input.is_key_pressed(self.v[x]) {
                ProgramCounterUpdate::SkipNext
            } else {
                ProgramCounterUpdate::Next
            },
            Op::SkipKeyUp { x } => if !bus.input.is_key_pressed(self.v[x]) {
                ProgramCounterUpdate::SkipNext
            } else {
                ProgramCounterUpdate::Next
            },
            Op::LoadDelay { x } => {
                self.v[x] = bus.clock.delay_timer();
                ProgramCounterUpdate::Next
            },
            Op::WaitKey { x } => {
                bus.input.request_key_press(x);
                ProgramCounterUpdate::Next
            },
            Op::SetDelay { x } => {
                bus.clock.set_delay_timer(self.v[x]);
                ProgramCounterUpdate::Next
            },
            Op::SetSound { x } => {
                bus.clock.set_sound_timer(self.v[x]);
                ProgramCounterUpdate::Next
            },
            Op::AddIndex { x } => {
                self.i = ((self.i as u32 + self.v[x] as u32) % 0x10000) as u16;
                ProgramCounterUpdate::Next
            },
            Op::FontGlyph { x } => {
                self.i = 5 * (self.v[x] % 16) as u16;
                ProgramCounterUpdate::Next
            },
            Op::Bcd { x } => {
                self.op_fx33(bus, x);
                ProgramCounterUpdate::Next
            },
            Op::Store { x } => {
                self.op_fx55(bus, x);
                ProgramCounterUpdate::Next
            },
            Op::Load { x } => {
                self.op_fx65(bus, x);
                ProgramCounterUpdate::Next
            },
            Op::Invalid => ProgramCounterUpdate::Next,
        };
        (update, describe(op))
    }

    /// Puts `instruction` at the front of the trace, dropping the oldest
    /// entry past [`INSTRUCTION_BUFFER_LENGTH`].
    fn push_instruction(&mut self, instruction: Instruction)
        ensures
            recorded(
                old(self).instructions@,
                final(self).instructions@,
                instruction.address,
                instruction.opcode,
                instruction.display@,
            ),
            final(self).v == old(self).v,
            final(self).i == old(self).i,
            final(self).pc == old(self).pc,
            final(self).sp == old(self).sp,
            final(self).stack == old(self).stack,
            final(self).shift_quirk_enabled == old(self).shift_quirk_enabled,
            final(self).vblank_wait == old(self).vblank_wait,
    {
        let ghost rec = instruction;
        self.instructions.push_front(instruction);
        if self.instructions.len() > INSTRUCTION_BUFFER_LENGTH {
            self.instructions.pop_back();
        }
        let ghost old_trace = old(self).instructions@;
        let ghost kept = if old_trace.len() + 1 > INSTRUCTION_BUFFER_LENGTH {
            old_trace.drop_last()
        } else {
            old_trace
        };
        assert(self.instructions@.subrange(1, self.instructions@.len() as int) =~= kept);
    }

    /// One fetch-decode-execute cycle on `bus`, with `rand` as the random
    /// byte for `Cxnn`. Nothing happens while a key request is pending; a key
    /// answer is delivered first; a program counter outside the memory
    /// stalls; with `vblank_wait` set a draw waits for a cycle in which the
    /// clock ticked.
    pub fn cycle_with(&mut self, bus: &mut Bus, rand: u8)
        requires
            old(bus).wf(),
        ensures
            final(bus).wf(),
            cycled(*old(self), *old(bus), *final(self), *final(bus), rand),
    {
        if bus.input.waiting() {
            return;
        }
        let response = bus.input.request_response();
        match response {
            Some(request) => {
                self.v[request.register] = request.key_code;
            },
            None => {},
        }
        assert(machine(*self, *bus) == delivered(machine(*old(self), *old(bus))));
        if self.pc >= MEMORY_SIZE {
            return;
        }
        let opcode = self.fetch(bus);
        let op = decode(opcode);
        if let Op::Draw { .. } = op {
            if self.vblank_wait && !bus.clock.vblank_interrupt() {
                return;
            }
        }
        let (update, display) = self.process_opcode(bus, op, rand);
        let address = self.pc;
        self.push_instruction(Instruction { address, opcode, display });
        self.pc = match update {
            ProgramCounterUpdate::Next => self.pc + 2,
            ProgramCounterUpdate::SkipNext => self.pc + 4,
            ProgramCounterUpdate::Jump(addr) => addr,
        };
    }

    /// The opcode at the program counter.
    fn fetch(&self, bus: &Bus) -> (r: usize)
        requires
            self.pc < MEMORY_SIZE,
        ensures
            r == fetched(bus.memory@, self.pc),
    {
        let high = bus.memory.read(self.pc) as usize;
        let low = bus.memory.read(self.pc + 1) as usize;
        high * 256 + low
    }

    /// Whether the next cycle on `bus` executes a `Cxnn`.
    fn random_pending(&self, bus: &Bus) -> (r: bool)
        ensures
            r == (!bus.input@.waiting && self.pc < MEMORY_SIZE && decoded(
                fetched(bus.memory@, self.pc),
            ) is Random),
    {
        if bus.input.waiting() || self.pc >= MEMORY_SIZE {
            return false;
        }
        let op = decode(self.fetch(bus));
        if let Op::Random { .. } = op {
            true
        } else {
            false
        }
    }

    /// One fetch-decode-execute cycle on `bus`, as [`Cpu::cycle_with`], with
    /// a byte from the system's random source for `Cxnn` (0 if the source
    /// fails).
    pub fn cycle(&mut self, bus: &mut Bus)
        requires
            old(bus).wf(),
        ensures
            final(bus).wf(),
            exists|rand: u8| cycled(*old(self), *old(bus), *final(self), *final(bus), rand),
    {
        let rand: u8 = if self.random_pending(bus) {
            match random_byte() {
                Ok(b) => b,
                Err(_) => 0,
            }
        } else {
            0
        };
        self.cycle_with(bus, rand);
    }
}

/// `8xy4` sets VF to 1 exactly when `Vx + Vy` exceeds 255, and `8xy5` sets
/// it to 1 exactly when `Vx >= Vy` (no borrow), for all registers `x` and
/// `y`.
pub proof fn lemma_carry_and_borrow_flags(
    m: Machine,
    fg: Rgb,
    bg: Rgb,
    shift_quirk: bool,
    pc: usize,
    rand: u8,
    x: usize,
    y: usize,
)
    requires
        m.v.len() == REGISTER_COUNT,
        x < REGISTER_COUNT,
        y < REGISTER_COUNT,
    ensures
        (executed(Op::AddReg { x, y }, m, fg, bg, shift_quirk, pc, rand).0.v[VF as int] == 1) <==> (
        m.v[x as int] + m.v[y as int] > 255),
        (executed(Op::SubReg { x, y }, m, fg, bg, shift_quirk, pc, rand).0.v[VF as int] == 1) <==> (
        m.v[x as int] >= m.v[y as int]),
{
}

/// `Dxyn` sets VF to 1 exactly when some set bit of some sprite row falls on
/// a pixel that was in the foreground colour before the draw, and to 0
/// otherwise.
pub proof fn lemma_draw_flag(
    m: Machine,
    fg: Rgb,
    bg: Rgb,
    shift_quirk: bool,
    pc: usize,
    rand: u8,
    x: usize,
    y: usize,
    n: usize,
)
    requires
        m.v.len() == REGISTER_COUNT,
        m.pixels.len() == PIXEL_COUNT,
        x < REGISTER_COUNT,
        y < REGISTER_COUNT,
    ensures
        ({
            let flag = executed(Op::Draw { x, y, n }, m, fg, bg, shift_quirk, pc, rand).0.v[VF as int];
            &&& flag == 0 || flag == 1
            &&& flag == 1 <==> exists|k: int, b: int|
                #[trigger] overlaps(
                    m.pixels,
                    fg,
                    (m.v[x as int] as int) % (WIDTH as int),
                    (m.v[y as int] as int) % (HEIGHT as int),
                    sprite_rows(m.memory, m.i, n),
                    k,
                    b,
                )
        }),
{
    lemma_sprite_collision(
        m.pixels,
        fg,
        bg,
        (m.v[x as int] as int) % (WIDTH as int),
        (m.v[y as int] as int) % (HEIGHT as int),
        sprite_rows(m.memory, m.i, n),
    );
}

} // verus!