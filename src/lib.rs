//! A Chip-8 virtual machine: memory, framebuffer, timers, keypad and the
//! fetch-decode-execute cycle, with their behaviour stated as contracts.

pub mod clock;
pub mod describe;
pub mod graphics;
pub mod input;
pub mod memory;
pub mod opcode;
pub mod processor;

use crate::processor::{cycled, machine, Cpu, STARTING_PC};
use vstd::prelude::*;

verus! {

/// The components the processor works on.
pub struct Bus {
    /// The delay and sound timers.
    pub clock: clock::Clock,
    /// The framebuffer.
    pub graphics: graphics::Buffer,
    /// The keypad.
    pub input: input::Input,
    /// The memory.
    pub memory: memory::Memory,
}

impl Bus {
    /// The framebuffer and the keypad are well formed.
    pub open spec fn wf(&self) -> bool {
        self.graphics.wf() && self.input.wf()
    }

    /// Fresh components: timers at zero, a blank white-on-black screen, all
    /// keys up, and memory holding only the font.
    pub fn new() -> (r: Self)
        ensures
            r.wf(),
            r.clock.delay() == 0,
            r.clock.sound() == 0,
            r.graphics.fg() == graphics::default_foreground(),
            r.graphics.bg() == graphics::default_background(),
            r.graphics.pixels() == Seq::new(
                graphics::PIXEL_COUNT as nat,
                |i: int| graphics::default_background(),
            ),
            r.input@.keys == Seq::new(input::KEY_COUNT as nat, |i: int| false),
            !r.input@.waiting,
            r.input@.response is None,
            r.memory@ == memory::initial_memory(),
    {
        Bus {
            clock: clock::Clock::new(),
            graphics: graphics::Buffer::new(),
            input: input::Input::new(),
            memory: memory::Memory::new(),
        }
    }
}

/// Whether `b` is `b0` after a clock update at which `elapsed_ns`
/// nanoseconds had passed, with nothing else changed.
pub open spec fn clock_updated(b0: Bus, b: Bus, elapsed_ns: u64) -> bool {
    &&& b0.clock.ticked(&b.clock, elapsed_ns)
    &&& b.graphics == b0.graphics
    &&& b.input == b0.input
    &&& b.memory == b0.memory
}

/// The machine: a processor and the components it works on.
pub struct Chip8 {
    /// The processor.
    pub processor: Cpu,
    /// The memory, framebuffer, keypad and timers.
    pub bus: Bus,
}

impl Chip8 {
    /// The components are well formed.
    pub open spec fn wf(&self) -> bool {
        self.bus.wf()
    }

    /// A machine in its initial state: a fresh processor with the program
    /// counter at [`STARTING_PC`] and fresh components.
    pub fn new() -> (r: Self)
        ensures
            r.wf(),
            r.processor.pc == STARTING_PC,
            r.processor.v@ == Seq::new(processor::REGISTER_COUNT as nat, |k: int| 0u8),
            r.processor.i == 0,
            r.processor.sp == 0,
            !r.processor.shift_quirk_enabled,
            !r.processor.vblank_wait,
            r.processor.instructions@.len() == 0,
            r.bus.memory@ == memory::initial_memory(),
            r.bus.graphics.pixels() == Seq::new(
                graphics::PIXEL_COUNT as nat,
                |i: int| graphics::default_background(),
            ),
            r.bus.clock.delay() == 0,
            r.bus.clock.sound() == 0,
            !r.bus.input@.waiting,
    {
        Chip8 { processor: Cpu::new(), bus: Bus::new() }
    }

    /// One step: a clock update at which `elapsed_ns` nanoseconds have
    /// passed since the clock was created, then one processor cycle with
    /// `rand` as the random byte for `Cxnn`.
    pub fn step_with(&mut self, elapsed_ns: u64, rand: u8)
        requires
            old(self).wf(),
        ensures
            final(self).wf(),
            exists|b: Bus|
                clock_updated(old(self).bus, b, elapsed_ns) && cycled(
                    old(self).processor,
                    b,
                    final(self).processor,
                    final(self).bus,
                    rand,
                ),
    {
        self.bus.clock.tick(elapsed_ns);
        let ghost b = self.bus;
        self.processor.cycle_with(&mut self.bus, rand);
        assert(clock_updated(old(self).bus, b, elapsed_ns));
    }

    /// One step: a clock update from the host clock, then one processor
    /// cycle.
    pub fn step(&mut self)
        requires
            old(self).wf(),
        ensures
            final(self).wf(),
            exists|b: Bus, elapsed_ns: u64, rand: u8|
                clock_updated(old(self).bus, b, elapsed_ns) && cycled(
                    old(self).processor,
                    b,
                    final(self).processor,
                    final(self).bus,
                    rand,
                ),
    {
        self.bus.clock.update();
        let ghost b = self.bus;
        self.processor.cycle(&mut self.bus);
        let ghost e = choose|e: u64| old(self).bus.clock.ticked(&b.clock, e);
        let ghost rand = choose|rand: u8|
            cycled(old(self).processor, b, self.processor, self.bus, rand);
        assert(clock_updated(old(self).bus, b, e));
        assert(cycled(old(self).processor, b, self.processor, self.bus, rand));
    }

    /// Loads the program `data` at [`memory::PROGRAM_START`]; see
    /// [`memory::Memory::load_rom`].
    pub fn load_rom_data(&mut self, data: Vec<u8>)
        requires
            old(self).wf(),
        ensures
            final(self).wf(),
            final(self).bus.memory@ == memory::loaded(old(self).bus.memory@, data@),
            final(self).processor == old(self).processor,
            final(self).bus.clock == old(self).bus.clock,
            final(self).bus.graphics == old(self).bus.graphics,
            final(self).bus.input == old(self).bus.input,
    {
        self.bus.memory.load_rom(data);
    }

    /// Reports key `key_code` as down (`pressed`) or up.
    pub fn update_key_state(&mut self, key_code: u8, pressed: bool)
        requires
            old(self).wf(),
            key_code < input::KEY_COUNT,
        ensures
            final(self).wf(),
            final(self).bus.input@ == input::key_updated(old(self).bus.input@, key_code, pressed),
            final(self).processor == old(self).processor,
            final(self).bus.clock == old(self).bus.clock,
            final(self).bus.graphics == old(self).bus.graphics,
            final(self).bus.memory == old(self).bus.memory,
    {
        self.bus.input.update(key_code, pressed);
    }

    /// Puts the machine back in its initial state, except for the palette
    /// and the two configuration flags, which are kept; the screen is
    /// cleared.
    pub fn reset(&mut self)
        requires
            old(self).wf(),
        ensures
            final(self).wf(),
            final(self).processor.pc == STARTING_PC,
            final(self).processor.v@ == Seq::new(processor::REGISTER_COUNT as nat, |k: int| 0u8),
            final(self).processor.i == 0,
            final(self).processor.sp == 0,
            final(self).processor.stack@ == Seq::new(processor::STACK_SIZE as nat, |k: int| 0usize),
            final(self).processor.instructions@.len() == 0,
            final(self).processor.shift_quirk_enabled == old(self).processor.shift_quirk_enabled,
            final(self).processor.vblank_wait == old(self).processor.vblank_wait,
            final(self).bus.graphics.fg() == old(self).bus.graphics.fg(),
            final(self).bus.graphics.bg() == old(self).bus.graphics.bg(),
            final(self).bus.graphics.pixels() == Seq::new(
                graphics::PIXEL_COUNT as nat,
                |i: int| old(self).bus.graphics.bg(),
            ),
            final(self).bus.memory@ == memory::initial_memory(),
            final(self).bus.clock.delay() == 0,
            final(self).bus.clock.sound() == 0,
            !final(self).bus.clock.vblank(),
            final(self).bus.input@.keys == Seq::new(input::KEY_COUNT as nat, |i: int| false),
            !final(self).bus.input@.waiting,
            final(self).bus.input@.response is None,
    {
        self.bus.graphics.clear();
        self.bus.clock = clock::Clock::new();
        self.bus.input = input::Input::new();
        self.bus.memory = memory::Memory::new();
        let shift_quirk_enabled = self.processor.shift_quirk_enabled;
        let vblank_wait = self.processor.vblank_wait;
        self.processor = Cpu::new();
        self.processor.shift_quirk_enabled = shift_quirk_enabled;
        self.processor.vblank_wait = vblank_wait;
    }

    /// [`Chip8::reset`], then [`Chip8::load_rom_data`].
    pub fn reset_and_load(&mut self, data: Vec<u8>)
        requires
            old(self).wf(),
        ensures
            final(self).wf(),
            final(self).processor.pc == STARTING_PC,
            final(self).processor.v@ == Seq::new(processor::REGISTER_COUNT as nat, |k: int| 0u8),
            final(self).processor.i == 0,
            final(self).processor.sp == 0,
            final(self).processor.instructions@.len() == 0,
            final(self).processor.shift_quirk_enabled == old(self).processor.shift_quirk_enabled,
            final(self).processor.vblank_wait == old(self).processor.vblank_wait,
            final(self).bus.graphics.fg() == old(self).bus.graphics.fg(),
            final(self).bus.graphics.bg() == old(self).bus.graphics.bg(),
            final(self).bus.graphics.pixels() == Seq::new(
                graphics::PIXEL_COUNT as nat,
                |i: int| old(self).bus.graphics.bg(),
            ),
            final(self).bus.memory@ == memory::loaded(memory::initial_memory(), data@),
            final(self).bus.clock.delay() == 0,
            final(self).bus.clock.sound() == 0,
            !final(self).bus.input@.waiting,
            final(self).bus.input@.response is None,
    {
        self.reset();
        self.load_rom_data(data);
    }
}

} // verus!
