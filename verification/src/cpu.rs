//! The machine state: memory, registers, stack, timers, framebuffer and the
//! input latch, owned by one aggregate.

use crate::graphic::{font, get_sprites, HEIGHT, WIDTH};
use std::collections::VecDeque;
use vstd::prelude::*;

verus! {

/// Number of general registers `V0`..`VF`.
pub const REGISTER_COUNT: usize = 16;

/// Index of the flag register `VF`.
pub const FLAG_REGISTER: u8 = 0xF;

/// Greatest number of return addresses the stack holds.
pub const STACK_LIMIT: u8 = 16;

/// Number of framebuffer cells: 64 columns by 32 rows.
pub const SCREEN_SIZE: usize = 2048;

/// Number of bytes of memory a fresh machine has.
pub const MEMORY_SIZE: usize = 4096;

/// Address at which programs are loaded and execution starts.
pub const PROGRAM_START: u16 = 0x200;

/// The mathematical state of the machine.
///
/// `stack[0]` is the most recently pushed return address.
#[verifier::ext_equal]
pub struct Machine {
    pub memory: Seq<u8>,
    pub pc: u16,
    pub stack: Seq<u16>,
    pub sp: u8,
    pub registers: Seq<u8>,
    pub i: u16,
    pub screen: Seq<bool>,
    pub key_pressed: Option<u16>,
    pub dt: u16,
    pub st: u16,
}

impl Machine {
    /// The invariant of the machine state: sixteen registers, a full
    /// framebuffer, a stack of at most sixteen entries whose depth the stack
    /// pointer tracks, timers within a byte and a latched key within a nibble.
    pub open spec fn wf(self) -> bool {
        &&& self.registers.len() == REGISTER_COUNT
        &&& self.screen.len() == SCREEN_SIZE
        &&& self.stack.len() == self.sp
        &&& self.sp <= STACK_LIMIT
        &&& self.dt <= 0xFF
        &&& self.st <= 0xFF
        &&& (self.key_pressed matches Some(key) ==> key <= 0xF)
    }

    /// The state of a machine that has just been switched on: the font at
    /// the bottom of an otherwise zeroed memory, execution about to start at
    /// the program area, everything else empty or zero.
    pub open spec fn initial() -> Machine {
        Machine {
            memory: Seq::new(MEMORY_SIZE as nat, |idx: int| if idx < font().len() { font()[idx] } else { 0u8 }),
            pc: PROGRAM_START,
            stack: Seq::empty(),
            sp: 0,
            registers: Seq::new(REGISTER_COUNT as nat, |idx: int| 0u8),
            i: 0,
            screen: Seq::new(SCREEN_SIZE as nat, |idx: int| false),
            key_pressed: None,
            dt: 0,
            st: 0,
        }
    }

    /// The state with every framebuffer cell clear.
    pub open spec fn cleared(self) -> Machine {
        Machine { screen: Seq::new(SCREEN_SIZE as nat, |idx: int| false), ..self }
    }

    /// Whether `image` fits into memory from the program area on.
    pub open spec fn has_room_for(self, image: Seq<u8>) -> bool {
        PROGRAM_START + image.len() <= self.memory.len()
    }

    /// The state with `image` stored from the program area on and every
    /// byte of memory after it zero.
    pub open spec fn loaded(self, image: Seq<u8>) -> Machine {
        Machine {
            memory: Seq::new(
                self.memory.len(),
                |idx: int|
                    if idx < PROGRAM_START {
                        self.memory[idx]
                    } else if idx < PROGRAM_START + image.len() {
                        image[idx - PROGRAM_START]
                    } else {
                        0u8
                    },
            ),
            ..self
        }
    }

    /// The state with register `x` holding `value`.
    pub open spec fn with_register(self, x: u8, value: u8) -> Machine {
        Machine { registers: self.registers.update(x as int, value), ..self }
    }

    /// The state with the flag register `VF` holding `value`.
    pub open spec fn with_flag(self, value: u8) -> Machine {
        self.with_register(FLAG_REGISTER, value)
    }

    /// The state with the memory byte at `idx` holding `value`.
    pub open spec fn with_memory(self, idx: int, value: u8) -> Machine {
        Machine { memory: self.memory.update(idx, value), ..self }
    }

    /// The state with the program counter at `pc`.
    pub open spec fn with_pc(self, pc: u16) -> Machine {
        Machine { pc, ..self }
    }

    /// The state after one timer tick: each timer one lower, never below zero.
    pub open spec fn tick(self) -> Machine {
        Machine {
            dt: if self.dt > 0 { (self.dt - 1) as u16 } else { 0 },
            st: if self.st > 0 { (self.st - 1) as u16 } else { 0 },
            ..self
        }
    }

    /// The framebuffer cell in column `x` of row `y`; rows are stored one
    /// after another.
    pub open spec fn pixel(self, x: int, y: int) -> bool {
        self.screen[x + y * WIDTH]
    }

    /// The instruction word at the program counter: the byte there is the
    /// high half, the byte after it the low half.
    pub open spec fn opcode_at_pc(self) -> u16 {
        word_of(self.memory[self.pc as int], self.memory[self.pc + 1])
    }

    /// Whether both bytes of the instruction at the program counter lie
    /// inside memory.
    pub open spec fn can_fetch(self) -> bool {
        self.pc + 1 < self.memory.len()
    }
}

/// The 16-bit word with `high` as its upper byte and `low` as its lower one.
pub open spec fn word_of(high: u8, low: u8) -> u16 {
    (high as u16 * 256 + low as u16) as u16
}

proof fn lemma_word_of(high: u8, low: u8)
    by (bit_vector)
    ensures
        ((high as u16) << 8) | low as u16 == high as u16 * 256 + low as u16,
{
}

/// The executable machine state.
pub struct CPU {
    pub memory: Vec<u8>,
    pub pc: u16,
    pub stack: VecDeque<u16>,
    pub sp: u8,
    pub registers: Vec<u8>,
    pub i: u16,
    pub screen: Vec<bool>,
    pub key_pressed: Option<u16>,
    pub dt: u16,
    pub st: u16,
}

impl View for CPU {
    type V = Machine;

    open spec fn view(&self) -> Machine {
        Machine {
            memory: self.memory@,
            pc: self.pc,
            stack: self.stack@,
            sp: self.sp,
            registers: self.registers@,
            i: self.i,
            screen: self.screen@,
            key_pressed: self.key_pressed,
            dt: self.dt,
            st: self.st,
        }
    }
}

impl CPU {
    /// The invariant of the machine state, on the executable value.
    pub open spec fn wf(&self) -> bool {
        self@.wf()
    }

    /// Tests the invariant of the machine state.
    pub fn is_well_formed(&self) -> (ok: bool)
        ensures
            ok == self.wf(),
    {
        let key_in_range = match self.key_pressed {
            Some(key) => key <= 0xF,
            None => true,
        };
        self.registers.len() == REGISTER_COUNT && self.screen.len() == SCREEN_SIZE
            && self.stack.len() == self.sp as usize && self.sp <= STACK_LIMIT && self.dt <= 0xFF
            && self.st <= 0xFF && key_in_range
    }

    /// A machine that has just been switched on.
    pub fn new() -> (cpu: CPU)
        ensures
            cpu@ == Machine::initial(),
            cpu.wf(),
    {
        let sprites = get_sprites();
        let mut memory: Vec<u8> = vec![0; MEMORY_SIZE];
        let mut idx: usize = 0;
        while idx < sprites.len()
            invariant
                sprites@ == font(),
                idx <= sprites.len() <= memory.len() == MEMORY_SIZE,
                forall|j: int| 0 <= j < idx ==> memory[j] == font()[j],
                forall|j: int| idx <= j < memory.len() ==> memory[j] == 0,
            decreases sprites.len() - idx,
        {
            memory[idx] = sprites[idx];
            idx += 1;
        }
        CPU {
            memory,
            pc: PROGRAM_START,
            stack: VecDeque::new(),
            sp: 0,
            registers: vec![0; REGISTER_COUNT],
            i: 0,
            screen: vec![false; SCREEN_SIZE],
            key_pressed: None,
            dt: 0,
            st: 0,
        }
    }

    /// Stores a program image from the program area on and zeroes the
    /// memory after it. An image that does not fit is refused and the
    /// machine left as it was.
    pub fn load_program(&mut self, image: &Vec<u8>) -> (loaded: bool)
        ensures
            loaded == old(self)@.has_room_for(image@),
            loaded ==> final(self)@ == old(self)@.loaded(image@),
            !loaded ==> final(self)@ == old(self)@,
    {
        let start: usize = PROGRAM_START as usize;
        if self.memory.len() < start || image.len() > self.memory.len() - start {
            return false;
        }
        let mut idx: usize = start;
        while idx < self.memory.len()
            invariant
                start == PROGRAM_START,
                start <= idx <= self.memory.len() == old(self).memory.len(),
                start + image.len() <= self.memory.len(),
                forall|j: int| 0 <= j < idx ==> self.memory[j] == old(self)@.loaded(image@).memory[j],
                forall|j: int| idx <= j < self.memory.len() ==> self.memory[j] == old(self).memory[j],
                self.pc == old(self).pc,
                self.stack == old(self).stack,
                self.sp == old(self).sp,
                self.registers == old(self).registers,
                self.i == old(self).i,
                self.screen == old(self).screen,
                self.key_pressed == old(self).key_pressed,
                self.dt == old(self).dt,
                self.st == old(self).st,
            decreases self.memory.len() - idx,
        {
            let offset: usize = idx - start;
            let value: u8 = if offset < image.len() { image[offset] } else { 0 };
            self.memory[idx] = value;
            idx += 1;
        }
        true
    }

    /// Clears every framebuffer cell.
    pub fn clear_screen(&mut self)
        ensures
            final(self)@ == old(self)@.cleared(),
    {
        self.screen = vec![false; SCREEN_SIZE];
    }

    /// Reads the framebuffer cell in column `x` of row `y`.
    pub fn pixel(&self, x: u16, y: u16) -> (lit: bool)
        requires
            self.wf(),
            x < WIDTH,
            y < HEIGHT,
        ensures
            lit == self@.pixel(x as int, y as int),
    {
        let row_start: usize = y as usize * 64;
        self.screen[row_start + x as usize]
    }

    /// Fetches the instruction word at the program counter.
    pub fn get_next_opcode(&self) -> (opcode: u16)
        requires
            self@.can_fetch(),
        ensures
            opcode == self@.opcode_at_pc(),
    {
        let idx: usize = self.pc as usize;
        let high: u8 = self.memory[idx];
        let low: u8 = self.memory[idx + 1];
        proof {
            lemma_word_of(high, low);
        }
        ((high as u16) << 8) | low as u16
    }

    /// Reads register `reg_number`.
    pub fn get_reg(&self, reg_number: u8) -> (value: u8)
        requires
            reg_number < self.registers.len(),
        ensures
            value == self@.registers[reg_number as int],
    {
        self.registers[reg_number as usize]
    }

    /// Writes `value` to register `reg_number`.
    pub fn set_register_value(&mut self, reg_number: u8, value: u8)
        requires
            reg_number < old(self).registers.len(),
        ensures
            final(self)@ == old(self)@.with_register(reg_number, value),
    {
        self.registers[reg_number as usize] = value;
    }

    /// Writes `value` to the flag register `VF`.
    pub fn set_reg_f(&mut self, value: u8)
        requires
            old(self).registers.len() == REGISTER_COUNT,
        ensures
            final(self)@ == old(self)@.with_flag(value),
    {
        self.set_register_value(FLAG_REGISTER, value);
    }

    /// Writes `value` to the memory byte at `idx`.
    pub fn update_memory(&mut self, idx: u16, value: u8)
        requires
            idx < old(self).memory.len(),
        ensures
            final(self)@ == old(self)@.with_memory(idx as int, value),
    {
        self.memory[idx as usize] = value;
    }

    /// One tick of the external clock: both timers move one step towards
    /// zero and stay there.
    pub fn update_timers(&mut self)
        ensures
            final(self)@ == old(self)@.tick(),
    {
        if self.dt > 0 {
            self.dt -= 1;
        }
        if self.st > 0 {
            self.st -= 1;
        }
    }
}

} // verus!
