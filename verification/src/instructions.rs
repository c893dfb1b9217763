//! The instruction kinds and one handler for each.

use crate::cpu::{Machine, CPU, STACK_LIMIT};
use crate::graphic::{blitted, collided, sprite_rows, update_screen, GLYPH_SIZE};
use vstd::prelude::*;

verus! {

/// The symbolic instructions of the machine.
#[allow(non_camel_case_types)]
#[derive(Clone, Copy, Debug, PartialEq, Eq, Structural)]
pub enum Instruction {
    CLS,
    RET,
    JP_ADDR,
    CALL_ADDR,
    SE_VX_BYTE,
    SE_VX_VY,
    LD_VX_BYTE,
    ADD_VX_BYTE,
    LD_VX_VY,
    OR_VX_VY,
    AND_VX_VY,
    XOR_VX_VY,
    ADD_VX_VY,
    SUB_VX_VY,
    SHR_VX_VY,
    SUBN_VX_VY,
    SHL_VX_VY,
    SNE_VX_VY,
    SNE_VX_BYTE,
    LD_I_ADDR,
    JP_V0_ADDR,
    RND_VX_BYTE,
    DRW,
    SKP_VX,
    SKNP_VX,
    LD_VX_DT,
    LD_VX_K,
    LD_DT_VX,
    LD_ST_VX,
    LD_B_VX,
    ADD_I_VX,
    LD_F_VX,
    LD_I_VX,
    LD_VX_I,
}

/// `value` reduced to 16 bits.
pub open spec fn wrap16(value: int) -> u16 {
    (value % 0x1_0000) as u16
}

/// `value` reduced to 8 bits.
pub open spec fn wrap8(value: int) -> u8 {
    (value % 0x100) as u8
}

/// What each instruction does to the machine state. Every cycle ends with
/// the program counter moving on by one instruction, so an instruction that
/// branches leaves it one instruction short of its target, and one that
/// skips moves it on by one instruction itself.
impl Machine {
    /// The state with the program counter moved on by one instruction.
    pub open spec fn advanced(self) -> Machine {
        self.with_pc(wrap16(self.pc + 2))
    }

    /// The state with the next instruction skipped when `taken` holds.
    pub open spec fn skipping(self, taken: bool) -> Machine {
        if taken {
            self.advanced()
        } else {
            self
        }
    }

    /// The state from which the end of the cycle lands on `target`.
    pub open spec fn branched(self, target: int) -> Machine {
        self.with_pc(wrap16(target - 2))
    }

    /// The value of register `x`.
    pub open spec fn reg(self, x: u8) -> u8 {
        self.registers[x as int]
    }

    /// Return: the most recent return address leaves the stack and becomes
    /// the program counter.
    pub open spec fn ret(self) -> Machine {
        Machine {
            pc: self.stack[0],
            stack: self.stack.subrange(1, self.stack.len() as int),
            sp: (self.sp - 1) as u8,
            ..self
        }
    }

    /// Jump to `addr`.
    pub open spec fn jp_addr(self, addr: u16) -> Machine {
        self.branched(addr as int)
    }

    /// Call: the program counter goes onto the stack, then jump to `addr`.
    pub open spec fn call_addr(self, addr: u16) -> Machine {
        Machine {
            stack: seq![self.pc] + self.stack,
            sp: (self.sp + 1) as u8,
            ..self
        }.branched(addr as int)
    }

    /// Skip when `Vx` equals `kk`.
    pub open spec fn se_xv_byte(self, x: u8, kk: u8) -> Machine {
        self.skipping(self.reg(x) == kk)
    }

    /// Skip when `Vx` equals `Vy`.
    pub open spec fn se_vx_vy(self, x: u8, y: u8) -> Machine {
        self.skipping(self.reg(x) == self.reg(y))
    }

    /// Skip when `Vx` differs from `kk`.
    pub open spec fn sne_xv_byte(self, x: u8, kk: u8) -> Machine {
        self.skipping(self.reg(x) != kk)
    }

    /// Skip when `Vx` differs from `Vy`.
    pub open spec fn sne_vx_vy(self, x: u8, y: u8) -> Machine {
        self.skipping(self.reg(x) != self.reg(y))
    }

    /// `Vx = kk`.
    pub open spec fn ld_vx_byte(self, x: u8, kk: u8) -> Machine {
        self.with_register(x, kk)
    }

    /// `Vx = Vx + kk` modulo 256; the flag register is not written.
    pub open spec fn add_vx_byte(self, x: u8, kk: u8) -> Machine {
        self.with_register(x, wrap8(self.reg(x) + kk))
    }

    /// `Vx = Vy`.
    pub open spec fn ld_vx_vy(self, x: u8, y: u8) -> Machine {
        self.with_register(x, self.reg(y))
    }

    /// `Vx = Vx | Vy`; the flag register is not written.
    pub open spec fn or_vx_vy(self, x: u8, y: u8) -> Machine {
        self.with_register(x, self.reg(x) | self.reg(y))
    }

    /// `Vx = Vx & Vy`; the flag register is not written.
    pub open spec fn and_vx_vy(self, x: u8, y: u8) -> Machine {
        self.with_register(x, self.reg(x) & self.reg(y))
    }

    /// `Vx = Vx ^ Vy`; the flag register is not written.
    pub open spec fn xor_vx_vy(self, x: u8, y: u8) -> Machine {
        self.with_register(x, self.reg(x) ^ self.reg(y))
    }

    /// `Vx = Vx + Vy` modulo 256, with `VF` 1 when the sum passed 255 and 0
    /// otherwise. Both operands are read first; the flag is written before
    /// the sum.
    pub open spec fn add_vx_vy(self, x: u8, y: u8) -> Machine {
        let sum = self.reg(x) + self.reg(y);
        self.with_flag(if sum > 0xFF { 1 } else { 0 }).with_register(x, wrap8(sum))
    }

    /// `Vx = Vx - Vy` modulo 256, with `VF` 1 when nothing was borrowed
    /// (`Vx >= Vy`) and 0 otherwise. Both operands are read first; the flag
    /// is written before the difference.
    pub open spec fn sub_vx_vy(self, x: u8, y: u8) -> Machine {
        let minuend = self.reg(x);
        let subtrahend = self.reg(y);
        self.with_flag(if minuend >= subtrahend { 1 } else { 0 }).with_register(
            x,
            wrap8(minuend - subtrahend),
        )
    }

    /// `Vx = Vy - Vx` modulo 256, with `VF` 1 when nothing was borrowed
    /// (`Vy >= Vx`) and 0 otherwise. Both operands are read first; the flag
    /// is written before the difference.
    pub open spec fn subn_vx_vy(self, x: u8, y: u8) -> Machine {
        let minuend = self.reg(y);
        let subtrahend = self.reg(x);
        self.with_flag(if minuend >= subtrahend { 1 } else { 0 }).with_register(
            x,
            wrap8(minuend - subtrahend),
        )
    }

    /// Shift right in place: `VF` takes the lowest bit of `Vx`, then `Vx`
    /// is halved. `Vy` plays no part.
    pub open spec fn shr_vx_vy(self, x: u8, y: u8) -> Machine {
        let flagged = self.with_flag((self.reg(x) % 2) as u8);
        flagged.with_register(x, (flagged.reg(x) / 2) as u8)
    }

    /// Shift left in place: `VF` takes the highest bit of `Vx`, then `Vx`
    /// is doubled modulo 256. `Vy` plays no part.
    pub open spec fn shl_vx_vy(self, x: u8, y: u8) -> Machine {
        let flagged = self.with_flag((self.reg(x) / 0x80) as u8);
        flagged.with_register(x, wrap8(flagged.reg(x) * 2))
    }

    /// `I = addr`.
    pub open spec fn ld_i_addr(self, addr: u16) -> Machine {
        Machine { i: addr, ..self }
    }

    /// Jump to `V0 + addr`.
    pub open spec fn jp_v0_addr(self, addr: u16) -> Machine {
        self.branched(self.reg(0) + addr)
    }

    /// `Vx = byte & kk`, where `byte` is the random byte drawn for the
    /// instruction.
    pub open spec fn rnd_vx_byte(self, x: u8, kk: u8, byte: u8) -> Machine {
        self.with_register(x, byte & kk)
    }

    /// The sprite that the draw instruction reads: `nibble` rows from `I` on.
    pub open spec fn sprite(self, nibble: u8) -> Seq<u8> {
        sprite_rows(self.memory, self.i as int, nibble as int)
    }

    /// Draw: the sprite of `nibble` rows at `I` is blitted at `(Vx, Vy)`,
    /// then `VF` is 1 when it collided and 0 otherwise.
    pub open spec fn draw(self, x: u8, y: u8, nibble: u8) -> Machine {
        let sprite = self.sprite(nibble);
        let (x0, y0) = (self.reg(x) as int, self.reg(y) as int);
        Machine { screen: blitted(self.screen, sprite, x0, y0), ..self }.with_flag(
            if collided(self.screen, sprite, x0, y0) {
                1
            } else {
                0
            },
        )
    }

    /// Skip when the latched key is `Vx`; the latch is left as it is.
    pub open spec fn skip_vx(self, x: u8) -> Machine {
        self.skipping(self.key_pressed == Some(self.reg(x) as u16))
    }

    /// Skip when the latched key is not `Vx`, and so also when no key is
    /// latched; the latch is left as it is.
    pub open spec fn skipn_vx(self, x: u8) -> Machine {
        self.skipping(self.key_pressed != Some(self.reg(x) as u16))
    }

    /// Wait for a key: with a key latched, `Vx` takes it and the latch is
    /// emptied; with none latched nothing changes.
    pub open spec fn load_vx_k(self, x: u8) -> Machine {
        match self.key_pressed {
            Some(key) => Machine { key_pressed: None, ..self.with_register(x, key as u8) },
            None => self,
        }
    }

    /// The hundreds, tens and ones digits of `Vx` are stored at `I`, `I+1`
    /// and `I+2`.
    pub open spec fn load_bytes_vx(self, x: u8) -> Machine {
        let value = self.reg(x);
        self.with_memory(self.i as int, (value / 100) as u8).with_memory(
            self.i + 1,
            (value % 100 / 10) as u8,
        ).with_memory(self.i + 2, (value % 10) as u8)
    }

    /// Registers `V0..Vx` are read from memory at `I..I+x`, then `I` moves
    /// on by `x + 1`.
    pub open spec fn load_vx_i(self, x: u8) -> Machine {
        Machine {
            registers: Seq::new(
                self.registers.len(),
                |r: int| if r <= x { self.memory[self.i + r] } else { self.registers[r] },
            ),
            i: wrap16(self.i + x + 1),
            ..self
        }
    }

    /// Registers `V0..Vx` are stored to memory at `I..I+x`, then `I` moves
    /// on by `x + 1`.
    pub open spec fn load_i_vx(self, x: u8) -> Machine {
        Machine {
            memory: Seq::new(
                self.memory.len(),
                |a: int|
                    if self.i <= a <= self.i + x {
                        self.registers[a - self.i]
                    } else {
                        self.memory[a]
                    },
            ),
            i: wrap16(self.i + x + 1),
            ..self
        }
    }

    /// `I` = the address of the font glyph for the digit in `Vx`.
    pub open spec fn load_f_vx(self, x: u8) -> Machine {
        Machine { i: (self.reg(x) * GLYPH_SIZE) as u16, ..self }
    }

    /// `I = I + Vx` modulo 65536.
    pub open spec fn add_i_vx(self, x: u8) -> Machine {
        Machine { i: wrap16(self.i + self.reg(x)), ..self }
    }

    /// Sound timer = `Vx`.
    pub open spec fn load_st_vx(self, x: u8) -> Machine {
        Machine { st: self.reg(x) as u16, ..self }
    }

    /// Delay timer = `Vx`.
    pub open spec fn load_dt_vx(self, x: u8) -> Machine {
        Machine { dt: self.reg(x) as u16, ..self }
    }

    /// `Vx` = delay timer.
    pub open spec fn load_vx_dt(self, x: u8) -> Machine {
        self.with_register(x, self.dt as u8)
    }
}

impl CPU {
    /// Moves the program counter on by one instruction, as every completed
    /// cycle does.
    pub fn advance(&mut self)
        ensures
            final(self)@ == old(self)@.advanced(),
    {
        self.pc = self.pc.wrapping_add(2);
    }
}

/// Clear display: every framebuffer cell goes dark and a repaint is asked for.
pub fn clear_screen(cpu: &mut CPU) -> (redraw: bool)
    requires
        old(cpu).wf(),
    ensures
        final(cpu)@ == old(cpu)@.cleared(),
        final(cpu).wf(),
        redraw,
{
    cpu.clear_screen();
    true
}

/// Return from a subroutine. The stack must hold a return address.
pub fn ret(cpu: &mut CPU)
    requires
        old(cpu).wf(),
        old(cpu).sp > 0,
    ensures
        final(cpu)@ == old(cpu)@.ret(),
        final(cpu).wf(),
{
    match cpu.stack.pop_front() {
        Some(address) => {
            cpu.pc = address;
        },
        None => {},
    }
    cpu.sp -= 1;
}

/// Jump to `addr`.
pub fn jp_addr(cpu: &mut CPU, addr: u16)
    requires
        old(cpu).wf(),
    ensures
        final(cpu)@ == old(cpu)@.jp_addr(addr),
        final(cpu).wf(),
{
    cpu.pc = addr.wrapping_sub(2);
}

/// Call the subroutine at `addr`. The stack must have room for one more
/// return address.
pub fn call_addr(cpu: &mut CPU, addr: u16)
    requires
        old(cpu).wf(),
        old(cpu).sp < STACK_LIMIT,
    ensures
        final(cpu)@ == old(cpu)@.call_addr(addr),
        final(cpu).wf(),
{
    cpu.sp += 1;
    cpu.stack.push_front(cpu.pc);
    cpu.pc = addr.wrapping_sub(2);
}

/// Skip the next instruction when `Vx` equals `kk`.
pub fn se_xv_byte(cpu: &mut CPU, x: u8, kk: u8)
    requires
        old(cpu).wf(),
        x <= 0xF,
    ensures
        final(cpu)@ == old(cpu)@.se_xv_byte(x, kk),
        final(cpu).wf(),
{
    let reg_value: u8 = cpu.get_reg(x);
    if reg_value == kk {
        cpu.advance();
    }
}

/// Skip the next instruction when `Vx` equals `Vy`.
pub fn se_xv_vy(cpu: &mut CPU, x: u8, y: u8)
    requires
        old(cpu).wf(),
        x <= 0xF,
        y <= 0xF,
    ensures
        final(cpu)@ == old(cpu)@.se_vx_vy(x, y),
        final(cpu).wf(),
{
    se_vx_vy(cpu, x, y);
}

/// Skip the next instruction when `Vx` differs from `kk`.
pub fn sne_xv_byte(cpu: &mut CPU, x: u8, kk: u8)
    requires
        old(cpu).wf(),
        x <= 0xF,
    ensures
        final(cpu)@ == old(cpu)@.sne_xv_byte(x, kk),
        final(cpu).wf(),
{
    let reg_value: u8 = cpu.get_reg(x);
    if reg_value != kk {
        cpu.advance();
    }
}

/// Skip the next instruction when `Vx` equals `Vy`.
pub fn se_vx_vy(cpu: &mut CPU, x: u8, y: u8)
    requires
        old(cpu).wf(),
        x <= 0xF,
        y <= 0xF,
    ensures
        final(cpu)@ == old(cpu)@.se_vx_vy(x, y),
        final(cpu).wf(),
{
    let reg_value_x: u8 = cpu.get_reg(x);
    let reg_value_y: u8 = cpu.get_reg(y);
    if reg_value_x == reg_value_y {
        cpu.advance();
    }
}

/// Load `kk` into `Vx`.
pub fn ld_vx_byte(cpu: &mut CPU, x: u8, kk: u8)
    requires
        old(cpu).wf(),
        x <= 0xF,
    ensures
        final(cpu)@ == old(cpu)@.ld_vx_byte(x, kk),
        final(cpu).wf(),
{
    cpu.set_register_value(x, kk);
}

/// Add `kk` to `Vx`, wrapping, without touching the flag register.
pub fn add_vx_byte(cpu: &mut CPU, x: u8, kk: u8)
    requires
        old(cpu).wf(),
        x <= 0xF,
    ensures
        final(cpu)@ == old(cpu)@.add_vx_byte(x, kk),
        final(cpu).wf(),
{
    let result: u8 = cpu.get_reg(x).wrapping_add(kk);
    cpu.set_register_value(x, result);
}

/// Copy `Vy` into `Vx`.
pub fn ld_vx_vy(cpu: &mut CPU, x: u8, y: u8)
    requires
        old(cpu).wf(),
        x <= 0xF,
        y <= 0xF,
    ensures
        final(cpu)@ == old(cpu)@.ld_vx_vy(x, y),
        final(cpu).wf(),
{
    let value: u8 = cpu.get_reg(y);
    cpu.set_register_value(x, value);
}

/// Bitwise OR of `Vy` into `Vx`.
pub fn or_vx_vy(cpu: &mut CPU, x: u8, y: u8)
    requires
        old(cpu).wf(),
        x <= 0xF,
        y <= 0xF,
    ensures
        final(cpu)@ == old(cpu)@.or_vx_vy(x, y),
        final(cpu).wf(),
{
    let value: u8 = cpu.get_reg(x) | cpu.get_reg(y);
    cpu.set_register_value(x, value);
}

/// Bitwise AND of `Vy` into `Vx`.
pub fn and_vx_vy(cpu: &mut CPU, x: u8, y: u8)
    requires
        old(cpu).wf(),
        x <= 0xF,
        y <= 0xF,
    ensures
        final(cpu)@ == old(cpu)@.and_vx_vy(x, y),
        final(cpu).wf(),
{
    let value: u8 = cpu.get_reg(x) & cpu.get_reg(y);
    cpu.set_register_value(x, value);
}

/// Bitwise XOR of `Vy` into `Vx`.
pub fn xor_vx_vy(cpu: &mut CPU, x: u8, y: u8)
    requires
        old(cpu).wf(),
        x <= 0xF,
        y <= 0xF,
    ensures
        final(cpu)@ == old(cpu)@.xor_vx_vy(x, y),
        final(cpu).wf(),
{
    let value: u8 = cpu.get_reg(x) ^ cpu.get_reg(y);
    cpu.set_register_value(x, value);
}

/// Add `Vy` to `Vx`, wrapping; `VF` tells whether the sum overflowed.
pub fn add_vx_vy(cpu: &mut CPU, x: u8, y: u8)
    requires
        old(cpu).wf(),
        x <= 0xF,
        y <= 0xF,
    ensures
        final(cpu)@ == old(cpu)@.add_vx_vy(x, y),
        final(cpu).wf(),
{
    let reg_value_x: u8 = cpu.get_reg(x);
    let reg_value_y: u8 = cpu.get_reg(y);
    let result: u8 = reg_value_x.wrapping_add(reg_value_y);
    if reg_value_x > 0xFF - reg_value_y {
        cpu.set_reg_f(1);
    } else {
        cpu.set_reg_f(0);
    }
    cpu.set_register_value(x, result);
}

/// Subtract `Vy` from `Vx`, wrapping; `VF` is 1 when nothing was borrowed.
pub fn sub_vx_vy(cpu: &mut CPU, x: u8, y: u8)
    requires
        old(cpu).wf(),
        x <= 0xF,
        y <= 0xF,
    ensures
        final(cpu)@ == old(cpu)@.sub_vx_vy(x, y),
        final(cpu).wf(),
{
    let reg_value_x: u8 = cpu.get_reg(x);
    let reg_value_y: u8 = cpu.get_reg(y);
    let result: u8 = reg_value_x.wrapping_sub(reg_value_y);
    if reg_value_x >= reg_value_y {
        cpu.set_reg_f(1);
    } else {
        cpu.set_reg_f(0);
    }
    cpu.set_register_value(x, result);
}

/// Shift `Vx` right by one bit; `VF` takes the bit shifted out. `y` is
/// ignored.
pub fn shr_vx_vy(cpu: &mut CPU, x: u8, y: u8)
    requires
        old(cpu).wf(),
        x <= 0xF,
    ensures
        final(cpu)@ == old(cpu)@.shr_vx_vy(x, y),
        final(cpu).wf(),
{
    let flag: u8 = cpu.get_reg(x) & 0x01;
    proof {
        lemma_bits_by_division(cpu.registers@[x as int]);
    }
    cpu.set_reg_f(flag);
    let value: u8 = cpu.get_reg(x);
    proof {
        lemma_bits_by_division(value);
    }
    cpu.set_register_value(x, value >> 1);
}

/// Set `Vx` to `Vy` minus `Vx`, wrapping; `VF` is 1 when nothing was
/// borrowed.
pub fn subn_vx_vy(cpu: &mut CPU, x: u8, y: u8)
    requires
        old(cpu).wf(),
        x <= 0xF,
        y <= 0xF,
    ensures
        final(cpu)@ == old(cpu)@.subn_vx_vy(x, y),
        final(cpu).wf(),
{
    let reg_value_x: u8 = cpu.get_reg(x);
    let reg_value_y: u8 = cpu.get_reg(y);
    let result: u8 = reg_value_y.wrapping_sub(reg_value_x);
    if reg_value_y >= reg_value_x {
        cpu.set_reg_f(1);
    } else {
        cpu.set_reg_f(0);
    }
    cpu.set_register_value(x, result);
}

/// Shift `Vx` left by one bit; `VF` takes the bit shifted out. `y` is
/// ignored.
pub fn shl_vx_vy(cpu: &mut CPU, x: u8, y: u8)
    requires
        old(cpu).wf(),
        x <= 0xF,
    ensures
        final(cpu)@ == old(cpu)@.shl_vx_vy(x, y),
        final(cpu).wf(),
{
    let flag: u8 = (cpu.get_reg(x) >> 7) & 0x01;
    proof {
        lemma_bits_by_division(cpu.registers@[x as int]);
    }
    cpu.set_reg_f(flag);
    let value: u8 = cpu.get_reg(x);
    proof {
        lemma_doubling(value);
    }
    cpu.set_register_value(x, value << 1);
}

proof fn lemma_bits_by_division(value: u8)
    by (bit_vector)
    ensures
        value & 0x01 == value % 2,
        value >> 1 == value / 2,
        (value >> 7) & 0x01 == value / 0x80,
{
}

proof fn lemma_doubling(value: u8)
    by (bit_vector)
    ensures
        value << 1 == (value * 2) % 0x100,
{
}

/// Skip the next instruction when `Vx` differs from `Vy`.
pub fn sne_vx_vy(cpu: &mut CPU, x: u8, y: u8)
    requires
        old(cpu).wf(),
        x <= 0xF,
        y <= 0xF,
    ensures
        final(cpu)@ == old(cpu)@.sne_vx_vy(x, y),
        final(cpu).wf(),
{
    let reg_value_a: u8 = cpu.get_reg(x);
    let reg_value_b: u8 = cpu.get_reg(y);
    if reg_value_a != reg_value_b {
        cpu.advance();
    }
}

/// Load `addr` into the index register.
pub fn ld_i_addr(cpu: &mut CPU, addr: u16)
    requires
        old(cpu).wf(),
    ensures
        final(cpu)@ == old(cpu)@.ld_i_addr(addr),
        final(cpu).wf(),
{
    cpu.i = addr;
}

/// Jump to `addr` plus `V0`.
pub fn jp_v0_addr(cpu: &mut CPU, addr: u16)
    requires
        old(cpu).wf(),
    ensures
        final(cpu)@ == old(cpu)@.jp_v0_addr(addr),
        final(cpu).wf(),
{
    let target: u16 = (cpu.get_reg(0) as u16).wrapping_add(addr);
    cpu.pc = target.wrapping_sub(2);
}

/// Draws a byte with `rand::random`, which takes it from the generator of
/// the calling thread. Nothing is claimed of the byte.
#[verifier::external_body]
fn random_byte() -> (byte: u8) {
    rand::random::<u8>()
}

/// The random instruction with the byte that was drawn for it.
pub fn rnd_vx_byte(cpu: &mut CPU, x: u8, kk: u8, byte: u8)
    requires
        old(cpu).wf(),
        x <= 0xF,
    ensures
        final(cpu)@ == old(cpu)@.rnd_vx_byte(x, kk, byte),
        final(cpu).wf(),
{
    cpu.set_register_value(x, byte & kk);
}

/// The random instruction: draws a byte and masks it with `kk` into `Vx`.
pub fn random_vx_byte(cpu: &mut CPU, x: u8, kk: u8)
    requires
        old(cpu).wf(),
        x <= 0xF,
    ensures
        exists|byte: u8| final(cpu)@ == old(cpu)@.rnd_vx_byte(x, kk, byte),
        final(cpu).wf(),
{
    let byte: u8 = random_byte();
    rnd_vx_byte(cpu, x, kk, byte);
}

/// Draw the sprite of `nibble` rows at the index register onto the
/// framebuffer at `(Vx, Vy)`; `VF` tells whether it collided. The sprite must
/// lie inside memory.
pub fn draw(cpu: &mut CPU, x: u8, y: u8, nibble: u8) -> (redraw: bool)
    requires
        old(cpu).wf(),
        x <= 0xF,
        y <= 0xF,
        old(cpu).i + nibble <= old(cpu).memory.len(),
    ensures
        final(cpu)@ == old(cpu)@.draw(x, y, nibble),
        final(cpu).wf(),
        redraw,
{
    let start_x: u8 = cpu.get_reg(x);
    let start_y: u8 = cpu.get_reg(y);
    let collision = update_screen(
        start_x as u16,
        start_y as u16,
        nibble as u16,
        cpu.i,
        &cpu.memory,
        &mut cpu.screen,
    );
    cpu.set_reg_f(if collision { 1 } else { 0 });
    true
}

/// Skip the next instruction when the key in `Vx` is the latched one.
pub fn skip_vx(cpu: &mut CPU, x: u8)
    requires
        old(cpu).wf(),
        x <= 0xF,
    ensures
        final(cpu)@ == old(cpu)@.skip_vx(x),
        final(cpu).wf(),
{
    let expected_key: u8 = cpu.get_reg(x);
    match cpu.key_pressed {
        Some(key) => {
            if key == expected_key as u16 {
                cpu.advance();
            }
        },
        None => {},
    }
}

/// Skip the next instruction unless the key in `Vx` is the latched one.
pub fn skipn_vx(cpu: &mut CPU, x: u8)
    requires
        old(cpu).wf(),
        x <= 0xF,
    ensures
        final(cpu)@ == old(cpu)@.skipn_vx(x),
        final(cpu).wf(),
{
    let expected_key: u8 = cpu.get_reg(x);
    match cpu.key_pressed {
        Some(key) => {
            if key != expected_key as u16 {
                cpu.advance();
            }
        },
        None => {
            cpu.advance();
        },
    }
}

/// The key-wait instruction. With a key latched it completes: `Vx` takes
/// the key and the latch is emptied. With none latched it changes nothing
/// and reports that the machine is still waiting.
pub fn load_vx_k(cpu: &mut CPU, x: u8) -> (completed: bool)
    requires
        old(cpu).wf(),
        x <= 0xF,
    ensures
        final(cpu)@ == old(cpu)@.load_vx_k(x),
        final(cpu).wf(),
        completed == old(cpu).key_pressed.is_some(),
{
    match cpu.key_pressed {
        Some(key) => {
            cpu.set_register_value(x, key as u8);
            cpu.key_pressed = None;
            true
        },
        None => false,
    }
}

/// Store the three decimal digits of `Vx` at the index register. The three
/// bytes must lie inside memory.
pub fn load_bytes_vx(cpu: &mut CPU, x: u8)
    requires
        old(cpu).wf(),
        x <= 0xF,
        old(cpu).i + 2 < old(cpu).memory.len(),
    ensures
        final(cpu)@ == old(cpu)@.load_bytes_vx(x),
        final(cpu).wf(),
{
    let reg_value: u8 = cpu.get_reg(x);
    let base: usize = cpu.i as usize;
    cpu.memory[base] = reg_value / 100;
    cpu.memory[base + 1] = reg_value % 100 / 10;
    cpu.memory[base + 2] = reg_value % 10;
}

/// Read registers `V0` to `Vx` from memory at the index register, which then
/// moves past them. The bytes read must lie inside memory.
pub fn load_vx_i(cpu: &mut CPU, x: u8)
    requires
        old(cpu).wf(),
        x <= 0xF,
        old(cpu).i + x < old(cpu).memory.len(),
    ensures
        final(cpu)@ == old(cpu)@.load_vx_i(x),
        final(cpu).wf(),
{
    let base: usize = cpu.i as usize;
    let mut idx: u8 = 0;
    while idx <= x
        invariant
            x <= 0xF,
            idx <= x + 1,
            base == old(cpu).i,
            base + x < cpu.memory.len(),
            cpu.registers.len() == old(cpu).registers.len() == 16,
            forall|r: int| 0 <= r < idx ==> cpu.registers[r] == old(cpu).memory[base + r],
            forall|r: int| idx <= r < 16 ==> cpu.registers[r] == old(cpu).registers[r],
            cpu@ == (Machine { registers: cpu@.registers, ..old(cpu)@ }),
        decreases x + 1 - idx,
    {
        let value: u8 = cpu.memory[base + idx as usize];
        cpu.set_register_value(idx, value);
        idx += 1;
    }
    cpu.i = cpu.i.wrapping_add(x as u16 + 1);
}

/// Store registers `V0` to `Vx` to memory at the index register, which then
/// moves past them. The bytes written must lie inside memory.
pub fn load_i_vx(cpu: &mut CPU, x: u8)
    requires
        old(cpu).wf(),
        x <= 0xF,
        old(cpu).i + x < old(cpu).memory.len(),
    ensures
        final(cpu)@ == old(cpu)@.load_i_vx(x),
        final(cpu).wf(),
{
    let base: usize = cpu.i as usize;
    let mut idx: u8 = 0;
    while idx <= x
        invariant
            x <= 0xF,
            idx <= x + 1,
            base == old(cpu).i,
            base + x < cpu.memory.len(),
            cpu.memory.len() == old(cpu).memory.len(),
            forall|a: int|
                0 <= a < cpu.memory.len() ==> cpu.memory[a] == if base <= a < base + idx {
                    old(cpu).registers[a - base]
                } else {
                    old(cpu).memory[a]
                },
            cpu.registers.len() == 16,
            cpu@ == (Machine { memory: cpu@.memory, ..old(cpu)@ }),
        decreases x + 1 - idx,
    {
        let value: u8 = cpu.get_reg(idx);
        cpu.memory[base + idx as usize] = value;
        idx += 1;
    }
    cpu.i = cpu.i.wrapping_add(x as u16 + 1);
}

/// Point the index register at the font glyph of the digit in `Vx`.
pub fn load_f_vx(cpu: &mut CPU, x: u8)
    requires
        old(cpu).wf(),
        x <= 0xF,
    ensures
        final(cpu)@ == old(cpu)@.load_f_vx(x),
        final(cpu).wf(),
{
    let reg_value: u8 = cpu.get_reg(x);
    cpu.i = reg_value as u16 * GLYPH_SIZE;
}

/// Add `Vx` to the index register, wrapping.
pub fn add_i_vx(cpu: &mut CPU, x: u8)
    requires
        old(cpu).wf(),
        x <= 0xF,
    ensures
        final(cpu)@ == old(cpu)@.add_i_vx(x),
        final(cpu).wf(),
{
    cpu.i = cpu.i.wrapping_add(cpu.get_reg(x) as u16);
}

/// Set the sound timer to `Vx`.
pub fn load_st_vx(cpu: &mut CPU, x: u8)
    requires
        old(cpu).wf(),
        x <= 0xF,
    ensures
        final(cpu)@ == old(cpu)@.load_st_vx(x),
        final(cpu).wf(),
{
    cpu.st = cpu.get_reg(x) as u16;
}

/// Set the delay timer to `Vx`.
pub fn load_dt_vx(cpu: &mut CPU, x: u8)
    requires
        old(cpu).wf(),
        x <= 0xF,
    ensures
        final(cpu)@ == old(cpu)@.load_dt_vx(x),
        final(cpu).wf(),
{
    cpu.dt = cpu.get_reg(x) as u16;
}

/// Read the delay timer into `Vx`.
pub fn load_vx_dt(cpu: &mut CPU, x: u8)
    requires
        old(cpu).wf(),
        x <= 0xF,
    ensures
        final(cpu)@ == old(cpu)@.load_vx_dt(x),
        final(cpu).wf(),
{
    cpu.set_register_value(x, cpu.dt as u8);
}

/// A branch and the step that ends its cycle land on the target, whatever
/// the target.
pub proof fn lemma_branch_lands_on_target(m: Machine, target: u16)
    ensures
        m.branched(target as int).advanced().pc == target,
        m.jp_addr(target).advanced().pc == target,
        m.call_addr(target).advanced().pc == target,
{
}

/// A return that finds the stack as a call left it comes back to the
/// instruction after that call, with the stack as it was before the call.
pub proof fn lemma_call_return_pairing(m: Machine, addr: u16, later: Machine)
    requires
        m.wf(),
        m.sp < STACK_LIMIT,
        later.stack == m.call_addr(addr).stack,
        later.sp == m.call_addr(addr).sp,
    ensures
        m.call_addr(addr).wf(),
        m.call_addr(addr).sp == m.sp + 1,
        later.ret().advanced().pc == wrap16(m.pc + 2),
        later.ret().stack == m.stack,
        later.ret().sp == m.sp,
{
    assert(later.ret().stack =~= m.stack);
}

} // verus!
