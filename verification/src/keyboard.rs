//! The input latch: which key of the hexadecimal keypad a typed character
//! stands for.

use crate::cpu::{Machine, CPU};
use vstd::prelude::*;

verus! {

/// The key of the hexadecimal keypad that `symbol` stands for: a decimal
/// digit stands for its value, a lower-case letter from `a` to `f` for ten
/// to fifteen, and any other character for no key.
pub open spec fn key_of(symbol: char) -> Option<u16> {
    if '0' <= symbol <= '9' {
        Some((symbol as u32 - '0' as u32) as u16)
    } else if 'a' <= symbol <= 'f' {
        Some((symbol as u32 - 'a' as u32 + 10) as u16)
    } else {
        None
    }
}

impl Machine {
    /// The state with the input latch holding what `symbol` stands for.
    pub open spec fn latched(self, symbol: char) -> Machine {
        Machine { key_pressed: key_of(symbol), ..self }
    }
}

/// Latches the key that the typed character stands for. A character that
/// stands for no key empties the latch.
pub fn update_keyboard(cpu: &mut CPU, key_pressed: char)
    requires
        old(cpu).wf(),
    ensures
        final(cpu)@ == old(cpu)@.latched(key_pressed),
        final(cpu).wf(),
{
    match key_pressed {
        '0' => cpu.key_pressed = Some(0x0),
        '1' => cpu.key_pressed = Some(0x1),
        '2' => cpu.key_pressed = Some(0x2),
        '3' => cpu.key_pressed = Some(0x3),
        '4' => cpu.key_pressed = Some(0x4),
        '5' => cpu.key_pressed = Some(0x5),
        '6' => cpu.key_pressed = Some(0x6),
        '7' => cpu.key_pressed = Some(0x7),
        '8' => cpu.key_pressed = Some(0x8),
        '9' => cpu.key_pressed = Some(0x9),
        'a' => cpu.key_pressed = Some(0xA),
        'b' => cpu.key_pressed = Some(0xB),
        'c' => cpu.key_pressed = Some(0xC),
        'd' => cpu.key_pressed = Some(0xD),
        'e' => cpu.key_pressed = Some(0xE),
        'f' => cpu.key_pressed = Some(0xF),
        _ => cpu.key_pressed = None,
    }
}

} // verus!
