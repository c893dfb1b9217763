//! Decoding: the operand fields of an instruction word, and the ordered table
//! of masks and patterns that resolves a word to its instruction.

use crate::cpu::{Machine, CPU, STACK_LIMIT};
use crate::instructions;
use crate::instructions::Instruction;
use vstd::prelude::*;

verus! {

/// One row of the instruction table: `instruction` is meant by every word
/// whose bits under `mask` equal `id`.
pub struct InstructionLookup {
    pub instruction: Instruction,
    pub mask: u16,
    pub id: u16,
}

/// The operand fields of an instruction word.
#[derive(Clone, Copy, Debug, PartialEq, Eq, Structural)]
pub struct Variables {
    /// The lowest 12 bits of the word.
    pub addr: u16,
    /// The lowest 4 bits of the word.
    pub nibble: u8,
    /// The lower 4 bits of the high byte.
    pub x: u8,
    /// The upper 4 bits of the low byte.
    pub y: u8,
    /// The lowest 8 bits of the word.
    pub kk: u8,
}

/// The operand fields of `word`, by position: with the word written as four
/// hexadecimal digits `f x y n`, `addr` is `x y n`, `kk` is `y n`.
pub open spec fn fields_of(word: u16) -> Variables {
    Variables {
        addr: (word % 0x1000) as u16,
        nibble: (word % 0x10) as u8,
        x: ((word / 0x100) % 0x10) as u8,
        y: ((word / 0x10) % 0x10) as u8,
        kk: (word % 0x100) as u8,
    }
}

proof fn lemma_field_bits(word: u16)
    by (bit_vector)
    ensures
        word & 0x0FFF == word % 0x1000,
        word & 0x000F == word % 0x10,
        (word & 0x0F00) >> 8 == (word / 0x100) % 0x10,
        (word & 0x00F0) >> 4 == (word / 0x10) % 0x10,
        word & 0x00FF == word % 0x100,
{
}

/// Extracts the operand fields of an instruction word. Every word has them.
pub fn parse_variables_from_op_code(opcode: &u16) -> (variables: Variables)
    ensures
        variables == fields_of(*opcode),
        variables.addr <= 0xFFF,
        variables.nibble <= 0xF,
        variables.x <= 0xF,
        variables.y <= 0xF,
{
    let word: u16 = *opcode;
    proof {
        lemma_field_bits(word);
    }
    Variables {
        addr: word & 0x0FFF,
        nibble: (word & 0x000F) as u8,
        x: ((word & 0x0F00) >> 8) as u8,
        y: ((word & 0x00F0) >> 4) as u8,
        kk: (word & 0x00FF) as u8,
    }
}

/// Whether `word` agrees with the pattern of `entry` on the bits of its mask.
pub open spec fn entry_matches(entry: InstructionLookup, word: u16) -> bool {
    word & entry.mask == entry.id
}

/// The index of the first entry of `table`, at or after `from`, that matches
/// `word`; `None` when none does.
pub open spec fn first_match_from(table: Seq<InstructionLookup>, word: u16, from: int) -> Option<
    int,
>
    decreases table.len() - from,
{
    if from < 0 || from >= table.len() {
        None
    } else if entry_matches(table[from], word) {
        Some(from)
    } else {
        first_match_from(table, word, from + 1)
    }
}

/// The instruction that `table` resolves `word` to: that of the first entry
/// that matches, `None` when no entry does.
pub open spec fn resolve(table: Seq<InstructionLookup>, word: u16) -> Option<Instruction> {
    match first_match_from(table, word, 0) {
        Some(index) => Some(table[index].instruction),
        None => None,
    }
}

/// `first_match_from` finds a matching entry that no earlier entry from
/// `from` on precedes, and finds none only where there is none.
pub proof fn lemma_first_match_from(table: Seq<InstructionLookup>, word: u16, from: int)
    requires
        0 <= from,
    ensures
        match first_match_from(table, word, from) {
            Some(index) => {
                &&& from <= index < table.len()
                &&& entry_matches(table[index], word)
                &&& forall|j: int| from <= j < index ==> !entry_matches(#[trigger] table[j], word)
            },
            None => forall|j: int|
                from <= j < table.len() ==> !entry_matches(#[trigger] table[j], word),
        },
    decreases table.len() - from,
{
    if from < table.len() && !entry_matches(table[from], word) {
        lemma_first_match_from(table, word, from + 1);
    }
}

/// Resolves `opcode` against `opcodes`: the first entry in table order that
/// matches wins.
pub fn find_opcode_id<'a>(opcodes: &'a Vec<InstructionLookup>, opcode: &u16) -> (found: Option<
    &'a Instruction,
>)
    ensures
        match found {
            Some(instruction) => resolve(opcodes@, *opcode) == Some(*instruction),
            None => resolve(opcodes@, *opcode) is None,
        },
{
    let word: u16 = *opcode;
    let mut index: usize = 0;
    while index < opcodes.len()
        invariant
            index <= opcodes.len(),
            word == *opcode,
            first_match_from(opcodes@, word, 0) == first_match_from(opcodes@, word, index as int),
        decreases opcodes.len() - index,
    {
        if word & opcodes[index].mask == opcodes[index].id {
            return Some(&opcodes[index].instruction);
        }
        index += 1;
    }
    None
}

/// Resolves `opcode` and extracts its operand fields; `None` when no entry
/// of the table matches it.
pub fn parse_opcode<'a>(op_codes: &'a Vec<InstructionLookup>, opcode: &u16) -> (parsed: Option<
    (&'a Instruction, Variables),
>)
    ensures
        match parsed {
            Some((instruction, variables)) => {
                &&& resolve(op_codes@, *opcode) == Some(*instruction)
                &&& variables == fields_of(*opcode)
            },
            None => resolve(op_codes@, *opcode) is None,
        },
{
    match find_opcode_id(op_codes, opcode) {
        Some(instruction) => Some((instruction, parse_variables_from_op_code(opcode))),
        None => None,
    }
}

/// The instruction table of the machine, in priority order. A mask keeps the
/// fixed bits of an encoding and drops its operand fields.
pub open spec fn standard_table() -> Seq<InstructionLookup> {
    seq![
        InstructionLookup { instruction: Instruction::CLS, mask: 0xFFFF, id: 0x00E0 },
        InstructionLookup { instruction: Instruction::RET, mask: 0xFFFF, id: 0x00EE },
        InstructionLookup { instruction: Instruction::JP_ADDR, mask: 0xF000, id: 0x1000 },
        InstructionLookup { instruction: Instruction::CALL_ADDR, mask: 0xF000, id: 0x2000 },
        InstructionLookup { instruction: Instruction::SE_VX_BYTE, mask: 0xF000, id: 0x3000 },
        InstructionLookup { instruction: Instruction::SNE_VX_BYTE, mask: 0xF000, id: 0x4000 },
        InstructionLookup { instruction: Instruction::SE_VX_VY, mask: 0xF000, id: 0x5000 },
        InstructionLookup { instruction: Instruction::LD_VX_BYTE, mask: 0xF000, id: 0x6000 },
        InstructionLookup { instruction: Instruction::ADD_VX_BYTE, mask: 0xF000, id: 0x7000 },
        InstructionLookup { instruction: Instruction::LD_VX_VY, mask: 0xF00F, id: 0x8000 },
        InstructionLookup { instruction: Instruction::OR_VX_VY, mask: 0xF00F, id: 0x8001 },
        InstructionLookup { instruction: Instruction::AND_VX_VY, mask: 0xF00F, id: 0x8002 },
        InstructionLookup { instruction: Instruction::XOR_VX_VY, mask: 0xF00F, id: 0x8003 },
        InstructionLookup { instruction: Instruction::ADD_VX_VY, mask: 0xF00F, id: 0x8004 },
        InstructionLookup { instruction: Instruction::SUB_VX_VY, mask: 0xF00F, id: 0x8005 },
        InstructionLookup { instruction: Instruction::SHR_VX_VY, mask: 0xF00F, id: 0x8006 },
        InstructionLookup { instruction: Instruction::SUBN_VX_VY, mask: 0xF00F, id: 0x8007 },
        InstructionLookup { instruction: Instruction::SHL_VX_VY, mask: 0xF00F, id: 0x800E },
        InstructionLookup { instruction: Instruction::SNE_VX_VY, mask: 0xF00F, id: 0x9000 },
        InstructionLookup { instruction: Instruction::LD_I_ADDR, mask: 0xF000, id: 0xA000 },
        InstructionLookup { instruction: Instruction::JP_V0_ADDR, mask: 0xF000, id: 0xB000 },
        InstructionLookup { instruction: Instruction::RND_VX_BYTE, mask: 0xF000, id: 0xC000 },
        InstructionLookup { instruction: Instruction::DRW, mask: 0xF000, id: 0xD000 },
        InstructionLookup { instruction: Instruction::SKP_VX, mask: 0xF0FF, id: 0xE09E },
        InstructionLookup { instruction: Instruction::SKNP_VX, mask: 0xF0FF, id: 0xE0A1 },
        InstructionLookup { instruction: Instruction::LD_VX_DT, mask: 0xF0FF, id: 0xF007 },
        InstructionLookup { instruction: Instruction::LD_VX_K, mask: 0xF0FF, id: 0xF00A },
        InstructionLookup { instruction: Instruction::LD_DT_VX, mask: 0xF0FF, id: 0xF015 },
        InstructionLookup { instruction: Instruction::LD_ST_VX, mask: 0xF0FF, id: 0xF018 },
        InstructionLookup { instruction: Instruction::ADD_I_VX, mask: 0xF0FF, id: 0xF01E },
        InstructionLookup { instruction: Instruction::LD_F_VX, mask: 0xF0FF, id: 0xF029 },
        InstructionLookup { instruction: Instruction::LD_B_VX, mask: 0xF0FF, id: 0xF033 },
        InstructionLookup { instruction: Instruction::LD_I_VX, mask: 0xF0FF, id: 0xF055 },
        InstructionLookup { instruction: Instruction::LD_VX_I, mask: 0xF0FF, id: 0xF065 },
    ]
}

/// Builds the instruction table of the machine.
pub fn initialise_opcodes() -> (table: Vec<InstructionLookup>)
    ensures
        table@ == standard_table(),
{
    vec![
        InstructionLookup { instruction: Instruction::CLS, mask: 0xFFFF, id: 0x00E0 },
        InstructionLookup { instruction: Instruction::RET, mask: 0xFFFF, id: 0x00EE },
        InstructionLookup { instruction: Instruction::JP_ADDR, mask: 0xF000, id: 0x1000 },
        InstructionLookup { instruction: Instruction::CALL_ADDR, mask: 0xF000, id: 0x2000 },
        InstructionLookup { instruction: Instruction::SE_VX_BYTE, mask: 0xF000, id: 0x3000 },
        InstructionLookup { instruction: Instruction::SNE_VX_BYTE, mask: 0xF000, id: 0x4000 },
        InstructionLookup { instruction: Instruction::SE_VX_VY, mask: 0xF000, id: 0x5000 },
        InstructionLookup { instruction: Instruction::LD_VX_BYTE, mask: 0xF000, id: 0x6000 },
        InstructionLookup { instruction: Instruction::ADD_VX_BYTE, mask: 0xF000, id: 0x7000 },
        InstructionLookup { instruction: Instruction::LD_VX_VY, mask: 0xF00F, id: 0x8000 },
        InstructionLookup { instruction: Instruction::OR_VX_VY, mask: 0xF00F, id: 0x8001 },
        InstructionLookup { instruction: Instruction::AND_VX_VY, mask: 0xF00F, id: 0x8002 },
        InstructionLookup { instruction: Instruction::XOR_VX_VY, mask: 0xF00F, id: 0x8003 },
        InstructionLookup { instruction: Instruction::ADD_VX_VY, mask: 0xF00F, id: 0x8004 },
        InstructionLookup { instruction: Instruction::SUB_VX_VY, mask: 0xF00F, id: 0x8005 },
        InstructionLookup { instruction: Instruction::SHR_VX_VY, mask: 0xF00F, id: 0x8006 },
        InstructionLookup { instruction: Instruction::SUBN_VX_VY, mask: 0xF00F, id: 0x8007 },
        InstructionLookup { instruction: Instruction::SHL_VX_VY, mask: 0xF00F, id: 0x800E },
        InstructionLookup { instruction: Instruction::SNE_VX_VY, mask: 0xF00F, id: 0x9000 },
        InstructionLookup { instruction: Instruction::LD_I_ADDR, mask: 0xF000, id: 0xA000 },
        InstructionLookup { instruction: Instruction::JP_V0_ADDR, mask: 0xF000, id: 0xB000 },
        InstructionLookup { instruction: Instruction::RND_VX_BYTE, mask: 0xF000, id: 0xC000 },
        InstructionLookup { instruction: Instruction::DRW, mask: 0xF000, id: 0xD000 },
        InstructionLookup { instruction: Instruction::SKP_VX, mask: 0xF0FF, id: 0xE09E },
        InstructionLookup { instruction: Instruction::SKNP_VX, mask: 0xF0FF, id: 0xE0A1 },
        InstructionLookup { instruction: Instruction::LD_VX_DT, mask: 0xF0FF, id: 0xF007 },
        InstructionLookup { instruction: Instruction::LD_VX_K, mask: 0xF0FF, id: 0xF00A },
        InstructionLookup { instruction: Instruction::LD_DT_VX, mask: 0xF0FF, id: 0xF015 },
        InstructionLookup { instruction: Instruction::LD_ST_VX, mask: 0xF0FF, id: 0xF018 },
        InstructionLookup { instruction: Instruction::ADD_I_VX, mask: 0xF0FF, id: 0xF01E },
        InstructionLookup { instruction: Instruction::LD_F_VX, mask: 0xF0FF, id: 0xF029 },
        InstructionLookup { instruction: Instruction::LD_B_VX, mask: 0xF0FF, id: 0xF033 },
        InstructionLookup { instruction: Instruction::LD_I_VX, mask: 0xF0FF, id: 0xF055 },
        InstructionLookup { instruction: Instruction::LD_VX_I, mask: 0xF0FF, id: 0xF065 },
    ]
}

/// The instruction that a word encodes, read off its hexadecimal digits: the
/// leading digit names the family, and within a family the last digit or the
/// low byte names the operation. `None` for a word that encodes none.
pub open spec fn decode(word: u16) -> Option<Instruction> {
    let family = word / 0x1000;
    let last = word % 0x10;
    let low = word % 0x100;
    if family == 0x0 {
        if word == 0x00E0 {
            Some(Instruction::CLS)
        } else if word == 0x00EE {
            Some(Instruction::RET)
        } else {
            None
        }
    } else if family == 0x1 {
        Some(Instruction::JP_ADDR)
    } else if family == 0x2 {
        Some(Instruction::CALL_ADDR)
    } else if family == 0x3 {
        Some(Instruction::SE_VX_BYTE)
    } else if family == 0x4 {
        Some(Instruction::SNE_VX_BYTE)
    } else if family == 0x5 {
        Some(Instruction::SE_VX_VY)
    } else if family == 0x6 {
        Some(Instruction::LD_VX_BYTE)
    } else if family == 0x7 {
        Some(Instruction::ADD_VX_BYTE)
    } else if family == 0x8 {
        if last == 0x0 {
            Some(Instruction::LD_VX_VY)
        } else if last == 0x1 {
            Some(Instruction::OR_VX_VY)
        } else if last == 0x2 {
            Some(Instruction::AND_VX_VY)
        } else if last == 0x3 {
            Some(Instruction::XOR_VX_VY)
        } else if last == 0x4 {
            Some(Instruction::ADD_VX_VY)
        } else if last == 0x5 {
            Some(Instruction::SUB_VX_VY)
        } else if last == 0x6 {
            Some(Instruction::SHR_VX_VY)
        } else if last == 0x7 {
            Some(Instruction::SUBN_VX_VY)
        } else if last == 0xE {
            Some(Instruction::SHL_VX_VY)
        } else {
            None
        }
    } else if family == 0x9 {
        if last == 0x0 {
            Some(Instruction::SNE_VX_VY)
        } else {
            None
        }
    } else if family == 0xA {
        Some(Instruction::LD_I_ADDR)
    } else if family == 0xB {
        Some(Instruction::JP_V0_ADDR)
    } else if family == 0xC {
        Some(Instruction::RND_VX_BYTE)
    } else if family == 0xD {
        Some(Instruction::DRW)
    } else if family == 0xE {
        if low == 0x9E {
            Some(Instruction::SKP_VX)
        } else if low == 0xA1 {
            Some(Instruction::SKNP_VX)
        } else {
            None
        }
    } else {
        if low == 0x07 {
            Some(Instruction::LD_VX_DT)
        } else if low == 0x0A {
            Some(Instruction::LD_VX_K)
        } else if low == 0x15 {
            Some(Instruction::LD_DT_VX)
        } else if low == 0x18 {
            Some(Instruction::LD_ST_VX)
        } else if low == 0x1E {
            Some(Instruction::ADD_I_VX)
        } else if low == 0x29 {
            Some(Instruction::LD_F_VX)
        } else if low == 0x33 {
            Some(Instruction::LD_B_VX)
        } else if low == 0x55 {
            Some(Instruction::LD_I_VX)
        } else if low == 0x65 {
            Some(Instruction::LD_VX_I)
        } else {
            None
        }
    }
}

proof fn lemma_mask_digits(word: u16)
    by (bit_vector)
    ensures
        word & 0xFFFF == word,
        word & 0xF000 == (word / 0x1000) * 0x1000,
        word & 0xF00F == (word / 0x1000) * 0x1000 + word % 0x10,
        word & 0xF0FF == (word / 0x1000) * 0x1000 + word % 0x100,
{
}

/// On the machine's table, first-match resolution gives every word the
/// instruction that its digits encode, and rejects exactly the words that
/// encode none.
pub proof fn lemma_standard_table_decodes(word: u16)
    ensures
        resolve(standard_table(), word) == decode(word),
{
    lemma_mask_digits(word);
    lemma_first_match_from(standard_table(), word, 0);
}

/// The clear-screen instruction is what the word `0x00E0` resolves to, and
/// no other word resolves to it.
pub proof fn lemma_clear_screen_word(word: u16)
    ensures
        resolve(standard_table(), word) == Some(Instruction::CLS) <==> word == 0x00E0,
{
    lemma_standard_table_decodes(word);
}

/// No word matches two entries of the machine's table: no entry shadows
/// another, whatever the order.
pub proof fn lemma_standard_table_unambiguous(word: u16, i: int, j: int)
    requires
        0 <= i < standard_table().len(),
        0 <= j < standard_table().len(),
        entry_matches(standard_table()[i], word),
        entry_matches(standard_table()[j], word),
    ensures
        i == j,
{
    lemma_mask_digits(word);
}

/// Every entry of the machine's table can be reached: its own pattern
/// resolves to its instruction.
pub proof fn lemma_standard_table_reachable(i: int)
    requires
        0 <= i < standard_table().len(),
    ensures
        resolve(standard_table(), standard_table()[i].id) == Some(
            standard_table()[i].instruction,
        ),
{
    let word = standard_table()[i].id;
    lemma_standard_table_decodes(word);
}

/// A fatal condition: the program asked for something the machine cannot
/// do. The instruction that met it changed nothing.
#[derive(Clone, Copy, Debug, PartialEq, Eq, Structural)]
pub enum Fault {
    /// A call with the stack already full.
    StackOverflow,
    /// A return with the stack empty.
    StackUnderflow,
    /// An instruction fetch or a data access beyond the end of memory.
    MemoryOutOfBounds,
}

/// How a cycle ended.
#[derive(Clone, Copy, Debug, PartialEq, Eq, Structural)]
pub enum Cycle {
    /// The instruction ran to its end. `redraw` tells whether it drew on or
    /// cleared the framebuffer.
    Completed { redraw: bool },
    /// The key-wait instruction found the input latch empty. Nothing
    /// changed, and the same instruction runs again in the next cycle.
    AwaitingKey,
}

/// The fatal condition, if any, that keeps `instruction` from running in
/// state `m`.
pub open spec fn fault_of(m: Machine, instruction: Instruction, v: Variables) -> Option<Fault> {
    match instruction {
        Instruction::RET => if m.sp == 0 {
            Some(Fault::StackUnderflow)
        } else {
            None
        },
        Instruction::CALL_ADDR => if m.sp >= STACK_LIMIT {
            Some(Fault::StackOverflow)
        } else {
            None
        },
        Instruction::DRW => if m.i + v.nibble > m.memory.len() {
            Some(Fault::MemoryOutOfBounds)
        } else {
            None
        },
        Instruction::LD_B_VX => if m.i + 2 >= m.memory.len() {
            Some(Fault::MemoryOutOfBounds)
        } else {
            None
        },
        Instruction::LD_VX_I | Instruction::LD_I_VX => if m.i + v.x >= m.memory.len() {
            Some(Fault::MemoryOutOfBounds)
        } else {
            None
        },
        _ => None,
    }
}

/// The state that `instruction` with operands `v` leaves behind when it
/// runs in state `m`; `byte` is the random byte drawn for it, which only the
/// random instruction looks at.
pub open spec fn effect_of(m: Machine, instruction: Instruction, v: Variables, byte: u8) -> Machine {
    match instruction {
        Instruction::CLS => m.cleared(),
        Instruction::RET => m.ret(),
        Instruction::JP_ADDR => m.jp_addr(v.addr),
        Instruction::CALL_ADDR => m.call_addr(v.addr),
        Instruction::SE_VX_BYTE => m.se_xv_byte(v.x, v.kk),
        Instruction::SNE_VX_BYTE => m.sne_xv_byte(v.x, v.kk),
        Instruction::SE_VX_VY => m.se_vx_vy(v.x, v.y),
        Instruction::LD_VX_BYTE => m.ld_vx_byte(v.x, v.kk),
        Instruction::ADD_VX_BYTE => m.add_vx_byte(v.x, v.kk),
        Instruction::LD_VX_VY => m.ld_vx_vy(v.x, v.y),
        Instruction::OR_VX_VY => m.or_vx_vy(v.x, v.y),
        Instruction::AND_VX_VY => m.and_vx_vy(v.x, v.y),
        Instruction::XOR_VX_VY => m.xor_vx_vy(v.x, v.y),
        Instruction::ADD_VX_VY => m.add_vx_vy(v.x, v.y),
        Instruction::SUB_VX_VY => m.sub_vx_vy(v.x, v.y),
        Instruction::SHR_VX_VY => m.shr_vx_vy(v.x, v.y),
        Instruction::SUBN_VX_VY => m.subn_vx_vy(v.x, v.y),
        Instruction::SHL_VX_VY => m.shl_vx_vy(v.x, v.y),
        Instruction::SNE_VX_VY => m.sne_vx_vy(v.x, v.y),
        Instruction::LD_I_ADDR => m.ld_i_addr(v.addr),
        Instruction::JP_V0_ADDR => m.jp_v0_addr(v.addr),
        Instruction::RND_VX_BYTE => m.rnd_vx_byte(v.x, v.kk, byte),
        Instruction::DRW => m.draw(v.x, v.y, v.nibble),
        Instruction::SKP_VX => m.skip_vx(v.x),
        Instruction::SKNP_VX => m.skipn_vx(v.x),
        Instruction::LD_VX_DT => m.load_vx_dt(v.x),
        Instruction::LD_VX_K => m.load_vx_k(v.x),
        Instruction::LD_DT_VX => m.load_dt_vx(v.x),
        Instruction::LD_ST_VX => m.load_st_vx(v.x),
        Instruction::LD_B_VX => m.load_bytes_vx(v.x),
        Instruction::ADD_I_VX => m.add_i_vx(v.x),
        Instruction::LD_F_VX => m.load_f_vx(v.x),
        Instruction::LD_I_VX => m.load_i_vx(v.x),
        Instruction::LD_VX_I => m.load_vx_i(v.x),
    }
}

/// How the cycle of `instruction` ends when it runs in state `m`: clearing
/// and drawing ask for a repaint, and the key-wait is still waiting while
/// the latch is empty.
pub open spec fn ending_of(m: Machine, instruction: Instruction) -> Cycle {
    match instruction {
        Instruction::CLS | Instruction::DRW => Cycle::Completed { redraw: true },
        Instruction::LD_VX_K => if m.key_pressed is None {
            Cycle::AwaitingKey
        } else {
            Cycle::Completed { redraw: false }
        },
        _ => Cycle::Completed { redraw: false },
    }
}

/// The state after `instruction` was asked to run in state `m`: its effect,
/// or `m` itself where a fatal condition stopped it.
pub open spec fn state_after(m: Machine, instruction: Instruction, v: Variables, byte: u8) -> Machine {
    if fault_of(m, instruction, v) is None {
        effect_of(m, instruction, v, byte)
    } else {
        m
    }
}

/// What is reported after `instruction` was asked to run in state `m`.
pub open spec fn report_after(m: Machine, instruction: Instruction, v: Variables) -> Result<
    Cycle,
    Fault,
> {
    match fault_of(m, instruction, v) {
        Some(fault) => Err(fault),
        None => Ok(ending_of(m, instruction)),
    }
}

/// Runs one decoded instruction. A fatal condition is reported and leaves
/// the machine as it was. `random` is the byte that the random instruction
/// masks; with `None` it draws one itself.
pub fn execute_instruction(
    cpu: &mut CPU,
    instruction: Instruction,
    variables: Variables,
    random: Option<u8>,
) -> (result: Result<Cycle, Fault>)
    requires
        old(cpu).wf(),
        variables.x <= 0xF,
        variables.y <= 0xF,
    ensures
        final(cpu).wf(),
        result == report_after(old(cpu)@, instruction, variables),
        exists|byte: u8|
            (random matches Some(given) ==> byte == given) && final(cpu)@ == #[trigger] state_after(
                old(cpu)@,
                instruction,
                variables,
                byte,
            ),
{
    let ghost before = cpu@;
    let ghost mut byte: u8 = match random {
        Some(given) => given,
        None => 0u8,
    };
    let done = Cycle::Completed { redraw: false };
    let result = match instruction {
        Instruction::CLS => {
            let redraw = instructions::clear_screen(cpu);
            Ok(Cycle::Completed { redraw })
        },
        Instruction::RET => {
            if cpu.sp == 0 {
                Err(Fault::StackUnderflow)
            } else {
                instructions::ret(cpu);
                Ok(done)
            }
        },
        Instruction::JP_ADDR => {
            instructions::jp_addr(cpu, variables.addr);
            Ok(done)
        },
        Instruction::CALL_ADDR => {
            if cpu.sp >= STACK_LIMIT {
                Err(Fault::StackOverflow)
            } else {
                instructions::call_addr(cpu, variables.addr);
                Ok(done)
            }
        },
        Instruction::SE_VX_BYTE => {
            instructions::se_xv_byte(cpu, variables.x, variables.kk);
            Ok(done)
        },
        Instruction::SNE_VX_BYTE => {
            instructions::sne_xv_byte(cpu, variables.x, variables.kk);
            Ok(done)
        },
        Instruction::SE_VX_VY => {
            instructions::se_vx_vy(cpu, variables.x, variables.y);
            Ok(done)
        },
        Instruction::LD_VX_BYTE => {
            instructions::ld_vx_byte(cpu, variables.x, variables.kk);
            Ok(done)
        },
        Instruction::ADD_VX_BYTE => {
            instructions::add_vx_byte(cpu, variables.x, variables.kk);
            Ok(done)
        },
        Instruction::LD_VX_VY => {
            instructions::ld_vx_vy(cpu, variables.x, variables.y);
            Ok(done)
        },
        Instruction::OR_VX_VY => {
            instructions::or_vx_vy(cpu, variables.x, variables.y);
            Ok(done)
        },
        Instruction::AND_VX_VY => {
            instructions::and_vx_vy(cpu, variables.x, variables.y);
            Ok(done)
        },
        Instruction::XOR_VX_VY => {
            instructions::xor_vx_vy(cpu, variables.x, variables.y);
            Ok(done)
        },
        Instruction::ADD_VX_VY => {
            instructions::add_vx_vy(cpu, variables.x, variables.y);
            Ok(done)
        },
        Instruction::SUB_VX_VY => {
            instructions::sub_vx_vy(cpu, variables.x, variables.y);
            Ok(done)
        },
        Instruction::SHR_VX_VY => {
            instructions::shr_vx_vy(cpu, variables.x, variables.y);
            Ok(done)
        },
        Instruction::SUBN_VX_VY => {
            instructions::subn_vx_vy(cpu, variables.x, variables.y);
            Ok(done)
        },
        Instruction::SHL_VX_VY => {
            instructions::shl_vx_vy(cpu, variables.x, variables.y);
            Ok(done)
        },
        Instruction::SNE_VX_VY => {
            instructions::sne_vx_vy(cpu, variables.x, variables.y);
            Ok(done)
        },
        Instruction::LD_I_ADDR => {
            instructions::ld_i_addr(cpu, variables.addr);
            Ok(done)
        },
        Instruction::JP_V0_ADDR => {
            instructions::jp_v0_addr(cpu, variables.addr);
            Ok(done)
        },
        Instruction::RND_VX_BYTE => {
            match random {
                Some(given) => {
                    instructions::rnd_vx_byte(cpu, variables.x, variables.kk, given);
                },
                None => {
                    instructions::random_vx_byte(cpu, variables.x, variables.kk);
                    proof {
                        byte = choose|drawn: u8|
                            cpu@ == before.rnd_vx_byte(variables.x, variables.kk, drawn);
                    }
                },
            }
            Ok(done)
        },
        Instruction::DRW => {
            if cpu.i as usize + variables.nibble as usize > cpu.memory.len() {
                Err(Fault::MemoryOutOfBounds)
            } else {
                let redraw = instructions::draw(cpu, variables.x, variables.y, variables.nibble);
                Ok(Cycle::Completed { redraw })
            }
        },
        Instruction::SKP_VX => {
            instructions::skip_vx(cpu, variables.x);
            Ok(done)
        },
        Instruction::SKNP_VX => {
            instructions::skipn_vx(cpu, variables.x);
            Ok(done)
        },
        Instruction::LD_VX_K => {
            if instructions::load_vx_k(cpu, variables.x) {
                Ok(done)
            } else {
                Ok(Cycle::AwaitingKey)
            }
        },
        Instruction::LD_B_VX => {
            if cpu.i as usize + 2 >= cpu.memory.len() {
                Err(Fault::MemoryOutOfBounds)
            } else {
                instructions::load_bytes_vx(cpu, variables.x);
                Ok(done)
            }
        },
        Instruction::LD_VX_I => {
            if cpu.i as usize + variables.x as usize >= cpu.memory.len() {
                Err(Fault::MemoryOutOfBounds)
            } else {
                instructions::load_vx_i(cpu, variables.x);
                Ok(done)
            }
        },
        Instruction::LD_I_VX => {
            if cpu.i as usize + variables.x as usize >= cpu.memory.len() {
                Err(Fault::MemoryOutOfBounds)
            } else {
                instructions::load_i_vx(cpu, variables.x);
                Ok(done)
            }
        },
        Instruction::LD_F_VX => {
            instructions::load_f_vx(cpu, variables.x);
            Ok(done)
        },
        Instruction::ADD_I_VX => {
            instructions::add_i_vx(cpu, variables.x);
            Ok(done)
        },
        Instruction::LD_ST_VX => {
            instructions::load_st_vx(cpu, variables.x);
            Ok(done)
        },
        Instruction::LD_DT_VX => {
            instructions::load_dt_vx(cpu, variables.x);
            Ok(done)
        },
        Instruction::LD_VX_DT => {
            instructions::load_vx_dt(cpu, variables.x);
            Ok(done)
        },
    };
    assert(cpu@ == state_after(before, instruction, variables, byte));
    result
}

/// The state after the instruction word `word` was asked to run in state
/// `m`. A word that `table` does not resolve changes nothing.
pub open spec fn word_state(m: Machine, table: Seq<InstructionLookup>, word: u16, byte: u8) -> Machine {
    match resolve(table, word) {
        Some(instruction) => state_after(m, instruction, fields_of(word), byte),
        None => m,
    }
}

/// What is reported after the instruction word `word` was asked to run in
/// state `m`. A word that `table` does not resolve is no error: its cycle
/// completes without effect.
pub open spec fn word_report(m: Machine, table: Seq<InstructionLookup>, word: u16) -> Result<
    Cycle,
    Fault,
> {
    match resolve(table, word) {
        Some(instruction) => report_after(m, instruction, fields_of(word)),
        None => Ok(Cycle::Completed { redraw: false }),
    }
}

/// The state after the instruction at the program counter was asked to run.
pub open spec fn fetch_state(m: Machine, table: Seq<InstructionLookup>, byte: u8) -> Machine {
    if m.can_fetch() {
        word_state(m, table, m.opcode_at_pc(), byte)
    } else {
        m
    }
}

/// What is reported after the instruction at the program counter was asked
/// to run: a program counter at or beyond the last byte of memory is fatal.
pub open spec fn fetch_report(m: Machine, table: Seq<InstructionLookup>) -> Result<Cycle, Fault> {
    if m.can_fetch() {
        word_report(m, table, m.opcode_at_pc())
    } else {
        Err(Fault::MemoryOutOfBounds)
    }
}

/// The state after one whole cycle: the instruction at the program counter
/// runs and, where it completed, the program counter moves on by one
/// instruction.
pub open spec fn cycle_state(m: Machine, table: Seq<InstructionLookup>, byte: u8) -> Machine {
    if fetch_report(m, table) matches Ok(Cycle::Completed { .. }) {
        fetch_state(m, table, byte).advanced()
    } else {
        fetch_state(m, table, byte)
    }
}

/// Decodes the instruction word `opcode` against `op_codes` and runs it.
/// `random` is the byte that the random instruction masks; with `None` it
/// draws one itself.
pub fn execute_word(
    cpu: &mut CPU,
    op_codes: &Vec<InstructionLookup>,
    opcode: &u16,
    random: Option<u8>,
) -> (result: Result<Cycle, Fault>)
    requires
        old(cpu).wf(),
    ensures
        final(cpu).wf(),
        result == word_report(old(cpu)@, op_codes@, *opcode),
        exists|byte: u8|
            (random matches Some(given) ==> byte == given) && final(cpu)@ == #[trigger] word_state(
                old(cpu)@,
                op_codes@,
                *opcode,
                byte,
            ),
{
    match parse_opcode(op_codes, opcode) {
        Some((instruction, variables)) => {
            let result = execute_instruction(cpu, *instruction, variables, random);
            proof {
                let byte = choose|byte: u8|
                    (random matches Some(given) ==> byte == given) && cpu@ == #[trigger] state_after(
                        old(cpu)@,
                        *instruction,
                        variables,
                        byte,
                    );
                assert(cpu@ == word_state(old(cpu)@, op_codes@, *opcode, byte));
            }
            result
        },
        None => {
            proof {
                let byte: u8 = match random {
                    Some(given) => given,
                    None => 0u8,
                };
                assert(cpu@ == word_state(old(cpu)@, op_codes@, *opcode, byte));
            }
            Ok(Cycle::Completed { redraw: false })
        },
    }
}

/// Fetches the instruction at the program counter, decodes it against
/// `op_codes` and runs it. The program counter is not moved on.
pub fn execute_op_code(cpu: &mut CPU, op_codes: &Vec<InstructionLookup>) -> (result: Result<
    Cycle,
    Fault,
>)
    requires
        old(cpu).wf(),
    ensures
        final(cpu).wf(),
        result == fetch_report(old(cpu)@, op_codes@),
        exists|byte: u8| final(cpu)@ == #[trigger] fetch_state(old(cpu)@, op_codes@, byte),
{
    if cpu.pc as usize + 1 >= cpu.memory.len() {
        proof {
            assert(cpu@ == fetch_state(old(cpu)@, op_codes@, 0u8));
        }
        return Err(Fault::MemoryOutOfBounds);
    }
    let opcode: u16 = cpu.get_next_opcode();
    let result = execute_word(cpu, op_codes, &opcode, None);
    proof {
        let byte = choose|byte: u8| cpu@ == #[trigger] word_state(old(cpu)@, op_codes@, opcode, byte);
        assert(cpu@ == fetch_state(old(cpu)@, op_codes@, byte));
    }
    result
}

/// Runs one whole cycle: the instruction at the program counter, then, if
/// it completed, the step to the next instruction. A cycle that is waiting
/// for a key or met a fatal condition leaves the program counter where it
/// was.
pub fn run_cycle(cpu: &mut CPU, op_codes: &Vec<InstructionLookup>) -> (result: Result<Cycle, Fault>)
    requires
        old(cpu).wf(),
    ensures
        final(cpu).wf(),
        result == fetch_report(old(cpu)@, op_codes@),
        exists|byte: u8| final(cpu)@ == #[trigger] cycle_state(old(cpu)@, op_codes@, byte),
{
    let result = execute_op_code(cpu, op_codes);
    let ghost byte = choose|byte: u8| cpu@ == #[trigger] fetch_state(old(cpu)@, op_codes@, byte);
    match result {
        Ok(Cycle::Completed { .. }) => {
            cpu.advance();
        },
        _ => {},
    }
    proof {
        assert(cpu@ == cycle_state(old(cpu)@, op_codes@, byte));
    }
    result
}

/// A call with sixteen return addresses on the stack is fatal and changes
/// nothing; with fewer it is not.
pub proof fn lemma_call_depth(m: Machine, v: Variables, byte: u8)
    requires
        m.wf(),
    ensures
        m.stack.len() == STACK_LIMIT ==> report_after(m, Instruction::CALL_ADDR, v) == Err::<
            Cycle,
            Fault,
        >(Fault::StackOverflow) && state_after(m, Instruction::CALL_ADDR, v, byte) == m,
        m.stack.len() < STACK_LIMIT ==> report_after(m, Instruction::CALL_ADDR, v) is Ok,
{
}

/// A cycle that did not complete, because it is waiting for a key or
/// because it met a fatal condition, leaves the machine exactly as it was.
pub proof fn lemma_stalled_cycle_changes_nothing(
    m: Machine,
    table: Seq<InstructionLookup>,
    byte: u8,
)
    ensures
        !(fetch_report(m, table) matches Ok(Cycle::Completed { .. })) ==> cycle_state(
            m,
            table,
            byte,
        ) == m,
{
}

/// The key-wait instruction. While the latch is empty its cycle does not
/// complete and nothing changes, the program counter included. Once a key
/// has been latched its cycle completes: the register it names holds the
/// key, the latch is empty and the program counter has moved on.
pub proof fn lemma_key_wait(m: Machine, table: Seq<InstructionLookup>, key: u16, byte: u8)
    requires
        m.wf(),
        m.can_fetch(),
        resolve(table, m.opcode_at_pc()) == Some(Instruction::LD_VX_K),
        key <= 0xF,
    ensures
        m.key_pressed is None ==> fetch_report(m, table) == Ok::<Cycle, Fault>(Cycle::AwaitingKey)
            && cycle_state(m, table, byte) == m,
        ({
            let x = fields_of(m.opcode_at_pc()).x;
            let pressed = Machine { key_pressed: Some(key), ..m };
            let after = cycle_state(pressed, table, byte);
            &&& fetch_report(pressed, table) == Ok::<Cycle, Fault>(Cycle::Completed { redraw: false })
            &&& after.reg(x) == key
            &&& after.key_pressed is None
            &&& after == (Machine { key_pressed: None, ..m.with_register(x, key as u8) }).advanced()
        }),
{
    let x = fields_of(m.opcode_at_pc()).x;
    assert(0 <= x < 16);
}

} // verus!
