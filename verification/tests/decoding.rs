use chip8::cpu::CPU;
use chip8::instructions::Instruction;
use chip8::opcodes::{
    execute_word, find_opcode_id, initialise_opcodes, parse_opcode, parse_variables_from_op_code,
};

fn find_op_code_test(opcode: u16, expected_op_code: Instruction) {
    let op_codes = initialise_opcodes();
    let op_code_id = find_opcode_id(&op_codes, &opcode).unwrap();
    assert_eq!(expected_op_code, *op_code_id);
}

#[test]
#[allow(non_snake_case)]
fn op_code_CLS() {
    let opcode = 0x00E0;
    find_op_code_test(opcode, Instruction::CLS);
}

#[test]
#[allow(non_snake_case)]
fn op_code_RET() {
    let opcode = 0x00EE;
    find_op_code_test(opcode, Instruction::RET);
}

#[test]
#[allow(non_snake_case)]
fn op_code_JP_ADDR() {
    let opcode = 0x1000;
    find_op_code_test(opcode, Instruction::JP_ADDR);
}

#[test]
#[allow(non_snake_case)]
fn op_code_CALL_ADDR() {
    let opcode = 0x2000;
    find_op_code_test(opcode, Instruction::CALL_ADDR);
}

#[test]
fn parse_opcode_test() {
    let op_codes = initialise_opcodes();
    let (op_code, variable) = parse_opcode(&op_codes, &0x42FC).unwrap();

    assert_eq!(Instruction::SNE_VX_BYTE, *op_code);
    assert_eq!(0x2, variable.x);
    assert_eq!(0x0F, variable.y);
    assert_eq!(0x0C, variable.nibble);
    assert_eq!(0x02FC, variable.addr);
    assert_eq!(0xFC, variable.kk);
}

#[test]
#[allow(non_snake_case)]
fn execute_LD_VX_BYTE_test() {
    let mut cpu = CPU::new();
    let op_codes = initialise_opcodes();

    execute_word(&mut cpu, &op_codes, &0x6100, None).unwrap();

    assert_eq![0x00, cpu.registers[1]];
}

#[test]
#[allow(non_snake_case)]
fn execute_LD_I_ADDR_test() {
    let mut cpu = CPU::new();
    let op_codes = initialise_opcodes();

    execute_word(&mut cpu, &op_codes, &0xa2d8, None).unwrap();

    assert_eq![0x2d8, cpu.i];
}

#[test]
fn fields_of_extreme_words() {
    let zero = parse_variables_from_op_code(&0x0000);
    assert_eq!((zero.addr, zero.nibble, zero.x, zero.y, zero.kk), (0, 0, 0, 0, 0));
    let ones = parse_variables_from_op_code(&0xFFFF);
    assert_eq!((ones.addr, ones.nibble, ones.x, ones.y, ones.kk), (0xFFF, 0xF, 0xF, 0xF, 0xFF));
    let mixed = parse_variables_from_op_code(&0xD12A);
    assert_eq!((mixed.addr, mixed.nibble, mixed.x, mixed.y, mixed.kk), (0x12A, 0xA, 1, 2, 0x2A));
}

#[test]
fn only_the_clear_word_resolves_to_clear() {
    let op_codes = initialise_opcodes();
    let mut hits = Vec::new();
    for word in 0..=0xFFFFu16 {
        if find_opcode_id(&op_codes, &word) == Some(&Instruction::CLS) {
            hits.push(word);
        }
    }
    assert_eq!(hits, vec![0x00E0]);
}

#[test]
fn every_table_entry_is_reached_by_its_own_pattern() {
    let op_codes = initialise_opcodes();
    assert_eq!(op_codes.len(), 34);
    for entry in op_codes.iter() {
        assert_eq!(find_opcode_id(&op_codes, &entry.id), Some(&entry.instruction));
    }
}

#[test]
fn no_word_matches_two_entries() {
    let op_codes = initialise_opcodes();
    for word in 0..=0xFFFFu16 {
        let matching = op_codes.iter().filter(|entry| word & entry.mask == entry.id).count();
        assert!(matching <= 1, "word {:#06x} matches {} entries", word, matching);
    }
}

#[test]
fn arithmetic_family_is_told_apart_by_its_last_digit() {
    let op_codes = initialise_opcodes();
    let expected = [
        (0x8120, Instruction::LD_VX_VY),
        (0x8121, Instruction::OR_VX_VY),
        (0x8122, Instruction::AND_VX_VY),
        (0x8123, Instruction::XOR_VX_VY),
        (0x8124, Instruction::ADD_VX_VY),
        (0x8125, Instruction::SUB_VX_VY),
        (0x8126, Instruction::SHR_VX_VY),
        (0x8127, Instruction::SUBN_VX_VY),
        (0x812E, Instruction::SHL_VX_VY),
    ];
    for (word, instruction) in expected.iter() {
        assert_eq!(find_opcode_id(&op_codes, word), Some(instruction));
    }
}

#[test]
fn every_family_resolves() {
    let op_codes = initialise_opcodes();
    let expected = [
        (0x1ABC, Instruction::JP_ADDR),
        (0x2ABC, Instruction::CALL_ADDR),
        (0x3A12, Instruction::SE_VX_BYTE),
        (0x4A12, Instruction::SNE_VX_BYTE),
        (0x5AB0, Instruction::SE_VX_VY),
        (0x6A12, Instruction::LD_VX_BYTE),
        (0x7A12, Instruction::ADD_VX_BYTE),
        (0x9AB0, Instruction::SNE_VX_VY),
        (0xA123, Instruction::LD_I_ADDR),
        (0xB123, Instruction::JP_V0_ADDR),
        (0xC1FF, Instruction::RND_VX_BYTE),
        (0xD125, Instruction::DRW),
        (0xE19E, Instruction::SKP_VX),
        (0xE1A1, Instruction::SKNP_VX),
        (0xF107, Instruction::LD_VX_DT),
        (0xF10A, Instruction::LD_VX_K),
        (0xF115, Instruction::LD_DT_VX),
        (0xF118, Instruction::LD_ST_VX),
        (0xF11E, Instruction::ADD_I_VX),
        (0xF129, Instruction::LD_F_VX),
        (0xF133, Instruction::LD_B_VX),
        (0xF155, Instruction::LD_I_VX),
        (0xF165, Instruction::LD_VX_I),
    ];
    for (word, instruction) in expected.iter() {
        assert_eq!(find_opcode_id(&op_codes, word), Some(instruction));
    }
}

#[test]
fn words_that_encode_nothing_do_not_resolve() {
    let op_codes = initialise_opcodes();
    for word in [0x0000u16, 0x0123, 0x00E1, 0x8128, 0x812F, 0x9AB1, 0xE100, 0xF1FF, 0xF100] {
        assert_eq!(find_opcode_id(&op_codes, &word), None);
        assert!(parse_opcode(&op_codes, &word).is_none());
    }
}

#[test]
fn first_match_wins_in_any_table() {
    let mut op_codes = initialise_opcodes();
    op_codes.swap(0, 2);
    op_codes[0].mask = 0x0000;
    op_codes[0].id = 0x0000;
    assert_eq!(find_opcode_id(&op_codes, &0x00E0), Some(&Instruction::JP_ADDR));
    assert_eq!(find_opcode_id(&op_codes, &0xFFFF), Some(&Instruction::JP_ADDR));
    assert_eq!(find_opcode_id(&Vec::new(), &0x00E0), None);
}
