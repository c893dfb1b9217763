use chip8::cpu::CPU;
use chip8::opcodes::{
    execute_instruction, execute_op_code, execute_word, initialise_opcodes, parse_variables_from_op_code,
    run_cycle, Cycle, Fault,
};
use chip8::instructions::Instruction;

const DONE: Result<Cycle, Fault> = Ok(Cycle::Completed { redraw: false });
const REDRAW: Result<Cycle, Fault> = Ok(Cycle::Completed { redraw: true });

fn machine_running(program: &[u16]) -> CPU {
    let mut cpu = CPU::new();
    let mut image = Vec::new();
    for word in program.iter() {
        image.push((word >> 8) as u8);
        image.push((word & 0xFF) as u8);
    }
    assert!(cpu.load_program(&image));
    cpu
}

fn snapshot(cpu: &CPU) -> (Vec<u8>, u16, Vec<u16>, u8, Vec<u8>, u16, Vec<bool>, Option<u16>, u16, u16) {
    (
        cpu.memory.clone(),
        cpu.pc,
        cpu.stack.iter().copied().collect(),
        cpu.sp,
        cpu.registers.clone(),
        cpu.i,
        cpu.screen.clone(),
        cpu.key_pressed,
        cpu.dt,
        cpu.st,
    )
}

#[test]
fn load_immediate_leaves_the_other_registers_alone() {
    let mut cpu = CPU::new();
    let op_codes = initialise_opcodes();
    let before = snapshot(&cpu);
    assert_eq!(execute_word(&mut cpu, &op_codes, &0x6100, None), DONE);
    assert_eq!(cpu.registers[1], 0);
    assert_eq!(snapshot(&cpu), before);
    assert_eq!(execute_word(&mut cpu, &op_codes, &0x61AB, None), DONE);
    for index in 0..16 {
        assert_eq!(cpu.registers[index], if index == 1 { 0xAB } else { 0 });
    }
}

#[test]
fn load_index_touches_no_register() {
    let mut cpu = CPU::new();
    for index in 0..16u8 {
        cpu.set_register_value(index, index + 1);
    }
    let op_codes = initialise_opcodes();
    let registers = cpu.registers.clone();
    assert_eq!(execute_word(&mut cpu, &op_codes, &0xA2D8, None), DONE);
    assert_eq!(cpu.i, 0x2D8);
    assert_eq!(cpu.registers, registers);
    assert_eq!(cpu.pc, 0x200);
}

#[test]
fn register_add_through_the_decoder() {
    let mut cpu = CPU::new();
    let op_codes = initialise_opcodes();
    cpu.set_register_value(0xA, 250);
    cpu.set_register_value(0xB, 10);
    assert_eq!(execute_word(&mut cpu, &op_codes, &0x8AB4, None), DONE);
    assert_eq!(cpu.registers[0xA], 4);
    assert_eq!(cpu.registers[0xF], 1);
    cpu.set_register_value(0xA, 1);
    cpu.set_register_value(0xB, 1);
    assert_eq!(execute_word(&mut cpu, &op_codes, &0x8AB4, None), DONE);
    assert_eq!(cpu.registers[0xA], 2);
    assert_eq!(cpu.registers[0xF], 0);
}

#[test]
fn subtract_through_the_decoder() {
    let mut cpu = CPU::new();
    let op_codes = initialise_opcodes();
    cpu.set_register_value(1, 3);
    cpu.set_register_value(2, 5);
    assert_eq!(execute_word(&mut cpu, &op_codes, &0x8125, None), DONE);
    assert_eq!(cpu.registers[1], 254);
    assert_eq!(cpu.registers[0xF], 0);
    cpu.set_register_value(1, 5);
    cpu.set_register_value(2, 3);
    assert_eq!(execute_word(&mut cpu, &op_codes, &0x8125, None), DONE);
    assert_eq!(cpu.registers[1], 2);
    assert_eq!(cpu.registers[0xF], 1);
}

#[test]
fn bitwise_words_reach_their_own_handlers() {
    let mut cpu = CPU::new();
    let op_codes = initialise_opcodes();
    cpu.set_register_value(1, 0b1100);
    cpu.set_register_value(2, 0b1010);
    execute_word(&mut cpu, &op_codes, &0x8321, None).unwrap();
    assert_eq!(cpu.registers[3], 0b1010);
    execute_word(&mut cpu, &op_codes, &0x8320, None).unwrap();
    execute_word(&mut cpu, &op_codes, &0x8311, None).unwrap();
    assert_eq!(cpu.registers[3], 0b1110);
    execute_word(&mut cpu, &op_codes, &0x8312, None).unwrap();
    assert_eq!(cpu.registers[3], 0b1100);
    execute_word(&mut cpu, &op_codes, &0x8323, None).unwrap();
    assert_eq!(cpu.registers[3], 0b0110);
}

#[test]
fn unknown_word_is_a_completed_cycle_without_effect() {
    let mut cpu = machine_running(&[0x0123, 0x8128]);
    let op_codes = initialise_opcodes();
    let before = snapshot(&cpu);
    assert_eq!(execute_op_code(&mut cpu, &op_codes), DONE);
    assert_eq!(snapshot(&cpu), before);
    assert_eq!(run_cycle(&mut cpu, &op_codes), DONE);
    assert_eq!(cpu.pc, 0x202);
    assert_eq!(run_cycle(&mut cpu, &op_codes), DONE);
    assert_eq!(cpu.pc, 0x204);
    assert_eq!(cpu.registers, vec![0u8; 16]);
}

#[test]
fn clear_and_draw_ask_for_a_repaint() {
    let mut cpu = machine_running(&[0xA000, 0xD015, 0x00E0, 0x6000]);
    let op_codes = initialise_opcodes();
    assert_eq!(run_cycle(&mut cpu, &op_codes), DONE);
    assert_eq!(run_cycle(&mut cpu, &op_codes), REDRAW);
    assert_eq!(cpu.screen.iter().filter(|lit| **lit).count(), 14);
    assert_eq!(cpu.registers[0xF], 0);
    assert_eq!(run_cycle(&mut cpu, &op_codes), REDRAW);
    assert_eq!(cpu.screen, vec![false; 2048]);
    assert_eq!(run_cycle(&mut cpu, &op_codes), DONE);
    assert_eq!(cpu.pc, 0x208);
}

#[test]
fn call_and_return_cycles_pair_up() {
    let mut cpu = machine_running(&[0x2206, 0x6177, 0x0000, 0x6233, 0x00EE]);
    let op_codes = initialise_opcodes();
    assert_eq!(run_cycle(&mut cpu, &op_codes), DONE);
    assert_eq!(cpu.pc, 0x206);
    assert_eq!(cpu.sp, 1);
    assert_eq!(run_cycle(&mut cpu, &op_codes), DONE);
    assert_eq!(cpu.registers[2], 0x33);
    assert_eq!(run_cycle(&mut cpu, &op_codes), DONE);
    assert_eq!(cpu.pc, 0x202);
    assert_eq!(cpu.sp, 0);
    assert!(cpu.stack.is_empty());
    assert_eq!(run_cycle(&mut cpu, &op_codes), DONE);
    assert_eq!(cpu.registers[1], 0x77);
}

#[test]
fn seventeenth_nested_call_is_fatal() {
    let mut cpu = machine_running(&[0x2200]);
    let op_codes = initialise_opcodes();
    for depth in 1..=16 {
        assert_eq!(run_cycle(&mut cpu, &op_codes), DONE);
        assert_eq!(cpu.sp, depth);
        assert_eq!(cpu.pc, 0x200);
    }
    let before = snapshot(&cpu);
    assert_eq!(run_cycle(&mut cpu, &op_codes), Err(Fault::StackOverflow));
    assert_eq!(snapshot(&cpu), before);
    assert_eq!(execute_word(&mut cpu, &op_codes, &0x2ABC, None), Err(Fault::StackOverflow));
    assert_eq!(snapshot(&cpu), before);
}

#[test]
fn return_with_an_empty_stack_is_fatal() {
    let mut cpu = machine_running(&[0x00EE]);
    let op_codes = initialise_opcodes();
    let before = snapshot(&cpu);
    assert_eq!(run_cycle(&mut cpu, &op_codes), Err(Fault::StackUnderflow));
    assert_eq!(snapshot(&cpu), before);
}

#[test]
fn fetch_beyond_memory_is_fatal() {
    let op_codes = initialise_opcodes();
    let mut cpu = CPU::new();
    cpu.pc = 4095;
    let before = snapshot(&cpu);
    assert_eq!(execute_op_code(&mut cpu, &op_codes), Err(Fault::MemoryOutOfBounds));
    assert_eq!(run_cycle(&mut cpu, &op_codes), Err(Fault::MemoryOutOfBounds));
    assert_eq!(snapshot(&cpu), before);
    cpu.pc = 0xFFFF;
    assert_eq!(run_cycle(&mut cpu, &op_codes), Err(Fault::MemoryOutOfBounds));
    cpu.pc = 4094;
    assert_eq!(run_cycle(&mut cpu, &op_codes), DONE);
    assert_eq!(cpu.pc, 4096);
    assert_eq!(run_cycle(&mut cpu, &op_codes), Err(Fault::MemoryOutOfBounds));
}

#[test]
fn data_access_beyond_memory_is_fatal() {
    let op_codes = initialise_opcodes();
    let mut cpu = CPU::new();
    cpu.set_register_value(0, 123);
    cpu.i = 4094;
    let before = snapshot(&cpu);
    assert_eq!(execute_word(&mut cpu, &op_codes, &0xF033, None), Err(Fault::MemoryOutOfBounds));
    assert_eq!(execute_word(&mut cpu, &op_codes, &0xF255, None), Err(Fault::MemoryOutOfBounds));
    assert_eq!(execute_word(&mut cpu, &op_codes, &0xF265, None), Err(Fault::MemoryOutOfBounds));
    assert_eq!(execute_word(&mut cpu, &op_codes, &0xD003, None), Err(Fault::MemoryOutOfBounds));
    assert_eq!(snapshot(&cpu), before);
    assert_eq!(execute_word(&mut cpu, &op_codes, &0xD002, None), REDRAW);
    assert_eq!(execute_word(&mut cpu, &op_codes, &0xF155, None), DONE);
    assert_eq!(cpu.i, 4096);
    assert_eq!(execute_word(&mut cpu, &op_codes, &0xD000, None), REDRAW);
    assert_eq!(execute_word(&mut cpu, &op_codes, &0xF065, None), Err(Fault::MemoryOutOfBounds));
}

#[test]
fn key_wait_holds_the_cycle_until_a_key_is_latched() {
    let mut cpu = machine_running(&[0xF30A, 0x6401]);
    let op_codes = initialise_opcodes();
    cpu.dt = 9;
    let before = snapshot(&cpu);
    for _ in 0..3 {
        assert_eq!(run_cycle(&mut cpu, &op_codes), Ok(Cycle::AwaitingKey));
        assert_eq!(snapshot(&cpu), before);
    }
    cpu.key_pressed = Some(0xE);
    assert_eq!(run_cycle(&mut cpu, &op_codes), DONE);
    assert_eq!(cpu.registers[3], 0xE);
    assert_eq!(cpu.key_pressed, None);
    assert_eq!(cpu.pc, 0x202);
    assert_eq!(cpu.dt, 9);
    assert_eq!(run_cycle(&mut cpu, &op_codes), DONE);
    assert_eq!(cpu.registers[4], 1);
}

#[test]
fn random_word_uses_the_byte_it_is_given() {
    let mut cpu = CPU::new();
    let op_codes = initialise_opcodes();
    assert_eq!(execute_word(&mut cpu, &op_codes, &0xC5F0, Some(0xAB)), DONE);
    assert_eq!(cpu.registers[5], 0xA0);
    assert_eq!(execute_word(&mut cpu, &op_codes, &0xC50F, Some(0xAB)), DONE);
    assert_eq!(cpu.registers[5], 0x0B);
    assert_eq!(execute_word(&mut cpu, &op_codes, &0x6507, Some(0xAB)), DONE);
    assert_eq!(cpu.registers[5], 0x07);
}

#[test]
fn random_word_draws_a_byte_when_given_none() {
    let mut cpu = machine_running(&[0xC10F, 0x1200]);
    let op_codes = initialise_opcodes();
    for _ in 0..100 {
        assert_eq!(run_cycle(&mut cpu, &op_codes), DONE);
        assert!(cpu.registers[1] <= 0x0F);
        assert_eq!(run_cycle(&mut cpu, &op_codes), DONE);
        assert_eq!(cpu.pc, 0x200);
    }
}

#[test]
fn skip_cycles_pass_over_one_instruction() {
    let mut cpu = machine_running(&[0x3000, 0x6101, 0x4000, 0x6201, 0x6301]);
    let op_codes = initialise_opcodes();
    assert_eq!(run_cycle(&mut cpu, &op_codes), DONE);
    assert_eq!(cpu.pc, 0x204);
    assert_eq!(run_cycle(&mut cpu, &op_codes), DONE);
    assert_eq!(cpu.pc, 0x206);
    assert_eq!(run_cycle(&mut cpu, &op_codes), DONE);
    assert_eq!(run_cycle(&mut cpu, &op_codes), DONE);
    assert_eq!(&cpu.registers[1..4], &[0, 1, 1]);
}

#[test]
fn jump_cycle_lands_on_its_target() {
    let mut cpu = machine_running(&[0x1204, 0x6101, 0xB206, 0x6201, 0x6301]);
    let op_codes = initialise_opcodes();
    cpu.set_register_value(0, 2);
    assert_eq!(run_cycle(&mut cpu, &op_codes), DONE);
    assert_eq!(cpu.pc, 0x204);
    assert_eq!(run_cycle(&mut cpu, &op_codes), DONE);
    assert_eq!(cpu.pc, 0x208);
    assert_eq!(run_cycle(&mut cpu, &op_codes), DONE);
    assert_eq!(&cpu.registers[1..4], &[0, 0, 1]);
}

#[test]
fn decoded_instruction_runs_without_a_table() {
    let mut cpu = CPU::new();
    let variables = parse_variables_from_op_code(&0x7A05);
    assert_eq!(execute_instruction(&mut cpu, Instruction::ADD_VX_BYTE, variables, None), DONE);
    assert_eq!(cpu.registers[0xA], 5);
    assert_eq!(execute_instruction(&mut cpu, Instruction::CLS, variables, None), REDRAW);
    assert_eq!(
        execute_instruction(&mut cpu, Instruction::RET, variables, None),
        Err(Fault::StackUnderflow)
    );
    assert_eq!(
        execute_instruction(&mut cpu, Instruction::LD_VX_K, variables, None),
        Ok(Cycle::AwaitingKey)
    );
    assert_eq!(execute_instruction(&mut cpu, Instruction::RND_VX_BYTE, variables, Some(0xFF)), DONE);
    assert_eq!(cpu.registers[0xA], 0x05);
}

#[test]
fn decimal_digits_program() {
    let mut cpu = machine_running(&[0x60FE, 0xA300, 0xF033, 0xF265]);
    let op_codes = initialise_opcodes();
    for _ in 0..4 {
        assert_eq!(run_cycle(&mut cpu, &op_codes), DONE);
    }
    assert_eq!(&cpu.memory[0x300..0x303], &[2, 5, 4]);
    assert_eq!(&cpu.registers[0..3], &[2, 5, 4]);
    assert_eq!(cpu.i, 0x303);
    assert_eq!(cpu.pc, 0x208);
}
