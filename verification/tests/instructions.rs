use pschip8::input::{Event, Key, Keypad};
use pschip8::instruction::{decode, Instruction};
use pschip8::interpreter::{u8_to_bcd, Interpreter};
use pschip8::machine::{Fault, KeyWait, Step};

fn machine_running(program: &[u16]) -> Interpreter {
    let mut machine = Interpreter::new();
    assert_eq!(machine.load_from_bytes(program), Ok(()));
    machine
}

fn run(machine: &mut Interpreter, steps: usize) {
    let keypad = Keypad::new();
    for _ in 0..steps {
        assert_eq!(machine.step(0, &keypad), Ok(Step::Done));
    }
}

fn v(machine: &Interpreter, x: u8) -> u8 {
    machine.registers().get(x).expect("a register index below sixteen")
}

fn lit_count(machine: &Interpreter) -> usize {
    let mut count = 0;
    for y in 0..32u8 {
        for x in 0..64u8 {
            if machine.video().pixel(x, y) == Some(true) {
                count += 1;
            }
        }
    }
    count
}

#[test]
fn decode_reads_the_fields() {
    assert_eq!(decode(0x00e0), Instruction::ClearScreen);
    assert_eq!(decode(0x00ee), Instruction::Return);
    assert_eq!(decode(0x1abc), Instruction::Jump { addr: 0xabc });
    assert_eq!(decode(0x2def), Instruction::Call { addr: 0xdef });
    assert_eq!(decode(0x3a12), Instruction::SkipEqualByte { x: 0xa, kk: 0x12 });
    assert_eq!(decode(0x4b34), Instruction::SkipUnequalByte { x: 0xb, kk: 0x34 });
    assert_eq!(decode(0x5cd0), Instruction::SkipEqual { x: 0xc, y: 0xd });
    assert_eq!(decode(0x6e56), Instruction::LoadByte { x: 0xe, kk: 0x56 });
    assert_eq!(decode(0x7f78), Instruction::AddByte { x: 0xf, kk: 0x78 });
    assert_eq!(decode(0x8120), Instruction::Move { x: 1, y: 2 });
    assert_eq!(decode(0x8121), Instruction::Or { x: 1, y: 2 });
    assert_eq!(decode(0x8122), Instruction::And { x: 1, y: 2 });
    assert_eq!(decode(0x8123), Instruction::Xor { x: 1, y: 2 });
    assert_eq!(decode(0x8124), Instruction::Add { x: 1, y: 2 });
    assert_eq!(decode(0x8125), Instruction::Subtract { x: 1, y: 2 });
    assert_eq!(decode(0x8126), Instruction::ShiftRight { x: 1 });
    assert_eq!(decode(0x8127), Instruction::SubtractFrom { x: 1, y: 2 });
    assert_eq!(decode(0x812e), Instruction::ShiftLeft { x: 1 });
    assert_eq!(decode(0x9340), Instruction::SkipUnequal { x: 3, y: 4 });
    assert_eq!(decode(0xa123), Instruction::LoadIndex { addr: 0x123 });
    assert_eq!(decode(0xb456), Instruction::JumpOffset { addr: 0x456 });
    assert_eq!(decode(0xc7f0), Instruction::Random { x: 7, kk: 0xf0 });
    assert_eq!(decode(0xd125), Instruction::Draw { x: 1, y: 2, n: 5 });
    assert_eq!(decode(0xe89e), Instruction::SkipKey { x: 8 });
    assert_eq!(decode(0xe9a1), Instruction::SkipNoKey { x: 9 });
    assert_eq!(decode(0xf107), Instruction::ReadDelay { x: 1 });
    assert_eq!(decode(0xf20a), Instruction::WaitKey { x: 2 });
    assert_eq!(decode(0xf315), Instruction::SetDelay { x: 3 });
    assert_eq!(decode(0xf418), Instruction::SetSound { x: 4 });
    assert_eq!(decode(0xf51e), Instruction::AddIndex { x: 5 });
    assert_eq!(decode(0xf629), Instruction::FontAddress { x: 6 });
    assert_eq!(decode(0xf733), Instruction::StoreDigits { x: 7 });
    assert_eq!(decode(0xf855), Instruction::StoreRegisters { x: 8 });
    assert_eq!(decode(0xf965), Instruction::LoadRegisters { x: 9 });
}

#[test]
fn decode_gaps_are_nops() {
    assert_eq!(decode(0x0000), Instruction::Nop);
    assert_eq!(decode(0x0123), Instruction::Nop);
    assert_eq!(decode(0x5121), Instruction::Nop);
    assert_eq!(decode(0x8128), Instruction::Nop);
    assert_eq!(decode(0x812f), Instruction::Nop);
    assert_eq!(decode(0x9121), Instruction::Nop);
    assert_eq!(decode(0xe100), Instruction::Nop);
    assert_eq!(decode(0xf100), Instruction::Nop);
    assert_eq!(decode(0xf1ff), Instruction::Nop);
}

#[test]
fn gap_only_advances_the_program_counter() {
    let mut machine = machine_running(&[0x8128, 0xe100, 0xf1ff, 0x0123]);
    run(&mut machine, 4);
    assert_eq!(machine.registers().pc, 0x208);
    for x in 0..16u8 {
        assert_eq!(v(&machine, x), 0);
    }
}

#[test]
fn bcd_of_157() {
    assert_eq!(u8_to_bcd(157), [1, 5, 7]);
    assert_eq!(u8_to_bcd(0), [0, 0, 0]);
    assert_eq!(u8_to_bcd(9), [0, 0, 9]);
    assert_eq!(u8_to_bcd(40), [0, 4, 0]);
    assert_eq!(u8_to_bcd(255), [2, 5, 5]);
}

#[test]
fn load_add_jump_scenario() {
    let mut machine = machine_running(&[0x6005, 0x7003, 0x1200]);
    let keypad = Keypad::new();
    assert_eq!(machine.registers().pc, 0x200);
    assert_eq!(machine.cycle(&keypad), Ok(Step::Done));
    assert_eq!(v(&machine, 0), 5);
    assert_eq!(machine.registers().pc, 0x202);
    assert_eq!(machine.cycle(&keypad), Ok(Step::Done));
    assert_eq!(v(&machine, 0), 8);
    assert_eq!(machine.registers().pc, 0x204);
    assert_eq!(machine.cycle(&keypad), Ok(Step::Done));
    assert_eq!(v(&machine, 0), 8);
    assert_eq!(machine.registers().pc, 0x200);
}

#[test]
fn load_byte_then_read_gives_the_byte() {
    for x in 0..16u16 {
        for kk in [0u16, 1, 0x7f, 0x80, 0xff] {
            let mut machine = machine_running(&[0x6000 | (x << 8) | kk]);
            run(&mut machine, 1);
            assert_eq!(v(&machine, x as u8), kk as u8);
            assert_eq!(machine.registers().pc, 0x202);
        }
    }
}

#[test]
fn clear_screen_scenario() {
    let mut machine = machine_running(&[0xa000, 0xd005, 0x00e0]);
    run(&mut machine, 2);
    assert!(lit_count(&machine) > 0);
    assert!(machine.render_screen().is_some());
    assert!(!machine.video().is_dirty());
    run(&mut machine, 1);
    assert_eq!(lit_count(&machine), 0);
    assert!(machine.video().is_dirty());
    assert_eq!(machine.registers().pc, 0x206);
}

#[test]
fn store_digits_scenario() {
    let mut machine = machine_running(&[0x639d, 0xa300, 0xf333]);
    run(&mut machine, 3);
    assert_eq!(machine.memory_at(0x300), Some(1));
    assert_eq!(machine.memory_at(0x301), Some(5));
    assert_eq!(machine.memory_at(0x302), Some(7));
    assert_eq!(machine.memory_at(0x303), Some(0));
    assert_eq!(machine.registers().i, 0x300);
    assert_eq!(machine.registers().pc, 0x206);
}

#[test]
fn add_registers_sets_carry_and_wraps() {
    let mut machine = machine_running(&[0x61c8, 0x6264, 0x8124]);
    run(&mut machine, 3);
    assert_eq!(v(&machine, 1), 44);
    assert_eq!(v(&machine, 0xf), 1);
    assert_eq!(v(&machine, 2), 100);
}

#[test]
fn add_registers_without_carry_clears_flag() {
    let mut machine = machine_running(&[0x6f01, 0x6164, 0x629b, 0x8124]);
    run(&mut machine, 4);
    assert_eq!(v(&machine, 1), 255);
    assert_eq!(v(&machine, 0xf), 0);
}

#[test]
fn add_into_flag_register_keeps_the_sum() {
    let mut machine = machine_running(&[0x6f10, 0x6120, 0x8f14]);
    run(&mut machine, 3);
    assert_eq!(v(&machine, 0xf), 0x30);
}

#[test]
fn add_byte_sets_carry_and_wraps() {
    let mut machine = machine_running(&[0x63ff, 0x7302, 0x7301]);
    run(&mut machine, 2);
    assert_eq!(v(&machine, 3), 1);
    assert_eq!(v(&machine, 0xf), 1);
    run(&mut machine, 1);
    assert_eq!(v(&machine, 3), 2);
    assert_eq!(v(&machine, 0xf), 0);
}

#[test]
fn subtract_gives_difference_and_sets_flag() {
    let mut machine = machine_running(&[0x6109, 0x6204, 0x8125]);
    run(&mut machine, 3);
    assert_eq!(v(&machine, 1), 5);
    assert_eq!(v(&machine, 0xf), 1);
}

#[test]
fn subtract_clamps_at_zero_and_clears_flag() {
    let mut machine = machine_running(&[0x6f01, 0x6104, 0x6209, 0x8125]);
    run(&mut machine, 4);
    assert_eq!(v(&machine, 1), 0);
    assert_eq!(v(&machine, 0xf), 0);
}

#[test]
fn subtract_of_equal_values_clears_flag() {
    let mut machine = machine_running(&[0x6f01, 0x6107, 0x6207, 0x8125]);
    run(&mut machine, 4);
    assert_eq!(v(&machine, 1), 0);
    assert_eq!(v(&machine, 0xf), 0);
}

#[test]
fn subtract_from_gives_reverse_difference() {
    let mut machine = machine_running(&[0x6104, 0x6209, 0x8127, 0x6309, 0x6404, 0x8347]);
    run(&mut machine, 3);
    assert_eq!(v(&machine, 1), 5);
    assert_eq!(v(&machine, 0xf), 1);
    run(&mut machine, 3);
    assert_eq!(v(&machine, 3), 0);
    assert_eq!(v(&machine, 0xf), 0);
}

#[test]
fn move_or_and_xor() {
    let mut machine = machine_running(&[
        0x61f0, 0x623c, 0x8310, 0x8321, 0x8410, 0x8422, 0x8510, 0x8523,
    ]);
    run(&mut machine, 8);
    assert_eq!(v(&machine, 3), 0xfc);
    assert_eq!(v(&machine, 4), 0x30);
    assert_eq!(v(&machine, 5), 0xcc);
    assert_eq!(v(&machine, 0xf), 0);
}

#[test]
fn shift_right_keeps_the_low_bit_in_flag() {
    let mut machine = machine_running(&[0x6105, 0x8106, 0x8106]);
    run(&mut machine, 2);
    assert_eq!(v(&machine, 1), 2);
    assert_eq!(v(&machine, 0xf), 1);
    run(&mut machine, 1);
    assert_eq!(v(&machine, 1), 1);
    assert_eq!(v(&machine, 0xf), 0);
}

#[test]
fn shift_left_keeps_the_high_bit_in_flag() {
    let mut machine = machine_running(&[0x61c1, 0x810e, 0x810e, 0x6210, 0x820e]);
    run(&mut machine, 2);
    assert_eq!(v(&machine, 1), 0x82);
    assert_eq!(v(&machine, 0xf), 1);
    run(&mut machine, 1);
    assert_eq!(v(&machine, 1), 0x04);
    assert_eq!(v(&machine, 0xf), 1);
    run(&mut machine, 2);
    assert_eq!(v(&machine, 2), 0x20);
    assert_eq!(v(&machine, 0xf), 0);
}

#[test]
fn skip_if_equal_byte() {
    let mut machine = machine_running(&[0x6107, 0x3107, 0x0000, 0x3108]);
    run(&mut machine, 2);
    assert_eq!(machine.registers().pc, 0x206);
    run(&mut machine, 1);
    assert_eq!(machine.registers().pc, 0x208);
}

#[test]
fn skip_if_unequal_byte() {
    let mut machine = machine_running(&[0x6107, 0x4108, 0x0000, 0x4107]);
    run(&mut machine, 2);
    assert_eq!(machine.registers().pc, 0x206);
    run(&mut machine, 1);
    assert_eq!(machine.registers().pc, 0x208);
}

#[test]
fn skip_if_registers_equal() {
    let mut machine = machine_running(&[0x6107, 0x6207, 0x5120, 0x0000, 0x5130]);
    run(&mut machine, 3);
    assert_eq!(machine.registers().pc, 0x208);
    run(&mut machine, 1);
    assert_eq!(machine.registers().pc, 0x20a);
}

#[test]
fn skip_if_registers_unequal() {
    let mut machine = machine_running(&[0x6107, 0x6208, 0x9120, 0x0000, 0x9110]);
    run(&mut machine, 3);
    assert_eq!(machine.registers().pc, 0x208);
    run(&mut machine, 1);
    assert_eq!(machine.registers().pc, 0x20a);
}

#[test]
fn jump_sets_the_program_counter() {
    let mut machine = machine_running(&[0x1abc]);
    run(&mut machine, 1);
    assert_eq!(machine.registers().pc, 0xabc);
}

#[test]
fn jump_offset_adds_v0() {
    let mut machine = machine_running(&[0x60ff, 0xbfff]);
    run(&mut machine, 2);
    assert_eq!(machine.registers().pc, 0xfff + 0xff);
    let keypad = Keypad::new();
    assert_eq!(machine.step(0, &keypad), Err(Fault::ProgramCounter));
    assert_eq!(machine.registers().pc, 0xfff + 0xff);
}

#[test]
fn call_then_return_comes_back() {
    let mut machine = machine_running(&[0x2206, 0x6105, 0x0000, 0x00ee]);
    run(&mut machine, 1);
    assert_eq!(machine.registers().pc, 0x206);
    assert_eq!(machine.registers().sp, 1);
    assert_eq!(machine.stack_at(0), Some(0x202));
    run(&mut machine, 1);
    assert_eq!(machine.registers().pc, 0x202);
    assert_eq!(machine.registers().sp, 0);
    run(&mut machine, 1);
    assert_eq!(v(&machine, 1), 5);
}

#[test]
fn nested_calls_return_in_reverse_order() {
    let mut machine = machine_running(&[0x2204, 0x1202, 0x2208, 0x00ee, 0x00ee]);
    run(&mut machine, 2);
    assert_eq!(machine.registers().pc, 0x208);
    assert_eq!(machine.registers().sp, 2);
    run(&mut machine, 1);
    assert_eq!(machine.registers().pc, 0x206);
    assert_eq!(machine.registers().sp, 1);
    run(&mut machine, 1);
    assert_eq!(machine.registers().pc, 0x202);
    assert_eq!(machine.registers().sp, 0);
}

#[test]
fn return_on_empty_stack_reads_slot_zero() {
    let mut machine = machine_running(&[0x00ee]);
    run(&mut machine, 1);
    assert_eq!(machine.registers().pc, 0);
    assert_eq!(machine.registers().sp, 0);
}

#[test]
fn sixteen_nested_calls_fill_the_stack() {
    let mut machine = machine_running(&[0x2200]);
    for depth in 1..=16u8 {
        run(&mut machine, 1);
        assert_eq!(machine.registers().sp, depth);
        assert_eq!(machine.stack_at(depth - 1), Some(0x202));
        assert_eq!(machine.registers().pc, 0x200);
    }
    assert_eq!(machine.stack_at(16), None);
}

#[test]
fn call_on_a_full_stack_is_a_fault() {
    let keypad = Keypad::new();
    let mut machine = machine_running(&[0x2200]);
    run(&mut machine, 16);
    assert_eq!(machine.step(0, &keypad), Err(Fault::Stack));
    assert_eq!(machine.cycle(&keypad), Err(Fault::Stack));
    assert_eq!(machine.registers().sp, 16);
    assert_eq!(machine.registers().pc, 0x200);
    for slot in 0..16u8 {
        assert_eq!(machine.stack_at(slot), Some(0x202));
    }
}

fn chain_of_calls(length: u16) -> Vec<u16> {
    (0..length).map(|k| 0x2000 | (0x202 + 2 * k)).collect()
}

#[test]
fn call_then_return_at_every_depth_up_to_fifteen() {
    for depth in 0..15u16 {
        let mut program = chain_of_calls(depth);
        let call_at = 0x200 + 2 * depth;
        program.push(0x2000 | (call_at + 4));
        program.push(0x0000);
        program.push(0x00ee);
        let mut machine = machine_running(&program);
        run(&mut machine, depth as usize);
        assert_eq!(machine.registers().sp, depth as u8);
        assert_eq!(machine.registers().pc, call_at);
        run(&mut machine, 1);
        assert_eq!(machine.registers().sp, depth as u8 + 1);
        assert_eq!(machine.registers().pc, call_at + 4);
        assert_eq!(machine.stack_at(depth as u8), Some(call_at + 2));
        run(&mut machine, 1);
        assert_eq!(machine.registers().pc, call_at + 2);
        assert_eq!(machine.registers().sp, depth as u8);
    }
}

#[test]
fn return_on_a_full_stack_reads_slot_zero_and_keeps_the_pointer() {
    let keypad = Keypad::new();
    let mut program = chain_of_calls(16);
    program.push(0x00ee);
    let mut machine = machine_running(&program);
    run(&mut machine, 16);
    assert_eq!(machine.registers().sp, 16);
    assert_eq!(machine.registers().pc, 0x220);
    assert_eq!(machine.stack_at(0), Some(0x202));
    assert_eq!(machine.stack_at(15), Some(0x220));
    run(&mut machine, 1);
    assert_eq!(machine.registers().pc, 0x202);
    assert_eq!(machine.registers().sp, 16);
    assert_eq!(machine.step(0, &keypad), Err(Fault::Stack));
}

#[test]
fn load_index_and_add_index() {
    let mut machine = machine_running(&[0xa123, 0x6110, 0xf11e]);
    run(&mut machine, 3);
    assert_eq!(machine.registers().i, 0x133);
    assert_eq!(machine.registers().pc, 0x206);
}

#[test]
fn add_index_wraps_in_sixteen_bits() {
    let mut program = vec![0xafffu16, 0x61ff];
    for _ in 0..241 {
        program.push(0xf11e);
    }
    let mut machine = machine_running(&program);
    run(&mut machine, 2 + 240);
    assert_eq!(machine.registers().i, 0x0fff + 240 * 255);
    run(&mut machine, 1);
    assert_eq!(machine.registers().i, 0x000e);
}

#[test]
fn font_address_points_at_the_digit_sprite() {
    let mut machine = machine_running(&[0x610a, 0xf129, 0x6210, 0xf229]);
    run(&mut machine, 2);
    assert_eq!(machine.registers().i, 50);
    assert_eq!(machine.memory_at(50), Some(0xf0));
    assert_eq!(machine.memory_at(51), Some(0x90));
    assert_eq!(machine.memory_at(52), Some(0xf0));
    assert_eq!(machine.memory_at(53), Some(0x90));
    assert_eq!(machine.memory_at(54), Some(0x90));
    run(&mut machine, 2);
    assert_eq!(machine.registers().i, 50);
    assert_eq!(machine.registers().pc, 0x208);
}

#[test]
fn font_is_in_place_at_start() {
    let machine = Interpreter::new();
    assert_eq!(machine.memory_at(0), Some(0xf0));
    assert_eq!(machine.memory_at(4), Some(0xf0));
    assert_eq!(machine.memory_at(5), Some(0x20));
    assert_eq!(machine.memory_at(78), Some(0x80));
    assert_eq!(machine.memory_at(79), Some(0x80));
    assert_eq!(machine.memory_at(80), Some(0));
    assert_eq!(machine.memory_at(4095), Some(0));
    assert_eq!(machine.memory_at(4096), None);
    assert_eq!(machine.registers().pc, 0);
    assert!(machine.video().is_dirty());
}

#[test]
fn store_and_load_registers() {
    let mut machine = machine_running(&[
        0x6011, 0x6122, 0x6233, 0x6344, 0xa400, 0xf255, 0x6000, 0x6100, 0x6200, 0x6300, 0xf165,
    ]);
    run(&mut machine, 6);
    assert_eq!(machine.memory_at(0x400), Some(0x11));
    assert_eq!(machine.memory_at(0x401), Some(0x22));
    assert_eq!(machine.memory_at(0x402), Some(0x33));
    assert_eq!(machine.memory_at(0x403), Some(0));
    assert_eq!(machine.registers().i, 0x400);
    run(&mut machine, 5);
    assert_eq!(v(&machine, 0), 0x11);
    assert_eq!(v(&machine, 1), 0x22);
    assert_eq!(v(&machine, 2), 0);
    assert_eq!(v(&machine, 3), 0);
    assert_eq!(machine.registers().i, 0x400);
}

#[test]
fn store_all_sixteen_registers() {
    let mut program: Vec<u16> = (0..16u16).map(|x| 0x6000 | (x << 8) | (0x10 + x)).collect();
    program.push(0xa500);
    program.push(0xff55);
    let mut machine = machine_running(&program);
    run(&mut machine, 18);
    for k in 0..16u16 {
        assert_eq!(machine.memory_at(0x500 + k), Some(0x10 + k as u8));
    }
    assert_eq!(machine.memory_at(0x510), Some(0));
}

#[test]
fn draw_instruction_blits_font_sprite_and_reports_collision() {
    let mut machine = machine_running(&[0x6103, 0x6204, 0xa005, 0xd125, 0xd125]);
    run(&mut machine, 4);
    assert_eq!(v(&machine, 0xf), 0);
    assert_eq!(machine.video().pixel(5, 4), Some(true));
    assert_eq!(machine.video().pixel(4, 5), Some(true));
    assert_eq!(machine.video().pixel(5, 5), Some(true));
    assert_eq!(machine.video().pixel(5, 8), Some(true));
    assert_eq!(lit_count(&machine), 8);
    assert_eq!(machine.registers().pc, 0x208);
    run(&mut machine, 1);
    assert_eq!(v(&machine, 0xf), 1);
    assert_eq!(lit_count(&machine), 0);
}

#[test]
fn draw_beyond_memory_is_a_fault() {
    let mut machine = machine_running(&[0xaffe, 0xd003]);
    run(&mut machine, 1);
    let keypad = Keypad::new();
    assert_eq!(machine.step(0, &keypad), Err(Fault::Address));
    assert_eq!(machine.registers().pc, 0x202);
    assert_eq!(lit_count(&machine), 0);
}

#[test]
fn draw_up_to_the_last_byte_is_carried_out() {
    let mut machine = machine_running(&[0xaffe, 0xd002]);
    run(&mut machine, 2);
    assert_eq!(machine.registers().pc, 0x204);
}

#[test]
fn store_beyond_memory_is_a_fault() {
    let keypad = Keypad::new();
    let mut machine = machine_running(&[0xaffe, 0xf033]);
    run(&mut machine, 1);
    assert_eq!(machine.step(0, &keypad), Err(Fault::Address));
    assert_eq!(machine.memory_at(0xffe), Some(0));
    let mut machine = machine_running(&[0xafff, 0xf155]);
    run(&mut machine, 1);
    assert_eq!(machine.step(0, &keypad), Err(Fault::Address));
    let mut machine = machine_running(&[0xafff, 0xf165]);
    run(&mut machine, 1);
    assert_eq!(machine.step(0, &keypad), Err(Fault::Address));
    let mut machine = machine_running(&[0xafff, 0xf055, 0xf065]);
    run(&mut machine, 3);
    assert_eq!(machine.registers().pc, 0x206);
}

#[test]
fn fetch_beyond_memory_is_a_fault() {
    let keypad = Keypad::new();
    let mut machine = machine_running(&[0x1fff]);
    run(&mut machine, 1);
    assert_eq!(machine.fetch(), None);
    assert_eq!(machine.step(0, &keypad), Err(Fault::ProgramCounter));
    assert_eq!(machine.cycle(&keypad), Err(Fault::ProgramCounter));
    assert_eq!(machine.registers().pc, 0xfff);
    let mut machine = machine_running(&[0x1ffe]);
    run(&mut machine, 1);
    assert_eq!(machine.fetch(), Some(0));
    assert_eq!(machine.step(0, &keypad), Ok(Step::Done));
    assert_eq!(machine.registers().pc, 0x1000);
}

#[test]
fn fetch_is_big_endian() {
    let machine = machine_running(&[0x12ab]);
    assert_eq!(machine.fetch(), Some(0x12ab));
    assert_eq!(machine.memory_at(0x200), Some(0x12));
    assert_eq!(machine.memory_at(0x201), Some(0xab));
}

#[test]
fn skip_if_key_held() {
    let mut machine = machine_running(&[0x6105, 0xe19e, 0x0000, 0xe19e]);
    run(&mut machine, 1);
    let mut keypad = Keypad::new();
    keypad.press(5);
    assert_eq!(machine.step(0, &keypad), Ok(Step::Done));
    assert_eq!(machine.registers().pc, 0x206);
    keypad.release(5);
    keypad.press(6);
    assert_eq!(machine.step(0, &keypad), Ok(Step::Done));
    assert_eq!(machine.registers().pc, 0x208);
}

#[test]
fn skip_if_key_not_held() {
    let mut machine = machine_running(&[0x6105, 0xe1a1, 0x0000, 0xe1a1]);
    run(&mut machine, 1);
    let mut keypad = Keypad::new();
    assert_eq!(machine.step(0, &keypad), Ok(Step::Done));
    assert_eq!(machine.registers().pc, 0x206);
    keypad.press(5);
    assert_eq!(machine.step(0, &keypad), Ok(Step::Done));
    assert_eq!(machine.registers().pc, 0x208);
}

#[test]
fn key_beyond_fifteen_is_never_held() {
    let mut keypad = Keypad::new();
    for s in 0..16u8 {
        keypad.press(s);
    }
    let mut machine = machine_running(&[0x6110, 0xe19e, 0xe1a1]);
    run(&mut machine, 1);
    assert_eq!(machine.step(0, &keypad), Ok(Step::Done));
    assert_eq!(machine.registers().pc, 0x204);
    assert_eq!(machine.step(0, &keypad), Ok(Step::Done));
    assert_eq!(machine.registers().pc, 0x208);
}

#[test]
fn random_instruction_masks_the_byte() {
    let keypad = Keypad::new();
    let mut machine = machine_running(&[0xc10f, 0xc2ff]);
    assert_eq!(machine.step(0xa5, &keypad), Ok(Step::Done));
    assert_eq!(v(&machine, 1), 0x05);
    assert_eq!(machine.step(0xa5, &keypad), Ok(Step::Done));
    assert_eq!(v(&machine, 2), 0xa5);
    assert_eq!(machine.registers().pc, 0x204);
}

#[test]
fn cycle_draws_a_random_byte_below_255() {
    let keypad = Keypad::new();
    let mut machine = machine_running(&[0xc1ff, 0x1200]);
    let mut seen = [false; 256];
    for _ in 0..4000 {
        assert_eq!(machine.cycle(&keypad), Ok(Step::Done));
        seen[v(&machine, 1) as usize] = true;
        assert_eq!(machine.cycle(&keypad), Ok(Step::Done));
    }
    assert!(!seen[255]);
    assert!(seen.iter().filter(|s| **s).count() > 100);
}

#[test]
fn cycle_random_respects_the_mask() {
    let keypad = Keypad::new();
    let mut machine = machine_running(&[0xc103, 0x1200]);
    for _ in 0..200 {
        assert_eq!(machine.cycle(&keypad), Ok(Step::Done));
        assert!(v(&machine, 1) <= 3);
        assert_eq!(machine.cycle(&keypad), Ok(Step::Done));
    }
}

#[test]
fn timers_are_set_and_read() {
    let mut machine = machine_running(&[0x6109, 0xf115, 0x6107, 0xf118, 0xf207]);
    run(&mut machine, 5);
    assert_eq!(machine.delay_timer(), 9);
    assert_eq!(machine.sound_timer(), 7);
    assert_eq!(v(&machine, 2), 9);
}

#[test]
fn wait_key_suspends_until_a_key_symbol_arrives() {
    let keypad = Keypad::new();
    let mut machine = machine_running(&[0xf30a]);
    assert_eq!(machine.step(0, &keypad), Ok(Step::AwaitKey { register: 3 }));
    assert_eq!(machine.registers().pc, 0x202);
    assert_eq!(machine.key_event(3, Event::Other), KeyWait::Pending);
    let other = Event::KeyDown { key: Key::Other, lshift: false, rshift: false };
    assert_eq!(machine.key_event(3, other), KeyWait::Pending);
    let plain_r = Event::KeyDown { key: Key::R, lshift: false, rshift: false };
    assert_eq!(machine.key_event(3, plain_r), KeyWait::Pending);
    assert_eq!(v(&machine, 3), 0);
    assert_eq!(machine.registers().pc, 0x202);
    let key = Event::KeyDown { key: Key::Kp7, lshift: true, rshift: false };
    assert_eq!(machine.key_event(3, key), KeyWait::Stored);
    assert_eq!(v(&machine, 3), 7);
    assert_eq!(machine.registers().pc, 0x202);
}

#[test]
fn wait_key_stores_each_symbol() {
    let keys = [
        (Key::Num0, 0u8), (Key::Num9, 9), (Key::Kp4, 4), (Key::A, 0xa), (Key::B, 0xb),
        (Key::C, 0xc), (Key::D, 0xd), (Key::E, 0xe), (Key::F, 0xf),
    ];
    for (key, value) in keys {
        let mut machine = machine_running(&[0xf00a]);
        run_wait(&mut machine);
        let event = Event::KeyDown { key, lshift: false, rshift: false };
        assert_eq!(machine.key_event(0, event), KeyWait::Stored);
        assert_eq!(v(&machine, 0), value);
    }
}

fn run_wait(machine: &mut Interpreter) {
    let keypad = Keypad::new();
    assert_eq!(machine.step(0, &keypad), Ok(Step::AwaitKey { register: 0 }));
}

#[test]
fn wait_key_is_cancelled_by_the_restart_chord() {
    let keypad = Keypad::new();
    let mut machine = machine_running(&[0x6005, 0xa005, 0xd005, 0xf10a]);
    run(&mut machine, 3);
    assert!(lit_count(&machine) > 0);
    assert_eq!(machine.step(0, &keypad), Ok(Step::AwaitKey { register: 1 }));
    let chord = Event::KeyDown { key: Key::R, lshift: false, rshift: true };
    assert_eq!(machine.key_event(1, chord), KeyWait::Restarted);
    assert_eq!(machine.registers().pc, 0);
    assert_eq!(lit_count(&machine), 0);
    assert_eq!(v(&machine, 0), 5);
    assert_eq!(v(&machine, 1), 0);
}

#[test]
fn wait_key_hands_on_a_quit() {
    let mut machine = machine_running(&[0xf00a]);
    run_wait(&mut machine);
    assert_eq!(machine.key_event(0, Event::Quit), KeyWait::Quit);
    assert_eq!(machine.registers().pc, 0x202);
    assert_eq!(v(&machine, 0), 0);
}

#[test]
fn restart_resets_program_counter_and_display_only() {
    let mut machine = machine_running(&[0x6005, 0xa005, 0xd005, 0x6f09, 0xf015, 0x2300]);
    run(&mut machine, 6);
    let _ = machine.render_screen();
    machine.restart();
    assert_eq!(machine.registers().pc, 0);
    assert_eq!(lit_count(&machine), 0);
    assert!(machine.video().is_dirty());
    assert_eq!(v(&machine, 0), 5);
    assert_eq!(v(&machine, 0xf), 9);
    assert_eq!(machine.registers().i, 5);
    assert_eq!(machine.registers().sp, 1);
    assert_eq!(machine.delay_timer(), 5);
    assert_eq!(machine.memory_at(0x200), Some(0x60));
    assert_eq!(machine.stack_at(0), Some(0x20c));
}
