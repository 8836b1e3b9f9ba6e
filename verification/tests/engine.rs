use chip8::machine::Chip8;
use chip8::prng::rand;
use chip8::screen::Screen;
use chip8::state::{Fault, Outcome};

#[derive(Debug, Clone, Copy, PartialEq, Eq)]
enum Drawn {
    Clear,
    On(i32, i32),
    Off(i32, i32),
    Present,
}

#[derive(Default)]
struct Recorder {
    calls: Vec<Drawn>,
}

impl Screen for Recorder {
    fn clear(&mut self) {
        self.calls.push(Drawn::Clear);
    }

    fn draw_px(&mut self, x: i32, y: i32) {
        self.calls.push(Drawn::On(x, y));
    }

    fn clear_px(&mut self, x: i32, y: i32) {
        self.calls.push(Drawn::Off(x, y));
    }

    fn present(&mut self) {
        self.calls.push(Drawn::Present);
    }
}

fn machine(rom: &[u8]) -> Chip8<Recorder> {
    let mut m = Chip8::new(Recorder::default(), 1);
    assert_eq!(m.load_rom(rom), Ok(()));
    m
}

fn run(m: &mut Chip8<Recorder>, steps: usize) {
    for _ in 0..steps {
        assert_eq!(m.emulate_op(), Ok(Outcome::Next));
    }
}

#[test]
fn new_machine_is_zeroed() {
    let m = Chip8::new(Recorder::default(), 7);
    assert_eq!(m.registers(), &[0u8; 16]);
    assert_eq!(m.address_register(), 0);
    assert_eq!(m.stack_pointer(), 0xf00);
    assert_eq!(m.program_counter(), 0x200);
    assert_eq!(m.used_memory(), 0);
    assert!(m.memory().iter().all(|b| *b == 0));
    assert!(m.screen().calls.is_empty());
}

#[test]
fn load_rom_copies_to_program_space() {
    let m = machine(&[1, 2, 3]);
    assert_eq!(m.used_memory(), 3);
    assert_eq!(&m.memory()[0x200..0x204], &[1, 2, 3, 0]);
    assert_eq!(m.memory()[0x1ff], 0);
}

#[test]
fn load_rom_accepts_a_full_program_space() {
    let rom = vec![0xaa; 0x1000 - 0x200];
    let m = machine(&rom);
    assert_eq!(m.used_memory(), 0xe00);
    assert_eq!(m.memory()[0xfff], 0xaa);
    assert_eq!(m.memory()[0x1ff], 0);
}

#[test]
fn load_rom_refuses_what_does_not_fit() {
    let rom = vec![0xaa; 0x1000 - 0x200 + 1];
    let mut m = Chip8::new(Recorder::default(), 1);
    assert_eq!(m.load_rom(&rom), Err(Fault::OutOfRange { address: 0x1000 }));
    assert_eq!(m.used_memory(), 0);
    assert!(m.memory().iter().all(|b| *b == 0));
}

#[test]
fn load_then_add_immediate() {
    let mut m = machine(&[0x60, 0x05, 0x70, 0x03]);
    run(&mut m, 2);
    assert_eq!(m.registers()[0], 8);
    assert_eq!(m.program_counter(), 0x204);
}

#[test]
fn add_immediate_wraps_without_flag() {
    let mut m = machine(&[0x60, 0xff, 0x70, 0x02]);
    run(&mut m, 2);
    assert_eq!(m.registers()[0], 1);
    assert_eq!(m.registers()[15], 0);
}

#[test]
fn self_jump_halts() {
    let mut m = machine(&[0x12, 0x00]);
    assert_eq!(m.emulate_op(), Ok(Outcome::Halt));
    assert_eq!(m.program_counter(), 0x200);
    assert_eq!(m.emulate_op(), Ok(Outcome::Halt));
}

#[test]
fn jump_sets_the_program_counter() {
    let mut m = machine(&[0x1a, 0xbc]);
    run(&mut m, 1);
    assert_eq!(m.program_counter(), 0xabc);
}

#[test]
fn add_with_carry() {
    // V0 = 200, V1 = 100, V0 += V1
    let mut m = machine(&[0x60, 200, 0x61, 100, 0x80, 0x14]);
    run(&mut m, 3);
    assert_eq!(m.registers()[0], 44);
    assert_eq!(m.registers()[15], 1);
    // V0 = 44, V1 = 100, V0 += V1
    let mut m = machine(&[0x60, 44, 0x61, 100, 0x80, 0x14]);
    run(&mut m, 3);
    assert_eq!(m.registers()[0], 144);
    assert_eq!(m.registers()[15], 0);
}

#[test]
fn add_with_carry_into_the_flag_register_keeps_the_flag() {
    let mut m = machine(&[0x6f, 200, 0x61, 100, 0x8f, 0x14]);
    run(&mut m, 3);
    assert_eq!(m.registers()[15], 1);
}

#[test]
fn subtract_with_borrow() {
    let mut m = machine(&[0x60, 5, 0x61, 7, 0x80, 0x15]);
    run(&mut m, 3);
    assert_eq!(m.registers()[0], 254);
    assert_eq!(m.registers()[15], 0);
    let mut m = machine(&[0x60, 7, 0x61, 5, 0x80, 0x15]);
    run(&mut m, 3);
    assert_eq!(m.registers()[0], 2);
    assert_eq!(m.registers()[15], 1);
    let mut m = machine(&[0x60, 7, 0x61, 7, 0x80, 0x15]);
    run(&mut m, 3);
    assert_eq!(m.registers()[0], 0);
    assert_eq!(m.registers()[15], 1);
}

#[test]
fn reverse_subtract() {
    let mut m = machine(&[0x60, 5, 0x61, 7, 0x80, 0x17]);
    run(&mut m, 3);
    assert_eq!(m.registers()[0], 2);
    assert_eq!(m.registers()[1], 7);
    assert_eq!(m.registers()[15], 1);
    let mut m = machine(&[0x60, 7, 0x61, 5, 0x80, 0x17]);
    run(&mut m, 3);
    assert_eq!(m.registers()[0], 254);
    assert_eq!(m.registers()[15], 0);
}

#[test]
fn shift_right_keeps_bit_zero() {
    let mut m = machine(&[0x60, 0x05, 0x80, 0x06]);
    run(&mut m, 2);
    assert_eq!(m.registers()[0], 0x02);
    assert_eq!(m.registers()[15], 1);
    let mut m = machine(&[0x60, 0x84, 0x80, 0x06]);
    run(&mut m, 2);
    assert_eq!(m.registers()[0], 0x42);
    assert_eq!(m.registers()[15], 0);
}

#[test]
fn shift_left_keeps_bit_seven() {
    let mut m = machine(&[0x60, 0x81, 0x80, 0x0e]);
    run(&mut m, 2);
    assert_eq!(m.registers()[0], 0x02);
    assert_eq!(m.registers()[15], 1);
    let mut m = machine(&[0x60, 0x41, 0x80, 0x0e]);
    run(&mut m, 2);
    assert_eq!(m.registers()[0], 0x82);
    assert_eq!(m.registers()[15], 0);
}

#[test]
fn bitwise_family() {
    let mut m = machine(&[0x60, 0x0c, 0x61, 0x0a, 0x82, 0x00, 0x82, 0x11, 0x83, 0x00, 0x83, 0x12,
        0x84, 0x00, 0x84, 0x13]);
    run(&mut m, 8);
    assert_eq!(m.registers()[2], 0x0e);
    assert_eq!(m.registers()[3], 0x08);
    assert_eq!(m.registers()[4], 0x06);
    assert_eq!(m.registers()[15], 0);
}

#[test]
fn skip_if_equal_immediate() {
    let mut m = machine(&[0x60, 0x05, 0x30, 0x05]);
    run(&mut m, 2);
    assert_eq!(m.program_counter(), 0x206);
    let mut m = machine(&[0x60, 0x05, 0x30, 0x06]);
    run(&mut m, 2);
    assert_eq!(m.program_counter(), 0x204);
}

#[test]
fn skip_if_not_equal_immediate() {
    let mut m = machine(&[0x60, 0x05, 0x40, 0x06]);
    run(&mut m, 2);
    assert_eq!(m.program_counter(), 0x206);
    let mut m = machine(&[0x60, 0x05, 0x40, 0x05]);
    run(&mut m, 2);
    assert_eq!(m.program_counter(), 0x204);
}

#[test]
fn skip_if_registers_equal() {
    let mut m = machine(&[0x60, 0x05, 0x61, 0x05, 0x50, 0x10]);
    run(&mut m, 3);
    assert_eq!(m.program_counter(), 0x208);
    let mut m = machine(&[0x60, 0x05, 0x61, 0x04, 0x50, 0x10]);
    run(&mut m, 3);
    assert_eq!(m.program_counter(), 0x206);
}

#[test]
fn call_then_return() {
    // 0x200: call 0x206; 0x206: ret
    let mut m = machine(&[0x22, 0x06, 0x00, 0x00, 0x00, 0x00, 0x00, 0xee]);
    run(&mut m, 1);
    assert_eq!(m.program_counter(), 0x206);
    assert_eq!(m.stack_pointer(), 0xefe);
    assert_eq!(m.memory()[0xefe], 0x02);
    assert_eq!(m.memory()[0xeff], 0x02);
    run(&mut m, 1);
    assert_eq!(m.program_counter(), 0x202);
    assert_eq!(m.stack_pointer(), 0xf00);
}

#[test]
fn return_past_the_end_of_memory_faults() {
    // each return pops zero and lands on the return at address 0
    let mut m = machine(&[0x00, 0xee]);
    run(&mut m, 1);
    assert_eq!(m.program_counter(), 0);
    assert_eq!(m.stack_pointer(), 0xf02);
    assert_eq!(
        m.emulate_op(),
        Err(Fault::Unimplemented { pc: 0, hi: 0, lo: 0 })
    );
    assert_eq!(m.program_counter(), 0);
    assert_eq!(m.stack_pointer(), 0xf02);
}

#[test]
fn unimplemented_instruction_reports_bytes_and_address() {
    let mut m = machine(&[0x60, 0x01, 0xe1, 0x9e]);
    run(&mut m, 1);
    assert_eq!(
        m.emulate_op(),
        Err(Fault::Unimplemented { pc: 0x202, hi: 0xe1, lo: 0x9e })
    );
    assert_eq!(m.program_counter(), 0x202);
    assert_eq!(m.registers()[0], 1);
}

#[test]
fn fetch_outside_memory_faults() {
    // jump to 0xfff: the second byte of the instruction is outside memory
    let mut m = machine(&[0x1f, 0xff]);
    run(&mut m, 1);
    assert_eq!(m.emulate_op(), Err(Fault::OutOfRange { address: 0x1000 }));
    assert_eq!(m.program_counter(), 0xfff);
}

#[test]
fn set_and_add_address_register() {
    let mut m = machine(&[0xa1, 0x23, 0x60, 0xff, 0xf0, 0x1e]);
    run(&mut m, 3);
    assert_eq!(m.address_register(), 0x123 + 0xff);
    assert_eq!(m.registers()[15], 0);
}

#[test]
fn random_masks_the_next_value() {
    let mut m = machine(&[0xc0, 0xff, 0xc1, 0x0f]);
    run(&mut m, 2);
    let first = rand(1);
    let second = rand(first);
    assert_eq!(m.registers()[0], first as u8);
    assert_eq!(m.registers()[0], 0x41);
    assert_eq!(m.registers()[1], (second as u8) & 0x0f);
}

#[test]
fn store_block_then_load_block() {
    // V0..V2 = 1, 2, 3; I = 0x300; store V0..V2; clear them; I = 0x300; load
    let mut m = machine(&[
        0x60, 1, 0x61, 2, 0x62, 3, 0x63, 9, 0xa3, 0x00, 0xf2, 0x55, 0x60, 0, 0x61, 0, 0x62, 0,
        0xa3, 0x00, 0xf2, 0x65,
    ]);
    run(&mut m, 6);
    assert_eq!(&m.memory()[0x300..0x304], &[1, 2, 3, 0]);
    assert_eq!(m.address_register(), 0x303);
    run(&mut m, 5);
    assert_eq!(&m.registers()[0..4], &[1, 2, 3, 9]);
    assert_eq!(m.address_register(), 0x303);
}

#[test]
fn store_block_outside_memory_faults() {
    // I = 0xfff, store V0..V1
    let mut m = machine(&[0xaf, 0xff, 0x60, 7, 0xf1, 0x55]);
    run(&mut m, 2);
    assert_eq!(m.emulate_op(), Err(Fault::OutOfRange { address: 0x1000 }));
    assert_eq!(m.memory()[0xfff], 0);
    assert_eq!(m.address_register(), 0xfff);
    assert_eq!(m.program_counter(), 0x204);
}

#[test]
fn clear_display_zeroes_the_framebuffer() {
    // draw one pixel, then clear
    let mut m = machine(&[0xa2, 0x06, 0xd0, 0x01, 0x00, 0xe0, 0x80]);
    run(&mut m, 2);
    assert_eq!(m.memory()[0xf00], 1);
    run(&mut m, 1);
    assert!(m.memory()[0xf00..].iter().all(|b| *b == 0));
    assert_eq!(m.memory()[0x206], 0x80);
    assert_eq!(m.program_counter(), 0x206);
    let calls = &m.screen().calls;
    assert_eq!(&calls[calls.len() - 2..], &[Drawn::Clear, Drawn::Present]);
}

#[test]
fn draw_twice_restores_and_collides() {
    // I = 0x20a; V0 = 3; V1 = 2; draw one row of 0x81 at (3, 2), twice
    let mut m = machine(&[0xa2, 0x0a, 0x60, 3, 0x61, 2, 0xd0, 0x11, 0xd0, 0x11, 0x81]);
    run(&mut m, 4);
    assert_eq!(m.memory()[0xf00 + 2 * 8], 0x08);
    assert_eq!(m.memory()[0xf00 + 2 * 8 + 1], 0x04);
    assert_eq!(m.registers()[15], 0);
    assert_eq!(
        m.screen().calls,
        vec![Drawn::On(3, 2), Drawn::On(10, 2), Drawn::Present]
    );
    run(&mut m, 1);
    assert!(m.memory()[0xf00..].iter().all(|b| *b == 0));
    assert_eq!(m.registers()[15], 1);
    assert_eq!(
        &m.screen().calls[3..],
        &[Drawn::Off(3, 2), Drawn::Off(10, 2), Drawn::Present]
    );
    assert_eq!(m.program_counter(), 0x20a);
}

#[test]
fn draw_below_the_screen_draws_nothing() {
    // VF = 7; V1 = 32; I = 0x20a; draw two rows at (0, 32)
    let mut m = machine(&[0x6f, 7, 0x61, 32, 0xa2, 0x0a, 0xd0, 0x12, 0x00, 0x00, 0xff, 0xff]);
    run(&mut m, 4);
    assert!(m.memory()[0xf00..].iter().all(|b| *b == 0));
    assert_eq!(m.registers()[15], 7);
    assert_eq!(m.screen().calls, vec![Drawn::Present]);
    assert_eq!(m.program_counter(), 0x208);
}

#[test]
fn draw_below_the_screen_reads_no_sprite_row() {
    // the address register points outside memory, but no row is read
    let mut m = machine(&[0x61, 40, 0xaf, 0xff, 0x60, 0xff, 0xf0, 0x1e, 0xd0, 0x1f]);
    run(&mut m, 5);
    assert_eq!(m.address_register(), 0x10fe);
    assert_eq!(m.program_counter(), 0x20a);
}

#[test]
fn draw_from_outside_memory_faults() {
    let mut m = machine(&[0xaf, 0xff, 0x60, 0xff, 0xf0, 0x1e, 0xd1, 0x11]);
    run(&mut m, 3);
    assert_eq!(m.emulate_op(), Err(Fault::OutOfRange { address: 0x10fe }));
    assert_eq!(m.program_counter(), 0x206);
    // two rows from the last byte of memory: the second is outside
    let mut m = machine(&[0xaf, 0xff, 0xd1, 0x12]);
    run(&mut m, 1);
    assert_eq!(m.emulate_op(), Err(Fault::OutOfRange { address: 0x1000 }));
    assert!(m.screen().calls.is_empty());
}

#[test]
fn draw_clips_at_the_right_edge() {
    let mut m = machine(&[0xa2, 0x06, 0x60, 60, 0xd0, 0x11, 0xff]);
    run(&mut m, 3);
    assert_eq!(m.memory()[0xf07], 0xf0);
    assert_eq!(m.memory()[0xf08], 0x00);
    assert_eq!(
        m.screen().calls,
        vec![
            Drawn::On(60, 0),
            Drawn::On(61, 0),
            Drawn::On(62, 0),
            Drawn::On(63, 0),
            Drawn::Present
        ]
    );
}

#[test]
fn draw_stops_at_the_bottom_edge() {
    let mut m = machine(&[0xa2, 0x06, 0x61, 31, 0xd0, 0x13, 0x80, 0x80, 0x80]);
    run(&mut m, 3);
    assert_eq!(m.memory()[0xf00 + 31 * 8], 0x01);
    assert_eq!(m.memory().iter().filter(|b| **b != 0).count(), 9 + 1);
    assert_eq!(m.screen().calls, vec![Drawn::On(0, 31), Drawn::Present]);
}

#[test]
fn op_draw_at_given_coordinates() {
    let mut m = machine(&[0xa2, 0x02, 0xc0, 0x03]);
    run(&mut m, 1);
    assert_eq!(m.op_draw(8, 1, 2), Ok(()));
    // rows 0xc0 and 0x03 at (8, 1) and (8, 2)
    assert_eq!(m.memory()[0xf00 + 8 + 1], 0x03);
    assert_eq!(m.memory()[0xf00 + 16 + 1], 0xc0);
    assert_eq!(m.registers()[15], 0);
    assert_eq!(m.program_counter(), 0x202);
    assert_eq!(m.op_draw(1000, 1, 2), Ok(()));
    assert_eq!(m.memory()[0xf00 + 8 + 1], 0x03);
}

#[test]
fn op_disp_clear_tells_the_screen() {
    let mut m = machine(&[]);
    m.op_disp_clear();
    assert_eq!(m.screen().calls, vec![Drawn::Clear, Drawn::Present]);
}

#[test]
fn dump_registers_lists_everything_in_hexadecimal() {
    let mut m = machine(&[0x6a, 0xbc, 0xa0, 0x05]);
    run(&mut m, 2);
    assert_eq!(
        m.dump_registers(),
        "REGISTERS:\nV = [0:00 1:00 2:00 3:00 4:00 5:00 6:00 7:00 8:00 9:00 a:bc b:00 c:00 d:00 \
         e:00 f:00 ]\nI  = 05\nSP = f00\nPC = 204\n"
    );
    assert_eq!(
        m.dump_registers(),
        format!(
            "REGISTERS:\nV = [{}]\nI  = {:02x?}\nSP = {:02x?}\nPC = {:02x?}\n",
            (0..16).map(|i| format!("{:01x}:{:02x} ", i, m.registers()[i])).collect::<String>(),
            m.address_register(),
            m.stack_pointer(),
            m.program_counter()
        )
    );
}

#[test]
fn dump_registers_with_wide_values() {
    // I = 0xfff + 0xff = 0x10fe
    let mut m = machine(&[0xaf, 0xff, 0x60, 0xff, 0xf0, 0x1e]);
    run(&mut m, 3);
    assert!(m.dump_registers().contains("\nI  = 10fe\n"));
    assert!(m.dump_registers().contains("[0:ff 1:00 "));
}

#[test]
fn dump_memory_lists_the_program() {
    let m = machine(&[0x60, 0x05, 0x70, 0x03]);
    assert_eq!(
        m.dump_memory(),
        "0200:\t60 05\tmov\t\tV0, 05\n0202:\t70 03\tadd\t\tV0, 03\n"
    );
}

#[test]
fn dump_memory_of_an_odd_program_includes_the_next_byte() {
    let m = machine(&[0x60, 0x05, 0x12]);
    assert_eq!(
        m.dump_memory(),
        "0200:\t60 05\tmov\t\tV0, 05\n0202:\t12 00\tjmp\t\t200\n"
    );
    let m = machine(&[]);
    assert_eq!(m.dump_memory(), "");
}

#[test]
fn call_with_an_exhausted_stack_faults() {
    // write "call 0xffc" at 0xffc and jump there: every call pushes two bytes
    let mut m = machine(&[0x60, 0x2f, 0x61, 0xfc, 0xaf, 0xfc, 0xf1, 0x55, 0x1f, 0xfc]);
    run(&mut m, 5);
    assert_eq!(m.program_counter(), 0xffc);
    assert_eq!(m.stack_pointer(), 0xf00);
    run(&mut m, 0xf00 / 2);
    assert_eq!(m.stack_pointer(), 0);
    assert_eq!(m.memory()[0], 0x0f);
    assert_eq!(m.memory()[1], 0xfe);
    assert_eq!(m.emulate_op(), Err(Fault::OutOfRange { address: 0xfffe }));
    assert_eq!(m.stack_pointer(), 0);
    assert_eq!(m.program_counter(), 0xffc);
}

#[test]
fn return_with_the_stack_pointer_at_the_end_of_memory_faults() {
    // fill 0xf00..0x1000 with the address of the return at 0x242, then return
    let mut rom: Vec<u8> = Vec::new();
    for x in 0..16u8 {
        rom.push(0x60 | x);
        rom.push(if x % 2 == 0 { 0x02 } else { 0x42 });
    }
    rom.extend_from_slice(&[0xaf, 0x00]);
    for _ in 0..16 {
        rom.extend_from_slice(&[0xff, 0x55]);
    }
    rom.extend_from_slice(&[0x00, 0xee]);
    assert_eq!(rom.len(), 0x44);
    let mut m = machine(&rom);
    run(&mut m, 16 + 1 + 16);
    assert_eq!(m.program_counter(), 0x242);
    assert_eq!(m.address_register(), 0x1000);
    run(&mut m, 128);
    assert_eq!(m.program_counter(), 0x242);
    assert_eq!(m.stack_pointer(), 0x1000);
    assert_eq!(m.emulate_op(), Err(Fault::OutOfRange { address: 0x1000 }));
    assert_eq!(m.stack_pointer(), 0x1000);
}

#[test]
fn load_block_outside_memory_faults() {
    let mut m = machine(&[0xaf, 0xf0, 0xff, 0x65, 0xaf, 0xf1, 0xff, 0x65]);
    run(&mut m, 2);
    assert_eq!(m.address_register(), 0x1000);
    run(&mut m, 1);
    assert_eq!(m.emulate_op(), Err(Fault::OutOfRange { address: 0x1000 }));
    assert_eq!(m.address_register(), 0xff1);
}

#[test]
fn block_transfers_include_register_x() {
    // V0 = 1, V1 = 2; I = 0x300; store V0..V1
    let mut m = machine(&[0x60, 1, 0x61, 2, 0xa3, 0x00, 0xf1, 0x55]);
    run(&mut m, 4);
    assert_eq!(&m.memory()[0x300..0x303], &[1, 2, 0]);
    assert_eq!(m.address_register(), 0x302);
    // a single register
    let mut m = machine(&[0x60, 9, 0xa3, 0x00, 0xf0, 0x55]);
    run(&mut m, 3);
    assert_eq!(&m.memory()[0x300..0x302], &[9, 0]);
    assert_eq!(m.address_register(), 0x301);
}

#[test]
fn add_to_address_register_wraps_at_sixteen_bits() {
    // I grows by 0xff per step; the register is sixteen bits wide
    let mut rom = vec![0x60, 0xff, 0xaf, 0xff];
    for _ in 0..241 {
        rom.extend_from_slice(&[0xf0, 0x1e]);
    }
    let mut m = machine(&rom);
    run(&mut m, 2 + 240);
    assert_eq!(m.address_register(), 0xfff + 240 * 0xff);
    run(&mut m, 1);
    assert_eq!(m.address_register(), ((0xfffu32 + 241 * 0xff) % 0x10000) as u16);
    assert_eq!(m.registers()[15], 0);
}

#[test]
fn sprite_rows_are_read_as_their_turn_comes() {
    // the sprite's second row is the framebuffer byte that its first row changes:
    // byte 0xeff holds 0x80, byte 0xf00 is zero until the first row lights (0, 0)
    let mut m = machine(&[0x60, 0x80, 0xae, 0xff, 0xf0, 0x55, 0xae, 0xff, 0xd1, 0x22]);
    run(&mut m, 5);
    assert_eq!(m.memory()[0xeff], 0x80);
    assert_eq!(m.memory()[0xf00], 0x01);
    // the second row was read as 0x01: its last pixel lands on (7, 1)
    assert_eq!(m.memory()[0xf08], 0x80);
    assert_eq!(m.registers()[15], 0);
    assert_eq!(
        m.screen().calls,
        vec![Drawn::On(0, 0), Drawn::On(7, 1), Drawn::Present]
    );
}
