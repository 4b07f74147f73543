use mos6502::cpu::CPU;

#[test]
fn test_0xa9_lda_immidiate_load_data() {
    let mut cpu = CPU::new();
    cpu.load_and_run(vec![0xa9, 0x05, 0x00]).unwrap();
    assert_eq!(cpu.register_a, 0x05);
    assert!(cpu.status & 0b0000_0010 == 0b00);
    assert!(cpu.status & 0b1000_0000 == 0);
}

#[test]
fn test_ldx_immidiate_load_data() {
    let mut cpu = CPU::new();
    cpu.load_and_run(vec![0xa0, 0x05, 0x00]).unwrap();
    assert_eq!(cpu.register_y, 0x05);
    assert!(cpu.status & 0b0000_0010 == 0b00);
    assert!(cpu.status & 0b1000_0000 == 0);
}

#[test]
fn test_ldy_immidiate_load_data() {
    let mut cpu = CPU::new();
    cpu.load_and_run(vec![0xa2, 0x05, 0x00]).unwrap();
    assert_eq!(cpu.register_x, 0x05);
    assert!(cpu.status & 0b0000_0010 == 0b00);
    assert!(cpu.status & 0b1000_0000 == 0);
}

#[test]
fn test_0xa9_lda_zero_flag() {
    let mut cpu = CPU::new();
    cpu.load_and_run(vec![0xa9, 0x00, 0x00]).unwrap();
    assert!(cpu.status & 0b0000_0010 == 0b10);
    println!("{}", cpu.program_counter);
}

#[test]
fn test_5_ops_working_together() {
    let mut cpu = CPU::new();
    cpu.load_and_run(vec![0xa9, 0xc0, 0xaa, 0xe8, 0x00]).unwrap();
    assert_eq!(cpu.register_x, 0xc1)
}

#[test]
fn test_combined_ld_st() {
    let mut cpu = CPU::new();

    cpu.load_and_run(vec![
        0xa0, 0x01, 0xa9, 0x03, 0x85, 0x01, 0xa9, 0x07, 0x85, 0x02, 0xa2, 0x0a, 0x8e, 0x04, 0x07,
        0xb1, 0x01, 0x00,
    ])
    .unwrap();

    assert_eq!(cpu.register_a, 0x0a);
    assert_eq!(cpu.register_y, 0x01);
    assert_eq!(cpu.register_x, 0x0a);
}

#[test]
fn test_0xaa_tax_move_a_to_x() {
    let mut cpu = CPU::new();
    cpu.init(vec![0xaa, 0x00]).unwrap();
    cpu.register_a = 10;
    cpu.run().unwrap();

    assert_eq!(cpu.register_x, 10)
}

#[test]
fn test_txa() {
    let mut cpu = CPU::new();
    cpu.init(vec![0x8a, 0x00]).unwrap();
    cpu.register_x = 10;
    cpu.run().unwrap();

    assert_eq!(cpu.register_a, 10)
}

#[test]
fn test_inx_overflow() {
    let mut cpu = CPU::new();
    cpu.init(vec![0xe8, 0xe8, 0x00]).unwrap();
    cpu.register_x = 0xff;
    cpu.run().unwrap();

    assert_eq!(cpu.register_x, 1)
}

#[test]
fn test_lda_from_memory() {
    let mut cpu = CPU::new();
    cpu.mem_write(0x10, 0x55);

    cpu.load_and_run(vec![0xa5, 0x10, 0x00]).unwrap();

    assert_eq!(cpu.register_a, 0x55);
}

#[test]
fn test_lda_from_memory_x0() {
    let mut cpu = CPU::new();
    cpu.mem_write(0x10, 0x55);

    cpu.load_and_run(vec![0xa5, 0x10, 0x00]).unwrap();

    assert_eq!(cpu.register_a, 0x55);
}

#[test]
fn test_lda_from_memory_x() {
    let mut cpu = CPU::new();
    cpu.mem_write(0x19, 0x55);

    cpu.init(vec![0xb5, 0x10, 0x00]).unwrap();
    cpu.register_x = 9;
    cpu.run().unwrap();

    assert_eq!(cpu.register_a, 0x55);
}

#[test]
fn test_lda_abs() {
    let mut cpu = CPU::new();
    cpu.mem_write(0x10, 0x55);

    cpu.init(vec![0xad, 0x10, 0x00, 0x00]).unwrap();
    cpu.register_x = 9;
    cpu.run().unwrap();

    assert_eq!(cpu.register_a, 0x55);
}

#[test]
fn test_lda_abs_x() {
    let mut cpu = CPU::new();
    cpu.mem_write(0x19, 0x55);

    cpu.init(vec![0xbd, 0x10, 0x00, 0x00]).unwrap();
    cpu.register_x = 9;
    cpu.run().unwrap();

    assert_eq!(cpu.register_a, 0x55);
}

#[test]
fn test_lda_abs_y() {
    let mut cpu = CPU::new();
    cpu.mem_write(0x19, 0x55);

    cpu.init(vec![0xb9, 0x10, 0x00, 0x00]).unwrap();
    cpu.register_y = 9;
    cpu.run().unwrap();

    assert_eq!(cpu.register_a, 0x55);
}

#[test]
fn test_lda_ind_x() {
    let mut cpu = CPU::new();
    cpu.mem_write(0x0A, 0x32);
    cpu.mem_write(0x32, 0xFF);

    cpu.init(vec![0xa1, 0x01, 0x00]).unwrap();
    cpu.register_x = 9;
    cpu.run().unwrap();

    assert_eq!(cpu.register_a, 0xFF);
}

#[test]
fn test_lda_ind_y0() {
    let mut cpu = CPU::new();
    cpu.mem_write(0x00, 0x32);
    cpu.mem_write(0x32, 0xFE);

    cpu.init(vec![0xb1, 0x00, 0x00]).unwrap();
    cpu.run().unwrap();
    let mut dump: Vec<u8> = Vec::new();
    for addr in 0..=63u16 {
        dump.push(cpu.mem_read(addr));
    }
    println!("{:?}", dump);

    assert_eq!(cpu.register_a, 0xFE);
}

#[test]
fn test_lda_ind_y() {
    let mut cpu = CPU::new();
    cpu.mem_write(0x01, 0x03);
    cpu.mem_write(0x02, 0x07);
    cpu.mem_write(0x0704, 0x0a);

    cpu.init(vec![0xb1, 0x01, 0x00]).unwrap();
    cpu.register_y = 0x01;
    cpu.run().unwrap();
    assert_eq!(cpu.register_a, 0x0a);
}

#[test]
fn test_sta_zp() {
    let mut cpu = CPU::new();

    cpu.init(vec![0x85, 0x01, 0x00]).unwrap();
    cpu.register_a = 0xff;
    cpu.run().unwrap();
    assert_eq!(cpu.mem_read(0x01), 0xff);
}

#[test]
fn test_sta_zp_x() {
    let mut cpu = CPU::new();

    cpu.init(vec![0x95, 0x01, 0x00]).unwrap();
    cpu.register_a = 0xff;
    cpu.register_x = 0x01;
    cpu.run().unwrap();
    assert_eq!(cpu.mem_read(0x02), 0xff);
}

#[test]
fn test_stx_abs() {
    let mut cpu = CPU::new();

    cpu.init(vec![0x8e, 0x01, 0x00]).unwrap();
    cpu.register_x = 0xff;
    cpu.run().unwrap();
    assert_eq!(cpu.mem_read(0x01), 0xff);
}

#[test]
fn test_stx_zp() {
    let mut cpu = CPU::new();

    cpu.init(vec![0x86, 0x01, 0x00]).unwrap();
    cpu.register_x = 0xff;
    cpu.run().unwrap();
    assert_eq!(cpu.mem_read(0x01), 0xff);
}

#[test]
fn test_stx_zp_y() {
    let mut cpu = CPU::new();

    cpu.init(vec![0x96, 0x01, 0x00]).unwrap();
    cpu.register_x = 0xff;
    cpu.register_y = 0x01;
    cpu.run().unwrap();
    assert_eq!(cpu.mem_read(0x02), 0xff);
}

#[test]
fn test_sty_abs() {
    let mut cpu = CPU::new();

    cpu.init(vec![0x8c, 0x01, 0x00]).unwrap();
    cpu.register_y = 0xff;
    cpu.run().unwrap();
    assert_eq!(cpu.mem_read(0x01), 0xff);
}

#[test]
fn test_sty_zp() {
    let mut cpu = CPU::new();

    cpu.init(vec![0x84, 0x01, 0x00]).unwrap();
    cpu.register_y = 0xff;
    cpu.run().unwrap();
    assert_eq!(cpu.mem_read(0x01), 0xff);
}

#[test]
fn test_sty_zp_x() {
    let mut cpu = CPU::new();

    cpu.init(vec![0x94, 0x01, 0x00]).unwrap();
    cpu.register_y = 0xff;
    cpu.register_x = 0x01;
    cpu.run().unwrap();
    assert_eq!(cpu.mem_read(0x02), 0xff);
}

#[test]
fn test_jmp_abs() {
    let mut cpu = CPU::new();
    cpu.init(vec![0x4c, 0x01, 0x00, 0x00]).unwrap();
    cpu.run().unwrap();
    assert_eq!(cpu.program_counter, 0x02); // pc increments for brk
}

#[test]
fn test_jmp_indirect() {
    let mut cpu = CPU::new();
    cpu.init(vec![0x6c, 0x01, 0x00, 0x00]).unwrap();
    cpu.mem_write(0x01, 0x32);
    cpu.run().unwrap();
    assert_eq!(cpu.program_counter, 0x33); // pc increments for brk
}

#[test]
fn test_game() {
    let mut cpu = CPU::new();
    let game_code = vec![
        0x20, 0x06, 0x06, 0x20, 0x38, 0x06, 0x20, 0x0d, 0x06, 0x20, 0x2a, 0x06, 0x60, 0xa9, 0x02,
        0x85, 0x02, 0xa9, 0x04, 0x85, 0x03, 0xa9, 0x11, 0x85, 0x10, 0xa9, 0x10, 0x85, 0x12, 0xa9,
        0x0f, 0x85, 0x14, 0xa9, 0x04, 0x85, 0x11, 0x85, 0x13, 0x85, 0x15, 0x60, 0xa5, 0xfe, 0x85,
        0x00, 0xa5, 0xfe, 0x29, 0x03, 0x18, 0x69, 0x02, 0x85, 0x01, 0x60, 0x20, 0x4d, 0x06, 0x20,
        0x8d, 0x06, 0x20, 0xc3, 0x06, 0x20, 0x19, 0x07, 0x20, 0x20, 0x07, 0x20, 0x2d, 0x07, 0x4c,
        0x38, 0x06, 0xa5, 0xff, 0xc9, 0x77, 0xf0, 0x0d, 0xc9, 0x64, 0xf0, 0x14, 0xc9, 0x73, 0xf0,
        0x1b, 0xc9, 0x61, 0xf0, 0x22, 0x60, 0xa9, 0x04, 0x24, 0x02, 0xd0, 0x26, 0xa9, 0x01, 0x85,
        0x02, 0x60, 0xa9, 0x08, 0x24, 0x02, 0xd0, 0x1b, 0xa9, 0x02, 0x85, 0x02, 0x60, 0xa9, 0x01,
        0x24, 0x02, 0xd0, 0x10, 0xa9, 0x04, 0x85, 0x02, 0x60, 0xa9, 0x02, 0x24, 0x02, 0xd0, 0x05,
        0xa9, 0x08, 0x85, 0x02, 0x60, 0x60, 0x20, 0x94, 0x06, 0x20, 0xa8, 0x06, 0x60, 0xa5, 0x00,
        0xc5, 0x10, 0xd0, 0x0d, 0xa5, 0x01, 0xc5, 0x11, 0xd0, 0x07, 0xe6, 0x03, 0xe6, 0x03, 0x20,
        0x2a, 0x06, 0x60, 0xa2, 0x02, 0xb5, 0x10, 0xc5, 0x10, 0xd0, 0x06, 0xb5, 0x11, 0xc5, 0x11,
        0xf0, 0x09, 0xe8, 0xe8, 0xe4, 0x03, 0xf0, 0x06, 0x4c, 0xaa, 0x06, 0x4c, 0x35, 0x07, 0x60,
        0xa6, 0x03, 0xca, 0x8a, 0xb5, 0x10, 0x95, 0x12, 0xca, 0x10, 0xf9, 0xa5, 0x02, 0x4a, 0xb0,
        0x09, 0x4a, 0xb0, 0x19, 0x4a, 0xb0, 0x1f, 0x4a, 0xb0, 0x2f, 0xa5, 0x10, 0x38, 0xe9, 0x20,
        0x85, 0x10, 0x90, 0x01, 0x60, 0xc6, 0x11, 0xa9, 0x01, 0xc5, 0x11, 0xf0, 0x28, 0x60, 0xe6,
        0x10, 0xa9, 0x1f, 0x24, 0x10, 0xf0, 0x1f, 0x60, 0xa5, 0x10, 0x18, 0x69, 0x20, 0x85, 0x10,
        0xb0, 0x01, 0x60, 0xe6, 0x11, 0xa9, 0x06, 0xc5, 0x11, 0xf0, 0x0c, 0x60, 0xc6, 0x10, 0xa5,
        0x10, 0x29, 0x1f, 0xc9, 0x1f, 0xf0, 0x01, 0x60, 0x4c, 0x35, 0x07, 0xa0, 0x00, 0xa5, 0xfe,
        0x91, 0x00, 0x60, 0xa6, 0x03, 0xa9, 0x00, 0x81, 0x10, 0xa2, 0x00, 0xa9, 0x01, 0x81, 0x10,
        0x60, 0xa2, 0x00, 0xea, 0xea, 0xca, 0xd0, 0xfb, 0x60,
    ];

    cpu.init(game_code).unwrap();
    cpu.run().unwrap();
}
