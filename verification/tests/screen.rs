use array2d::Array2D;
use chip8::cpu::{Cpu, CpuError, ErrorKind};
use chip8::display::{
    blank_screen, draw_sprite, flip_pixel, has_screen_shape, pixel, CHIP_8_HEIGHT, CHIP_8_WIDTH,
};

fn lit_pixels(screen: &Array2D<bool>) -> Vec<(usize, usize)> {
    let mut lit = Vec::new();
    for x in 0..CHIP_8_WIDTH {
        for y in 0..CHIP_8_HEIGHT {
            if pixel(screen, x, y) {
                lit.push((x, y));
            }
        }
    }
    lit
}

#[test]
fn blank_screen_is_unlit_and_of_screen_shape() {
    let screen = blank_screen();
    assert_eq!(screen.num_rows(), 64);
    assert_eq!(screen.num_columns(), 32);
    assert!(has_screen_shape(&screen));
    assert_eq!(lit_pixels(&screen), vec![]);
}

#[test]
fn other_shapes_are_told_apart() {
    assert!(!has_screen_shape(&Array2D::filled_with(false, 32, 64)));
    assert!(!has_screen_shape(&Array2D::filled_with(false, 64, 31)));
    assert!(!has_screen_shape(&Array2D::filled_with(false, 0, 0)));
    assert!(has_screen_shape(&Array2D::filled_with(true, 64, 32)));
}

#[test]
fn flip_pixel_inverts_one_pixel() {
    let mut screen = blank_screen();
    assert_eq!(flip_pixel(&mut screen, 63, 31), false);
    assert_eq!(lit_pixels(&screen), vec![(63, 31)]);
    assert_eq!(screen[(63, 31)], true);
    assert_eq!(flip_pixel(&mut screen, 5, 7), false);
    assert_eq!(lit_pixels(&screen), vec![(5, 7), (63, 31)]);
    assert_eq!(flip_pixel(&mut screen, 63, 31), true);
    assert_eq!(lit_pixels(&screen), vec![(5, 7)]);
}

#[test]
fn drawing_twice_erases_and_collides() {
    let mut cpu = Cpu::new();
    cpu.i = 0x300;
    cpu.ram[0x300] = 0xF0;
    cpu.v[0xF] = 7;
    // D011: one row at (V0, V1) = (0, 0)
    assert_eq!(cpu.run_opcode(0xD011), Ok(()));
    assert_eq!(lit_pixels(&cpu.display), vec![(0, 0), (1, 0), (2, 0), (3, 0)]);
    assert_eq!(cpu.v[0xF], 0);
    assert_eq!(cpu.run_opcode(0xD011), Ok(()));
    assert_eq!(lit_pixels(&cpu.display), vec![]);
    assert_eq!(cpu.v[0xF], 1);
}

#[test]
fn draw_reads_rows_from_memory_at_index() {
    let mut cpu = Cpu::new();
    // glyph "1" of the font: 20 60 20 20 70
    cpu.i = 5;
    cpu.v[2] = 10;
    cpu.v[3] = 20;
    assert_eq!(cpu.run_opcode(0xD235), Ok(()));
    assert_eq!(
        lit_pixels(&cpu.display),
        vec![(11, 21), (11, 24), (12, 20), (12, 21), (12, 22), (12, 23), (12, 24), (13, 24)]
    );
    assert_eq!(cpu.v[0xF], 0);
    assert_eq!(cpu.i, 5);
    assert_eq!(cpu.pc, 0x202);
}

#[test]
fn partial_overlap_collides_and_keeps_the_rest() {
    let mut screen = blank_screen();
    assert_eq!(draw_sprite(&mut screen, &[0xC0], 4, 4), false);
    assert_eq!(lit_pixels(&screen), vec![(4, 4), (5, 4)]);
    assert_eq!(draw_sprite(&mut screen, &[0xC0], 5, 4), true);
    assert_eq!(lit_pixels(&screen), vec![(4, 4), (6, 4)]);
    assert_eq!(draw_sprite(&mut screen, &[0x80], 5, 4), false);
    assert_eq!(lit_pixels(&screen), vec![(4, 4), (5, 4), (6, 4)]);
}

#[test]
fn origin_wraps_and_pixels_clip() {
    let mut screen = blank_screen();
    // 64 + 62 columns and 32 + 31 rows: origin (62, 31)
    assert_eq!(draw_sprite(&mut screen, &[0xFF, 0xFF], 126, 63), false);
    assert_eq!(lit_pixels(&screen), vec![(62, 31), (63, 31)]);
}

#[test]
fn draw_instruction_clips_at_the_bottom() {
    let mut cpu = Cpu::new();
    cpu.i = 0xFFF;
    cpu.ram[0xFFF] = 0x81;
    cpu.v[0] = 60;
    cpu.v[1] = 31;
    // five rows asked for, one fits on the screen and in memory
    assert_eq!(cpu.run_opcode(0xD015), Ok(()));
    assert_eq!(lit_pixels(&cpu.display), vec![(60, 31)]);
    assert_eq!(cpu.v[0xF], 0);
}

#[test]
fn draw_beyond_memory_is_refused() {
    let mut cpu = Cpu::new();
    cpu.i = 0xFFF;
    cpu.ram[0xFFF] = 0xFF;
    cpu.v[0xF] = 9;
    assert_eq!(cpu.run_opcode(0xD002), Err(CpuError(ErrorKind::AddressOutOfBounds)));
    assert_eq!(lit_pixels(&cpu.display), vec![]);
    assert_eq!(cpu.v[0xF], 9);
    assert_eq!(cpu.pc, 0x202);
}

#[test]
fn draw_of_no_rows_clears_the_flag() {
    let mut cpu = Cpu::new();
    cpu.i = 0xFFFF;
    cpu.v[0xF] = 9;
    assert_eq!(cpu.run_opcode(0xD120), Ok(()));
    assert_eq!(lit_pixels(&cpu.display), vec![]);
    assert_eq!(cpu.v[0xF], 0);
}

#[test]
fn draw_with_vf_as_coordinate_uses_its_old_value() {
    let mut cpu = Cpu::new();
    cpu.i = 0x300;
    cpu.ram[0x300] = 0x80;
    cpu.v[0xF] = 9;
    cpu.v[1] = 2;
    assert_eq!(cpu.run_opcode(0xDF11), Ok(()));
    assert_eq!(lit_pixels(&cpu.display), vec![(9, 2)]);
    assert_eq!(cpu.v[0xF], 0);
}

#[test]
fn clear_screen_unlights_every_pixel() {
    let mut cpu = Cpu::new();
    cpu.i = 0;
    assert_eq!(cpu.run_opcode(0xD015), Ok(()));
    assert!(!lit_pixels(&cpu.display).is_empty());
    assert_eq!(cpu.run_opcode(0x00E0), Ok(()));
    assert_eq!(lit_pixels(&cpu.display), vec![]);
    assert!(cpu.is_well_formed());
}
