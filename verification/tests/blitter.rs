use chip8::cpu::CPU;
use chip8::graphic::{get_sprites, update_screen, HEIGHT, WIDTH};

fn screen_init() -> Vec<bool> {
    vec![false; usize::from(WIDTH * HEIGHT)]
}

fn lit_cells(screen: &Vec<bool>) -> Vec<(usize, usize)> {
    let mut cells = Vec::new();
    for (index, lit) in screen.iter().enumerate() {
        if *lit {
            cells.push((index % 64, index / 64));
        }
    }
    cells
}

#[test]
fn display_graphic_test() {
    let memory = get_sprites();
    let mut screen = screen_init();

    let (x, y) = (0, 0);
    let base_address = 0;
    let collision = update_screen(x, y, 2, base_address, &memory.to_vec(), &mut screen);

    println!("screen values {:?}", screen);
    assert_eq!(false, collision);
}

#[test]
fn font_has_sixteen_glyphs_of_five_rows() {
    let font = get_sprites();
    assert_eq!(font.len(), 80);
    assert_eq!(&font[0..5], &[0xF0, 0x90, 0x90, 0x90, 0xF0]);
    assert_eq!(&font[5..10], &[0x20, 0x60, 0x20, 0x20, 0x70]);
    assert_eq!(&font[75..80], &[0xF0, 0x80, 0xF0, 0x80, 0x80]);
}

#[test]
fn blit_draws_most_significant_bit_first() {
    let memory = vec![0b1010_0001u8];
    let mut screen = screen_init();
    let collision = update_screen(3, 2, 1, 0, &memory, &mut screen);
    assert!(!collision);
    assert_eq!(lit_cells(&screen), vec![(3, 2), (5, 2), (10, 2)]);
}

#[test]
fn blit_draws_the_zero_glyph() {
    let memory = get_sprites().to_vec();
    let mut screen = screen_init();
    let collision = update_screen(0, 0, 5, 0, &memory, &mut screen);
    assert!(!collision);
    let expected = vec![
        (0, 0), (1, 0), (2, 0), (3, 0),
        (0, 1), (3, 1),
        (0, 2), (3, 2),
        (0, 3), (3, 3),
        (0, 4), (1, 4), (2, 4), (3, 4),
    ];
    assert_eq!(lit_cells(&screen), expected);
}

#[test]
fn blit_wraps_at_the_right_edge() {
    let memory = vec![0xFFu8];
    let mut screen = screen_init();
    update_screen(60, 0, 1, 0, &memory, &mut screen);
    assert_eq!(
        lit_cells(&screen),
        vec![(0, 0), (1, 0), (2, 0), (3, 0), (60, 0), (61, 0), (62, 0), (63, 0)]
    );
}

#[test]
fn blit_keeps_rows_on_the_screen_at_the_bottom_edge() {
    let memory = vec![0x80u8, 0x80, 0x80];
    let mut screen = screen_init();
    let collision = update_screen(0, 30, 3, 0, &memory, &mut screen);
    assert!(!collision);
    assert_eq!(lit_cells(&screen), vec![(0, 0), (0, 30), (0, 31)]);
}

#[test]
fn blit_takes_large_coordinates_modulo_the_screen() {
    let memory = vec![0x80u8];
    let mut screen = screen_init();
    update_screen(64 + 7, 32 + 5, 1, 0, &memory, &mut screen);
    assert_eq!(lit_cells(&screen), vec![(7, 5)]);
    let mut far = screen_init();
    update_screen(0xFFFF, 0xFFFF, 1, 0, &memory, &mut far);
    assert_eq!(lit_cells(&far), vec![(63, 31)]);
}

#[test]
fn blit_reads_the_sprite_from_its_base_address() {
    let memory = vec![0xFFu8, 0x00, 0x40, 0x20];
    let mut screen = screen_init();
    update_screen(0, 0, 2, 2, &memory, &mut screen);
    assert_eq!(lit_cells(&screen), vec![(1, 0), (2, 1)]);
}

#[test]
fn blit_of_no_rows_changes_nothing() {
    let memory: Vec<u8> = Vec::new();
    let mut screen = screen_init();
    screen[5] = true;
    let before = screen.clone();
    let collision = update_screen(1, 1, 0, 0, &memory, &mut screen);
    assert!(!collision);
    assert_eq!(screen, before);
}

#[test]
fn blank_sprite_changes_nothing_anywhere() {
    let memory = vec![0u8; 15];
    let mut screen = screen_init();
    for index in (0..2048).step_by(3) {
        screen[index] = true;
    }
    let before = screen.clone();
    for (x, y) in [(0u16, 0u16), (63, 31), (60, 30), (17, 9), (255, 255)] {
        let collision = update_screen(x, y, 15, 0, &memory, &mut screen);
        assert!(!collision);
        assert_eq!(screen, before);
    }
}

#[test]
fn blit_toggles_and_reports_collision() {
    let memory = vec![0b1100_0000u8];
    let mut screen = screen_init();
    screen[1] = true;
    let collision = update_screen(0, 0, 1, 0, &memory, &mut screen);
    assert!(collision);
    assert_eq!(lit_cells(&screen), vec![(0, 0)]);
}

#[test]
fn clear_bits_never_collide() {
    let memory = vec![0b0000_0001u8];
    let mut screen = screen_init();
    for x in 0..7 {
        screen[x] = true;
    }
    let collision = update_screen(0, 0, 1, 0, &memory, &mut screen);
    assert!(!collision);
    assert_eq!(lit_cells(&screen).len(), 8);
}

#[test]
fn blit_twice_restores_the_screen() {
    let memory = get_sprites().to_vec();
    let mut screen = screen_init();
    for index in (0..2048).step_by(5) {
        screen[index] = true;
    }
    let before = screen.clone();
    for (x, y, rows, base) in [(0u16, 0u16, 5u16, 0u16), (62, 30, 5, 10), (13, 7, 15, 40), (1, 1, 40, 0)] {
        update_screen(x, y, rows, base, &memory, &mut screen);
        update_screen(x, y, rows, base, &memory, &mut screen);
        assert_eq!(screen, before);
    }
}

#[test]
fn blit_twice_collides_second_time_on_cells_the_first_lit() {
    let memory = vec![0x80u8];
    let mut screen = screen_init();
    let first = update_screen(0, 0, 1, 0, &memory, &mut screen);
    let second = update_screen(0, 0, 1, 0, &memory, &mut screen);
    assert!(!first);
    assert!(second);
    assert_eq!(screen, screen_init());
}

#[test]
fn blit_twice_reports_the_same_over_cells_of_both_states() {
    let memory = vec![0b1100_0000u8];
    let mut screen = screen_init();
    screen[0] = true;
    let first = update_screen(0, 0, 1, 0, &memory, &mut screen);
    let second = update_screen(0, 0, 1, 0, &memory, &mut screen);
    assert!(first);
    assert!(second);
}

#[test]
fn tall_sprite_collides_with_its_own_rows() {
    let mut memory = vec![0u8; 33];
    memory[0] = 0x80;
    memory[32] = 0x80;
    let mut screen = screen_init();
    let collision = update_screen(0, 0, 33, 0, &memory, &mut screen);
    assert!(collision);
    assert_eq!(screen, screen_init());
}

#[test]
fn pixel_reads_the_cell_of_a_column_and_row() {
    let mut cpu = CPU::new();
    cpu.screen[5 + 3 * 64] = true;
    assert!(cpu.pixel(5, 3));
    assert!(!cpu.pixel(3, 5));
    assert!(!cpu.pixel(63, 31));
}
