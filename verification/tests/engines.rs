use chip_8::engines::{cycles_per_tick, period, CPU_HZ, TIMER_HZ};
use chip_8::{Chip8, CliEngine, Engine, MinifbEngine};

#[test]
fn ten_cycles_run_between_two_ticks() {
    assert_eq!(period(CPU_HZ), 1_666_666);
    assert_eq!(period(TIMER_HZ), 16_666_666);
    assert_eq!(cycles_per_tick(CPU_HZ, TIMER_HZ), 10);
    assert_eq!(cycles_per_tick(600, 60), 10);
    assert_eq!(cycles_per_tick(60, 60), 1);
    assert_eq!(cycles_per_tick(60, 600), 0);
    assert_eq!(cycles_per_tick(1_000_000_000, 1), 1_000_000_000);
    assert_eq!(cycles_per_tick(700, 60), 16_666_666 / 1_428_571);
}

#[test]
fn terminal_frame_is_32_lines_of_64_characters() {
    let mut engine = CliEngine::new();
    let blank_line = " ".repeat(64) + "\n";
    assert_eq!(engine.frame(), blank_line.repeat(32));
    assert!(!engine.draw_sprite(62, 31, 2, &[0xE0, 0x80]));
    let frame = engine.frame();
    let lines: Vec<&str> = frame.split('\n').collect();
    assert_eq!(lines.len(), 33);
    assert_eq!(lines[32], "");
    assert_eq!(lines[0], format!("{}#{}", " ".repeat(62), " "));
    assert_eq!(lines[31], format!("#{}##", " ".repeat(61)));
    for line in &lines[1..31] {
        assert_eq!(*line, " ".repeat(64));
    }
    assert!(engine.pixel(31, 0));
    assert!(engine.pixel(0, 62));
    assert!(!engine.pixel(0, 63));
}

#[test]
fn terminal_engine_clears_and_collides() {
    let mut engine = CliEngine::new();
    assert!(!engine.draw_sprite(0, 0, 1, &[0x80]));
    assert!(engine.draw_sprite(0, 0, 1, &[0x80]));
    assert!(!engine.draw_sprite(0, 0, 1, &[0x80]));
    engine.clear_screen();
    assert!(!engine.pixel(0, 0));
    assert!(!engine.draw_sprite(0, 0, 1, &[0x80]));
}

#[test]
fn terminal_engine_has_its_own_generator() {
    let mut one = CliEngine::new();
    let mut two = CliEngine::new();
    assert_eq!([one.rand(), one.rand(), one.rand(), one.rand(), one.rand()], [1, 1, 1, 50, 24]);
    assert_eq!(two.rand(), 1);
    one.clear_screen();
    assert_eq!(one.rand(), 39);
}

#[test]
fn window_buffer_starts_dark() {
    let engine = MinifbEngine::create(3).unwrap();
    assert_eq!(engine.scale(), 3);
    assert_eq!(engine.width(), 192);
    assert_eq!(engine.height(), 96);
    assert_eq!(engine.buffer().len(), 192 * 96);
    assert!(engine.buffer().iter().all(|dot| *dot == 0));
}

#[test]
fn window_of_scale_0_has_no_dots() {
    let mut engine = MinifbEngine::create(0).unwrap();
    assert_eq!(engine.width(), 0);
    assert_eq!(engine.height(), 0);
    assert!(engine.buffer().is_empty());
    assert!(!engine.draw_sprite(0, 0, 1, &[0xFF]));
    assert!(engine.draw_sprite(0, 0, 1, &[0xFF]));
    engine.clear_screen();
    assert!(engine.buffer().is_empty());
}

#[test]
fn window_too_large_is_refused() {
    assert!(MinifbEngine::create(usize::MAX).is_none());
    assert!(MinifbEngine::create(usize::MAX / 64 + 1).is_none());
    assert!(MinifbEngine::create(usize::MAX / 32 + 1).is_none());
    assert!(MinifbEngine::create(usize::MAX / 64).is_none());
}

fn expected_dots(lit: &[(usize, usize)], scale: usize) -> Vec<u32> {
    let width = 64 * scale;
    let mut dots = vec![0u32; width * 32 * scale];
    for line in 0..32 * scale {
        for column in 0..width {
            if lit.contains(&(line / scale, column / scale)) {
                dots[line * width + column] = 0xFF;
            }
        }
    }
    dots
}

#[test]
fn window_shows_each_pixel_as_a_square() {
    for scale in [1usize, 2, 5] {
        let mut engine = MinifbEngine::create(scale).unwrap();
        assert!(!engine.draw_sprite(63, 31, 2, &[0xC0, 0x80]));
        let lit = [(31, 63), (31, 0), (0, 63)];
        assert_eq!(*engine.buffer(), expected_dots(&lit, scale));
        assert_eq!(engine.buffer().iter().filter(|dot| **dot == 0xFF).count(), 3 * scale * scale);
        assert!(engine.draw_sprite(63, 31, 1, &[0x80]));
        let lit = [(31, 0), (0, 63)];
        assert_eq!(*engine.buffer(), expected_dots(&lit, scale));
        engine.clear_screen();
        assert_eq!(*engine.buffer(), expected_dots(&[], scale));
        assert!(!engine.draw_sprite(1, 1, 1, &[0x80]));
        assert_eq!(*engine.buffer(), expected_dots(&[(1, 1)], scale));
    }
}

#[test]
fn draw_to_window_paints_what_the_display_holds() {
    let mut engine = MinifbEngine::create(2).unwrap();
    engine.draw_sprite(0, 0, 1, &[0x80]);
    let painted = engine.buffer().clone();
    engine.draw_to_window();
    assert_eq!(*engine.buffer(), painted);
    assert_eq!(painted[0], 0xFF);
    assert_eq!(painted[1], 0xFF);
    assert_eq!(painted[2], 0);
    assert_eq!(painted[128], 0xFF);
    assert_eq!(painted[129], 0xFF);
    assert_eq!(painted[256], 0);
}

#[test]
fn window_engine_has_its_own_generator() {
    let mut engine = MinifbEngine::create(1).unwrap();
    assert_eq!([engine.rand(), engine.rand(), engine.rand(), engine.rand()], [1, 1, 1, 50]);
}

#[test]
fn window_engine_runs_a_program() {
    let mut chip = Chip8::new();
    chip.load_game(&[0x00, 0xE0, 0x60, 0x01, 0xF0, 0x29, 0xD1, 0x15, 0xD1, 0x15]);
    let mut engine = MinifbEngine::create(1).unwrap();
    for _ in 0..4 {
        assert_eq!(chip.emulate_cycle(&mut engine), Ok(()));
    }
    assert_eq!(chip.register(0xF), 0);
    // the glyph of 1: 0x20 0x60 0x20 0x20 0x70
    assert_eq!(engine.buffer().iter().filter(|dot| **dot == 0xFF).count(), 8);
    assert_eq!(engine.buffer()[2], 0xFF);
    assert_eq!(chip.emulate_cycle(&mut engine), Ok(()));
    assert_eq!(chip.register(0xF), 1);
    assert!(engine.buffer().iter().all(|dot| *dot == 0));
}

#[test]
fn table_cells_show_registers_timers_and_stack() {
    let mut chip = Chip8::new();
    chip.load_game(&[0x22, 0x02, 0x6A, 0x5C, 0xA1, 0x23, 0xF0, 0x15, 0x60, 0x07, 0xF0, 0x15]);
    let mut engine = CliEngine::new();
    for _ in 0..6 {
        assert_eq!(chip.emulate_cycle(&mut engine), Ok(()));
    }
    let cells = chip.table_cells();
    let expect: Vec<Vec<&str>> = vec![
        vec!["I 0x0123", "V0 0x07", "V8 0x00", "SP0 0x0202", "SP8 0x0000"],
        vec!["PC 0x020C", "V1 0x00", "V9 0x00", "SP1 0x0000", "SP9 0x0000"],
        vec!["DT 0x07", "V2 0x00", "VA 0x5C", "SP2 0x0000", "SPA 0x0000"],
        vec!["ST 0x00", "V3 0x00", "VB 0x00", "SP3 0x0000", "SPB 0x0000"],
        vec!["SP 0x0001", "V4 0x00", "VC 0x00", "SP4 0x0000", "SPC 0x0000"],
        vec!["", "V5 0x00", "VD 0x00", "SP5 0x0000", "SPD 0x0000"],
        vec!["", "V6 0x00", "VE 0x00", "SP6 0x0000", "SPE 0x0000"],
        vec!["", "V7 0x00", "VF 0x00", "SP7 0x0000", "SPF 0x0000"],
    ];
    assert_eq!(cells, expect);
}

#[test]
fn table_shows_a_slot_as_the_return_left_it() {
    let mut chip = Chip8::new();
    chip.load_game(&[0x22, 0x04, 0x12, 0x02, 0x22, 0x06, 0x00, 0xEE]);
    assert_eq!(chip.step(0, false), Ok(()));
    assert_eq!(chip.step(0, false), Ok(()));
    assert_eq!(chip.stack_depth(), 2);
    assert_eq!(chip.step(0, false), Ok(()));
    assert_eq!(chip.stack_depth(), 1);
    assert_eq!(chip.program_counter(), 0x206);
    assert_eq!(chip.step(0, false), Ok(()));
    assert_eq!(chip.stack_depth(), 0);
    assert_eq!(chip.program_counter(), 0x202);
    let cells = chip.table_cells();
    assert_eq!(cells[0][3], "SP0 0x0202");
    assert_eq!(cells[1][3], "SP1 0x0206");
    assert_eq!(cells[2][3], "SP2 0x0000");
    assert_eq!(cells[4][0], "SP 0x0000");
    assert_eq!(cells[1][0], "PC 0x0202");
    let text = chip.debug_table();
    assert!(text.contains("| SP0 0x0202 |"));
    assert!(text.contains("| SP1 0x0206 |"));
    assert!(text.contains("| SP 0x0000 "));
}

#[test]
fn debug_table_is_a_drawn_table() {
    let mut chip = Chip8::new();
    chip.load_game(&[0x6A, 0x5C]);
    assert_eq!(chip.step(0, false), Ok(()));
    let text = chip.debug_table();
    let lines: Vec<&str> = text.lines().collect();
    assert_eq!(lines.len(), 19);
    let width = lines[0].chars().count();
    for line in &lines {
        assert_eq!(line.chars().count(), width);
    }
    assert!(lines[0].starts_with("+-"));
    assert_eq!(lines[1], "| Other registers | V0-V7   | V8-VF   | Stack 0-7  | Stack 8-F  |");
    assert_eq!(lines[3], "| I 0x0000        | V0 0x00 | V8 0x00 | SP0 0x0000 | SP8 0x0000 |");
    assert_eq!(lines[5], "| PC 0x0202       | V1 0x00 | V9 0x00 | SP1 0x0000 | SP9 0x0000 |");
    assert_eq!(lines[7], "| DT 0x00         | V2 0x00 | VA 0x5C | SP2 0x0000 | SPA 0x0000 |");
    assert_eq!(lines[17], "|                 | V7 0x00 | VF 0x00 | SP7 0x0000 | SPF 0x0000 |");
    let mut table = comfy_table::Table::new();
    table.set_header(vec!["Other registers", "V0-V7", "V8-VF", "Stack 0-7", "Stack 8-F"]);
    for row in chip.table_cells() {
        table.add_row(row);
    }
    assert_eq!(text, format!("{}", table));
}
