use chip_8::disassembler::{push_mnemonic, push_word_text};
use chip_8::text::{digit_count, digit_str, push_digits, push_hex1, push_hex2, push_hex3, push_hex4, push_padded};
use chip_8::{decode, disassemble_file, word_to_nibbles, Instruction, MergeNibbles};

#[test]
fn word_splits_into_four_nibbles() {
    assert_eq!(word_to_nibbles(&[0xAB, 0xCD]), [0xA, 0xB, 0xC, 0xD]);
    assert_eq!(word_to_nibbles(&[0x00, 0x00]), [0, 0, 0, 0]);
    assert_eq!(word_to_nibbles(&[0xFF, 0xFF]), [15, 15, 15, 15]);
    assert_eq!(word_to_nibbles(&[0x10, 0x02]), [1, 0, 0, 2]);
}

#[test]
fn nibbles_merge_big_endian() {
    assert_eq!([0xAu8, 0xB].merge_nibbles(), 0xAB);
    assert_eq!([0x0u8, 0xF].merge_nibbles(), 0x0F);
    assert_eq!([0xAu8, 0xB, 0xC].merge_nibbles(), 0xABC);
    assert_eq!([0x1u8, 0x0, 0x0].merge_nibbles(), 0x100);
    assert_eq!([0xFu8, 0xF, 0xF].merge_nibbles(), 0xFFF);
}

#[test]
fn split_then_merge_gives_the_word_back() {
    for hi in 0..=255u8 {
        for lo in [0u8, 1, 0x0F, 0x10, 0x7E, 0xFF] {
            let n = word_to_nibbles(&[hi, lo]);
            assert_eq!([n[0], n[1]].merge_nibbles(), hi);
            assert_eq!([n[2], n[3]].merge_nibbles(), lo);
            assert_eq!([n[1], n[2], n[3]].merge_nibbles(), ((hi as u16 & 0xF) << 8) | lo as u16);
        }
    }
}

#[test]
fn every_instruction_of_the_table_decodes() {
    let table: [(u16, Instruction); 35] = [
        (0x00E0, Instruction::ClearScreen),
        (0x00EE, Instruction::Return),
        (0x0ABC, Instruction::MachineCall { address: 0xABC }),
        (0x1ABC, Instruction::Jump { address: 0xABC }),
        (0x2ABC, Instruction::Call { address: 0xABC }),
        (0x3A12, Instruction::SkipEqImm { x: 0xA, value: 0x12 }),
        (0x4A12, Instruction::SkipNeImm { x: 0xA, value: 0x12 }),
        (0x5AB0, Instruction::SkipEq { x: 0xA, y: 0xB }),
        (0x6A12, Instruction::Load { x: 0xA, value: 0x12 }),
        (0x7A12, Instruction::AddImm { x: 0xA, value: 0x12 }),
        (0x8AB0, Instruction::Copy { x: 0xA, y: 0xB }),
        (0x8AB1, Instruction::Or { x: 0xA, y: 0xB }),
        (0x8AB2, Instruction::And { x: 0xA, y: 0xB }),
        (0x8AB3, Instruction::Xor { x: 0xA, y: 0xB }),
        (0x8AB4, Instruction::Add { x: 0xA, y: 0xB }),
        (0x8AB5, Instruction::Sub { x: 0xA, y: 0xB }),
        (0x8AB6, Instruction::ShiftRight { x: 0xA, y: 0xB }),
        (0x8AB7, Instruction::SubReverse { x: 0xA, y: 0xB }),
        (0x8ABE, Instruction::ShiftLeft { x: 0xA, y: 0xB }),
        (0x9AB0, Instruction::SkipNe { x: 0xA, y: 0xB }),
        (0xAABC, Instruction::LoadIndex { address: 0xABC }),
        (0xBABC, Instruction::JumpOffset { address: 0xABC }),
        (0xCA12, Instruction::Random { x: 0xA, mask: 0x12 }),
        (0xDAB5, Instruction::Draw { x: 0xA, y: 0xB, height: 5 }),
        (0xEA9E, Instruction::SkipKey { x: 0xA }),
        (0xEAA1, Instruction::SkipNoKey { x: 0xA }),
        (0xFA07, Instruction::ReadDelay { x: 0xA }),
        (0xFA0A, Instruction::WaitKey { x: 0xA }),
        (0xFA15, Instruction::SetDelay { x: 0xA }),
        (0xFA18, Instruction::SetSound { x: 0xA }),
        (0xFA1E, Instruction::AddIndex { x: 0xA }),
        (0xFA29, Instruction::Glyph { x: 0xA }),
        (0xFA33, Instruction::Bcd { x: 0xA }),
        (0xFA55, Instruction::Store { x: 0xA }),
        (0xFA65, Instruction::Fill { x: 0xA }),
    ];
    for (word, instruction) in table {
        assert_eq!(decode((word >> 8) as u8, word as u8), Some(instruction));
    }
}

#[test]
fn words_outside_the_table_do_not_decode() {
    let mut unknown = 0;
    for word in 0..=0xFFFFu16 {
        if decode((word >> 8) as u8, word as u8).is_none() {
            unknown += 1;
        }
    }
    // 5XY1..F and 9XY1..F, 8XY8..D and 8XYF, EXNN but for two, FXNN but for nine.
    assert_eq!(unknown, 2 * 256 * 15 + 256 * 7 + 16 * 254 + 16 * 247);
    assert_eq!(decode(0x00, 0x00), Some(Instruction::MachineCall { address: 0 }));
    assert_eq!(decode(0x00, 0xE1), Some(Instruction::MachineCall { address: 0x0E1 }));
    assert_eq!(decode(0x80, 0x08), None);
    assert_eq!(decode(0x50, 0x01), None);
}

#[test]
fn digits_and_padding() {
    assert_eq!(digit_str(0), "0");
    assert_eq!(digit_str(9), "9");
    assert_eq!(digit_str(10), "A");
    assert_eq!(digit_str(15), "F");
    assert_eq!(digit_count(0, 10), 1);
    assert_eq!(digit_count(9, 10), 1);
    assert_eq!(digit_count(10, 10), 2);
    assert_eq!(digit_count(255, 16), 2);
    assert_eq!(digit_count(256, 16), 3);
    assert_eq!(digit_count(usize::MAX, 16), (usize::BITS / 4) as usize);
    let mut s = String::new();
    push_digits(&mut s, 0, 10);
    s.push(' ');
    push_digits(&mut s, 1234567890, 10);
    s.push(' ');
    push_digits(&mut s, 0xDEADBEEF, 16);
    s.push(' ');
    push_padded(&mut s, 7, 10, 2);
    s.push(' ');
    push_padded(&mut s, 123, 10, 2);
    s.push(' ');
    push_padded(&mut s, 0x1A, 16, 4);
    s.push(' ');
    push_padded(&mut s, 0x12345, 16, 4);
    s.push(' ');
    push_padded(&mut s, 5, 10, 0);
    assert_eq!(s, "0 1234567890 DEADBEEF 07 123 001A 12345 5");
    assert_eq!(s, format!("{} {} {:X} {:02} {:02} {:04X} {:04X} {:0}", 0, 1234567890, 0xDEADBEEFu32, 7, 123, 0x1A, 0x12345, 5));
}

#[test]
fn fixed_width_hexadecimal() {
    let mut s = String::new();
    push_hex1(&mut s, 0xC);
    s.push(' ');
    push_hex2(&mut s, 0x0A);
    s.push(' ');
    push_hex2(&mut s, 0xFF);
    s.push(' ');
    push_hex3(&mut s, 0x02F);
    s.push(' ');
    push_hex3(&mut s, 0xABC);
    s.push(' ');
    push_hex4(&mut s, 0x0200);
    s.push(' ');
    push_hex4(&mut s, 0xFFFF);
    assert_eq!(s, "C 0A FF 02F ABC 0200 FFFF");
    for v in 0..=255u8 {
        let mut s = String::new();
        push_hex2(&mut s, v);
        assert_eq!(s, format!("{:02X}", v));
    }
    for v in 0..4096u16 {
        let mut s = String::new();
        push_hex3(&mut s, v);
        assert_eq!(s, format!("{:03X}", v));
    }
    for v in [0u16, 9, 0x10, 0xFF, 0x100, 0xFFF, 0x1000, 0xABCD, 0xFFFF] {
        let mut s = String::new();
        push_hex4(&mut s, v);
        assert_eq!(s, format!("{:04X}", v));
    }
}

fn text_of(hi: u8, lo: u8) -> String {
    let mut s = String::new();
    push_word_text(&mut s, hi, lo);
    s
}

#[test]
fn every_instruction_has_its_notation() {
    let table: [(u16, &str); 35] = [
        (0x00E0, "disp_clear"),
        (0x00EE, "return;"),
        (0x0ABC, "call ABC"),
        (0x1ABC, "goto ABC;"),
        (0x2ABC, "call ABC;"),
        (0x3A12, "if(VA==12) skip_next;"),
        (0x4A12, "if(VA!=12) skip_next;"),
        (0x5AB0, "if(VA==VB) skip_next;"),
        (0x6A02, "VA=02"),
        (0x7A12, "VA+=12"),
        (0x8AB0, "VA=VB"),
        (0x8AB1, "VA=VA|VB"),
        (0x8AB2, "VA=VA&VB"),
        (0x8AB3, "VA=VA^VB"),
        (0x8AB4, "VA+=VB"),
        (0x8AB5, "VA-=VB"),
        (0x8AB6, "VA>>=1"),
        (0x8AB7, "VA=VB-VA"),
        (0x8ABE, "VA<<=1"),
        (0x9AB0, "if(VA!=VB) skip_next;"),
        (0xA0BC, "I=0x0BC"),
        (0xBABC, "PC=V0+0xABC"),
        (0xCA0F, "VA=rand() & 0x0F"),
        (0xDAB5, "draw(VA, VB, 0x5)"),
        (0xEA9E, "if(key()==VA)"),
        (0xEAA1, "if(key()!=VA)"),
        (0xFA07, "VA=get_delay()"),
        (0xFA0A, "VA=get_key()"),
        (0xFA15, "delay_timer(VA)"),
        (0xFA18, "sound_timer(VA)"),
        (0xFA1E, "I += VA"),
        (0xFA29, "I = sprite_addr(VA)"),
        (0xFA33, "set_BCD(VA)"),
        (0xFA55, "reg_dump(VA, &I)"),
        (0xFA65, "reg_load(VA, &I)"),
    ];
    for (word, text) in table {
        assert_eq!(text_of((word >> 8) as u8, word as u8), text);
    }
    let mut s = String::from("> ");
    push_mnemonic(&mut s, Instruction::Draw { x: 1, y: 2, height: 15 });
    assert_eq!(s, "> draw(V1, V2, 0xF)");
}

#[test]
fn unknown_words_are_listed_by_their_nibbles() {
    assert_eq!(text_of(0x5A, 0xB1), "UNKNOWN INSTRUCTION [5, A, B, 1]");
    assert_eq!(text_of(0xE1, 0x00), "UNKNOWN INSTRUCTION [E, 1, 0, 0]");
    assert_eq!(text_of(0x8A, 0xB8), "UNKNOWN INSTRUCTION [8, A, B, 8]");
    assert_eq!(text_of(0xFF, 0xFF), format!("UNKNOWN INSTRUCTION {:1X?}", [0xFu8, 0xF, 0xF, 0xF]));
}

#[test]
fn listing_numbers_lines_and_offsets() {
    assert_eq!(disassemble_file(&[]), "");
    assert_eq!(
        disassemble_file(&[0x60, 0x05, 0x70, 0x03, 0x00, 0xEE]),
        "01) 0000\tV0=05\n02) 0002\tV0+=03\n03) 0004\treturn;\n"
    );
}

#[test]
fn listing_widens_numbers_that_need_it() {
    let image = vec![0u8; 2 * 0x8001];
    let text = disassemble_file(&image);
    let lines: Vec<&str> = text.lines().collect();
    assert_eq!(lines.len(), 0x8001);
    assert_eq!(lines[0], "01) 0000\tcall 000");
    assert_eq!(lines[8], "09) 0010\tcall 000");
    assert_eq!(lines[9], "10) 0012\tcall 000");
    assert_eq!(lines[99], "100) 00C6\tcall 000");
    assert_eq!(lines[0x7FFF], "32768) FFFE\tcall 000");
    assert_eq!(lines[0x8000], "32769) 10000\tcall 000");
    assert!(text.ends_with('\n'));
}
