//! The disassembler: a program image as text, one line for each two-byte
//! word, with the number of the line, the offset of the word and what the
//! word does in a C-like notation.

use vstd::prelude::*;
use vstd::string::StringExecFns;
use crate::instruction::{decode, decode_spec, Instruction};
use crate::nibbles::nibbles_of;
use crate::text::{hex1, hex2, hex3, padded, push_hex1, push_hex2, push_hex3, push_padded};

verus! {

/// What `instruction` does, in a C-like notation. Registers and 12-bit
/// addresses are written in upper-case hexadecimal, bytes as two digits.
pub open spec fn mnemonic(instruction: Instruction) -> Seq<char> {
    match instruction {
        Instruction::ClearScreen => "disp_clear"@,
        Instruction::Return => "return;"@,
        Instruction::MachineCall { address } => "call "@ + hex3(address),
        Instruction::Jump { address } => "goto "@ + hex3(address) + ";"@,
        Instruction::Call { address } => "call "@ + hex3(address) + ";"@,
        Instruction::SkipEqImm { x, value } => "if(V"@ + hex1(x) + "=="@ + hex2(value) + ") skip_next;"@,
        Instruction::SkipNeImm { x, value } => "if(V"@ + hex1(x) + "!="@ + hex2(value) + ") skip_next;"@,
        Instruction::SkipEq { x, y } => "if(V"@ + hex1(x) + "==V"@ + hex1(y) + ") skip_next;"@,
        Instruction::Load { x, value } => "V"@ + hex1(x) + "="@ + hex2(value),
        Instruction::AddImm { x, value } => "V"@ + hex1(x) + "+="@ + hex2(value),
        Instruction::Copy { x, y } => "V"@ + hex1(x) + "=V"@ + hex1(y),
        Instruction::Or { x, y } => "V"@ + hex1(x) + "=V"@ + hex1(x) + "|V"@ + hex1(y),
        Instruction::And { x, y } => "V"@ + hex1(x) + "=V"@ + hex1(x) + "&V"@ + hex1(y),
        Instruction::Xor { x, y } => "V"@ + hex1(x) + "=V"@ + hex1(x) + "^V"@ + hex1(y),
        Instruction::Add { x, y } => "V"@ + hex1(x) + "+=V"@ + hex1(y),
        Instruction::Sub { x, y } => "V"@ + hex1(x) + "-=V"@ + hex1(y),
        Instruction::ShiftRight { x, .. } => "V"@ + hex1(x) + ">>=1"@,
        Instruction::SubReverse { x, y } => "V"@ + hex1(x) + "=V"@ + hex1(y) + "-V"@ + hex1(x),
        Instruction::ShiftLeft { x, .. } => "V"@ + hex1(x) + "<<=1"@,
        Instruction::SkipNe { x, y } => "if(V"@ + hex1(x) + "!=V"@ + hex1(y) + ") skip_next;"@,
        Instruction::LoadIndex { address } => "I=0x"@ + hex3(address),
        Instruction::JumpOffset { address } => "PC=V0+0x"@ + hex3(address),
        Instruction::Random { x, mask } => "V"@ + hex1(x) + "=rand() & 0x"@ + hex2(mask),
        Instruction::Draw { x, y, height } => "draw(V"@ + hex1(x) + ", V"@ + hex1(y) + ", 0x"@ + hex1(height) + ")"@,
        Instruction::SkipKey { x } => "if(key()==V"@ + hex1(x) + ")"@,
        Instruction::SkipNoKey { x } => "if(key()!=V"@ + hex1(x) + ")"@,
        Instruction::ReadDelay { x } => "V"@ + hex1(x) + "=get_delay()"@,
        Instruction::WaitKey { x } => "V"@ + hex1(x) + "=get_key()"@,
        Instruction::SetDelay { x } => "delay_timer(V"@ + hex1(x) + ")"@,
        Instruction::SetSound { x } => "sound_timer(V"@ + hex1(x) + ")"@,
        Instruction::AddIndex { x } => "I += V"@ + hex1(x),
        Instruction::Glyph { x } => "I = sprite_addr(V"@ + hex1(x) + ")"@,
        Instruction::Bcd { x } => "set_BCD(V"@ + hex1(x) + ")"@,
        Instruction::Store { x } => "reg_dump(V"@ + hex1(x) + ", &I)"@,
        Instruction::Fill { x } => "reg_load(V"@ + hex1(x) + ", &I)"@,
    }
}

/// What stands in place of the notation for a word that is no instruction:
/// its four nibbles, in upper-case hexadecimal.
pub open spec fn unknown(hi: u8, lo: u8) -> Seq<char> {
    let n = nibbles_of(hi, lo);
    "UNKNOWN INSTRUCTION ["@ + hex1(n[0]) + ", "@ + hex1(n[1]) + ", "@ + hex1(n[2]) + ", "@ + hex1(
        n[3],
    ) + "]"@
}

/// The text for the word `hi lo`.
pub open spec fn word_text(hi: u8, lo: u8) -> Seq<char> {
    match decode_spec(hi, lo) {
        Some(instruction) => mnemonic(instruction),
        None => unknown(hi, lo),
    }
}

/// Line `k` of a listing, counted from zero, for the word `hi lo`: the
/// number `k + 1` in decimal, at least two digits wide, then `) `, the byte
/// offset `2 k` in hexadecimal, at least four digits wide, a tab, the text
/// for the word, and a line feed.
pub open spec fn line(k: nat, hi: u8, lo: u8) -> Seq<char> {
    padded(k + 1, 10, 2) + ") "@ + padded(2 * k, 16, 4) + "\t"@ + word_text(hi, lo) + "\n"@
}

/// The first `count` lines of the listing of `data`.
pub open spec fn listing(data: Seq<u8>, count: nat) -> Seq<char>
    decreases count,
{
    if count == 0 {
        Seq::empty()
    } else {
        listing(data, (count - 1) as nat) + line(
            (count - 1) as nat,
            data[2 * (count - 1)],
            data[2 * (count - 1) + 1],
        )
    }
}

/// Appends the notation for `instruction`.
pub fn push_mnemonic(out: &mut String, instruction: Instruction)
    requires
        instruction.wf(),
    ensures
        final(out)@ == old(out)@ + mnemonic(instruction),
{
    match instruction {
        Instruction::ClearScreen => {
            out.append("disp_clear");
        },
        Instruction::Return => {
            out.append("return;");
        },
        Instruction::MachineCall { address } => {
            out.append("call ");
            push_hex3(out, address);
        },
        Instruction::Jump { address } => {
            out.append("goto ");
            push_hex3(out, address);
            out.append(";");
        },
        Instruction::Call { address } => {
            out.append("call ");
            push_hex3(out, address);
            out.append(";");
        },
        Instruction::SkipEqImm { x, value } => {
            out.append("if(V");
            push_hex1(out, x);
            out.append("==");
            push_hex2(out, value);
            out.append(") skip_next;");
        },
        Instruction::SkipNeImm { x, value } => {
            out.append("if(V");
            push_hex1(out, x);
            out.append("!=");
            push_hex2(out, value);
            out.append(") skip_next;");
        },
        Instruction::SkipEq { x, y } => {
            out.append("if(V");
            push_hex1(out, x);
            out.append("==V");
            push_hex1(out, y);
            out.append(") skip_next;");
        },
        Instruction::Load { x, value } => {
            out.append("V");
            push_hex1(out, x);
            out.append("=");
            push_hex2(out, value);
        },
        Instruction::AddImm { x, value } => {
            out.append("V");
            push_hex1(out, x);
            out.append("+=");
            push_hex2(out, value);
        },
        Instruction::Copy { x, y } => {
            out.append("V");
            push_hex1(out, x);
            out.append("=V");
            push_hex1(out, y);
        },
        Instruction::Or { x, y } => {
            out.append("V");
            push_hex1(out, x);
            out.append("=V");
            push_hex1(out, x);
            out.append("|V");
            push_hex1(out, y);
        },
        Instruction::And { x, y } => {
            out.append("V");
            push_hex1(out, x);
            out.append("=V");
            push_hex1(out, x);
            out.append("&V");
            push_hex1(out, y);
        },
        Instruction::Xor { x, y } => {
            out.append("V");
            push_hex1(out, x);
            out.append("=V");
            push_hex1(out, x);
            out.append("^V");
            push_hex1(out, y);
        },
        Instruction::Add { x, y } => {
            out.append("V");
            push_hex1(out, x);
            out.append("+=V");
            push_hex1(out, y);
        },
        Instruction::Sub { x, y } => {
            out.append("V");
            push_hex1(out, x);
            out.append("-=V");
            push_hex1(out, y);
        },
        Instruction::ShiftRight { x, .. } => {
            out.append("V");
            push_hex1(out, x);
            out.append(">>=1");
        },
        Instruction::SubReverse { x, y } => {
            out.append("V");
            push_hex1(out, x);
            out.append("=V");
            push_hex1(out, y);
            out.append("-V");
            push_hex1(out, x);
        },
        Instruction::ShiftLeft { x, .. } => {
            out.append("V");
            push_hex1(out, x);
            out.append("<<=1");
        },
        Instruction::SkipNe { x, y } => {
            out.append("if(V");
            push_hex1(out, x);
            out.append("!=V");
            push_hex1(out, y);
            out.append(") skip_next;");
        },
        Instruction::LoadIndex { address } => {
            out.append("I=0x");
            push_hex3(out, address);
        },
        Instruction::JumpOffset { address } => {
            out.append("PC=V0+0x");
            push_hex3(out, address);
        },
        Instruction::Random { x, mask } => {
            out.append("V");
            push_hex1(out, x);
            out.append("=rand() & 0x");
            push_hex2(out, mask);
        },
        Instruction::Draw { x, y, height } => {
            out.append("draw(V");
            push_hex1(out, x);
            out.append(", V");
            push_hex1(out, y);
            out.append(", 0x");
            push_hex1(out, height);
            out.append(")");
        },
        Instruction::SkipKey { x } => {
            out.append("if(key()==V");
            push_hex1(out, x);
            out.append(")");
        },
        Instruction::SkipNoKey { x } => {
            out.append("if(key()!=V");
            push_hex1(out, x);
            out.append(")");
        },
        Instruction::ReadDelay { x } => {
            out.append("V");
            push_hex1(out, x);
            out.append("=get_delay()");
        },
        Instruction::WaitKey { x } => {
            out.append("V");
            push_hex1(out, x);
            out.append("=get_key()");
        },
        Instruction::SetDelay { x } => {
            out.append("delay_timer(V");
            push_hex1(out, x);
            out.append(")");
        },
        Instruction::SetSound { x } => {
            out.append("sound_timer(V");
            push_hex1(out, x);
            out.append(")");
        },
        Instruction::AddIndex { x } => {
            out.append("I += V");
            push_hex1(out, x);
        },
        Instruction::Glyph { x } => {
            out.append("I = sprite_addr(V");
            push_hex1(out, x);
            out.append(")");
        },
        Instruction::Bcd { x } => {
            out.append("set_BCD(V");
            push_hex1(out, x);
            out.append(")");
        },
        Instruction::Store { x } => {
            out.append("reg_dump(V");
            push_hex1(out, x);
            out.append(", &I)");
        },
        Instruction::Fill { x } => {
            out.append("reg_load(V");
            push_hex1(out, x);
            out.append(", &I)");
        },
    }
    assert(out@ =~= old(out)@ + mnemonic(instruction));
}

/// Appends the text for the word `hi lo`.
pub fn push_word_text(out: &mut String, hi: u8, lo: u8)
    ensures
        final(out)@ == old(out)@ + word_text(hi, lo),
{
    match decode(hi, lo) {
        Some(instruction) => push_mnemonic(out, instruction),
        None => {
            out.append("UNKNOWN INSTRUCTION [");
            push_hex1(out, hi / 16);
            out.append(", ");
            push_hex1(out, hi % 16);
            out.append(", ");
            push_hex1(out, lo / 16);
            out.append(", ");
            push_hex1(out, lo % 16);
            out.append("]");
            assert(out@ =~= old(out)@ + unknown(hi, lo));
        },
    }
}

/// The listing of a program image: one line for each two-byte word.
pub fn disassemble_file(data: &[u8]) -> (text: String)
    requires
        data@.len() % 2 == 0,
    ensures
        text@ == listing(data@, data@.len() / 2),
{
    let mut buf = String::new();
    let mut total_read: usize = 0;
    let mut i: usize = 1;
    while total_read < data.len()
        invariant
            data@.len() % 2 == 0,
            total_read <= data@.len(),
            total_read == 2 * (i - 1),
            i >= 1,
            buf@ == listing(data@, (i - 1) as nat),
        decreases data@.len() - total_read,
    {
        let ghost before = buf@;
        let hi: u8 = data[total_read];
        let lo: u8 = data[total_read + 1];
        push_padded(&mut buf, i, 10, 2);
        buf.append(") ");
        push_padded(&mut buf, total_read, 16, 4);
        buf.append("\t");
        push_word_text(&mut buf, hi, lo);
        buf.append("\n");
        assert(buf@ =~= before + line((i - 1) as nat, hi, lo));
        total_read += 2;
        i += 1;
    }
    buf
}

} // verus!
