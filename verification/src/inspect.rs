//! A machine at a glance: its registers, timers and stack laid out as a
//! table of text.

use vstd::prelude::*;
use vstd::string::StringExecFns;
use crate::chip8::Chip8;
use crate::machine::Machine;
use crate::text::{hex1, hex2, hex4, push_hex1, push_hex2, push_hex4};

verus! {

/// The text that `comfy_table` renders for a table with the given header
/// cells and rows of cells, in its default style.
pub uninterp spec fn table_text(header: Seq<Seq<char>>, rows: Seq<Seq<Seq<char>>>) -> Seq<char>;

/// Renders a table with `comfy_table`: `Table::new`, terminal detection
/// switched off with `force_no_tty`, then `set_header`, `add_rows` and the
/// table's `to_string`. With the default arrangement and no styling on any
/// cell, the text is a function of the cells alone, and that function is
/// all that is claimed of it.
#[verifier::external_body]
fn render_table(header: Vec<String>, rows: Vec<Vec<String>>) -> (text: String)
    ensures
        text@ == table_text(header.deep_view(), rows.deep_view()),
{
    let mut table = comfy_table::Table::new();
    table.force_no_tty().set_header(header).add_rows(rows);
    table.to_string()
}

/// The five column titles.
pub open spec fn header_cells() -> Seq<Seq<char>> {
    seq!["Other registers"@, "V0-V7"@, "V8-VF"@, "Stack 0-7"@, "Stack 8-F"@]
}

/// The cell for register `r`: its name and its value as two digits.
pub open spec fn register_cell(m: Machine, r: int) -> Seq<char> {
    "V"@ + hex1(r as u8) + " 0x"@ + hex2(m.v[r])
}

/// The cell for slot `k` of the stack: its name and what the slot holds as
/// four digits, whether a return address is waiting in it or not.
pub open spec fn stack_cell(m: Machine, k: int) -> Seq<char> {
    "SP"@ + hex1(k as u8) + " 0x"@ + hex4(m.slots[k])
}

/// The first cell of row `r`: `I`, the program counter, the two timers and
/// the depth of the stack in the first five rows, nothing below.
pub open spec fn other_cell(m: Machine, r: int) -> Seq<char> {
    if r == 0 {
        "I 0x"@ + hex4(m.index)
    } else if r == 1 {
        "PC 0x"@ + hex4(m.pc)
    } else if r == 2 {
        "DT 0x"@ + hex2(m.delay)
    } else if r == 3 {
        "ST 0x"@ + hex2(m.sound)
    } else if r == 4 {
        "SP 0x"@ + hex4(m.depth as u16)
    } else {
        Seq::empty()
    }
}

/// Row `r` of the table, of eight: the first cell, the registers `r` and
/// `r + 8`, and the stack slots `r` and `r + 8`.
pub open spec fn row_cells(m: Machine, r: int) -> Seq<Seq<char>> {
    seq![
        other_cell(m, r),
        register_cell(m, r),
        register_cell(m, r + 8),
        stack_cell(m, r),
        stack_cell(m, r + 8),
    ]
}

/// The eight rows of the table.
pub open spec fn table_cells(m: Machine) -> Seq<Seq<Seq<char>>> {
    Seq::new(8, |r: int| row_cells(m, r))
}

fn header() -> (cells: Vec<String>)
    ensures
        cells.deep_view() == header_cells(),
{
    let mut cells: Vec<String> = Vec::new();
    cells.push(String::from_str("Other registers"));
    cells.push(String::from_str("V0-V7"));
    cells.push(String::from_str("V8-VF"));
    cells.push(String::from_str("Stack 0-7"));
    cells.push(String::from_str("Stack 8-F"));
    assert(cells.deep_view() =~~= header_cells());
    cells
}

impl Chip8 {
    fn register_cell(&self, r: u8) -> (cell: String)
        requires
            r < 16,
        ensures
            cell@ == register_cell(self@, r as int),
    {
        let mut cell = String::from_str("V");
        push_hex1(&mut cell, r);
        cell.append(" 0x");
        push_hex2(&mut cell, self.register(r));
        cell
    }

    fn stack_cell(&self, k: u8) -> (cell: String)
        requires
            k < 16,
        ensures
            cell@ == stack_cell(self@, k as int),
    {
        let mut cell = String::from_str("SP");
        push_hex1(&mut cell, k);
        cell.append(" 0x");
        let shown: u16 = self.stack_slot(k);
        push_hex4(&mut cell, shown);
        cell
    }

    fn other_cell(&self, r: u8) -> (cell: String)
        ensures
            cell@ == other_cell(self@, r as int),
    {
        let mut cell = String::new();
        if r == 0 {
            cell.append("I 0x");
            push_hex4(&mut cell, self.index());
        } else if r == 1 {
            cell.append("PC 0x");
            push_hex4(&mut cell, self.program_counter());
        } else if r == 2 {
            cell.append("DT 0x");
            push_hex2(&mut cell, self.delay_timer());
        } else if r == 3 {
            cell.append("ST 0x");
            push_hex2(&mut cell, self.sound_timer());
        } else if r == 4 {
            cell.append("SP 0x");
            push_hex4(&mut cell, self.stack_depth() as u16);
        }
        assert(cell@ =~= other_cell(self@, r as int));
        cell
    }

    /// The cells of the table, row by row, without the header.
    pub fn table_cells(&self) -> (rows: Vec<Vec<String>>)
        ensures
            rows.deep_view() == table_cells(self@),
    {
        let mut rows: Vec<Vec<String>> = Vec::new();
        let mut r: u8 = 0;
        while r < 8
            invariant
                r <= 8,
                rows@.len() == r,
                forall|k: int| 0 <= k < r ==> (#[trigger] rows@[k]).deep_view() == row_cells(self@, k),
            decreases 8 - r,
        {
            let mut row: Vec<String> = Vec::new();
            row.push(self.other_cell(r));
            row.push(self.register_cell(r));
            row.push(self.register_cell(r + 8));
            row.push(self.stack_cell(r));
            row.push(self.stack_cell(r + 8));
            assert(row.deep_view() =~~= row_cells(self@, r as int));
            rows.push(row);
            r += 1;
        }
        assert(rows.deep_view() =~~= table_cells(self@));
        rows
    }

    /// The machine as a table: one column for `I`, the program counter, the
    /// timers and the depth of the stack, two for the registers and two for
    /// the stack.
    pub fn debug_table(&self) -> (text: String)
        ensures
            text@ == table_text(header_cells(), table_cells(self@)),
    {
        render_table(header(), self.table_cells())
    }
}

} // verus!
