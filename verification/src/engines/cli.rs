//! The engine for a text terminal: the display as 32 lines of 64
//! characters.

use vstd::prelude::*;
use vstd::string::StringExecFns;
use crate::display::{blank, draw, lemma_draw_on_blank, PixelBuf};
use crate::engine::Engine;
use crate::rng::{mixed, seed, RngState};

verus! {

/// What an engine with a display and a generator holds.
pub struct EngineState {
    /// The 2048 pixels of the display, row after row.
    pub screen: Seq<bool>,
    /// The four lanes of the generator.
    pub lanes: (u8, u8, u8, u8),
}

/// The display as text: 32 lines of 64 characters, `#` for a lit pixel and
/// a blank for a dark one, each line ended by a line feed.
pub open spec fn frame_text(screen: Seq<bool>) -> Seq<char> {
    Seq::new(
        32 * 65,
        |j: int|
            if j % 65 == 64 {
                '\n'
            } else if screen[(j / 65) * 64 + j % 65] {
                '#'
            } else {
                ' '
            },
    )
}

/// An engine that keeps the display in memory and shows it as text.
pub struct CliEngine {
    pbuf: PixelBuf,
    rng: RngState,
}

impl View for CliEngine {
    type V = EngineState;

    closed spec fn view(&self) -> EngineState {
        EngineState { screen: self.pbuf@, lanes: self.rng@ }
    }
}

impl CliEngine {
    /// An engine with a blank display and a generator at its start.
    pub fn new() -> (engine: CliEngine)
        ensures
            engine@ == (EngineState { screen: blank(), lanes: seed() }),
    {
        CliEngine { pbuf: PixelBuf::new(), rng: RngState::new() }
    }

    /// Whether the pixel in row `row` and column `col` is lit.
    pub fn pixel(&self, row: usize, col: usize) -> (lit: bool)
        requires
            row < 32,
            col < 64,
        ensures
            lit == self@.screen[row * 64 + col],
    {
        self.pbuf.pixel(row, col)
    }

    /// The display as text.
    pub fn frame(&self) -> (text: String)
        ensures
            text@ == frame_text(self@.screen),
    {
        let ghost whole = frame_text(self@.screen);
        let mut text = String::new();
        let mut row: usize = 0;
        proof {
            reveal_strlit("#");
            reveal_strlit(" ");
            reveal_strlit("\n");
        }
        while row < 32
            invariant
                row <= 32,
                whole == frame_text(self@.screen),
                "#"@ == seq!['#'],
                " "@ == seq![' '],
                "\n"@ == seq!['\n'],
                text@ == whole.subrange(0, row * 65),
            decreases 32 - row,
        {
            let mut col: usize = 0;
            while col < 64
                invariant
                    row < 32,
                    col <= 64,
                    whole == frame_text(self@.screen),
                    "#"@ == seq!['#'],
                    " "@ == seq![' '],
                    text@ == whole.subrange(0, row * 65 + col),
                decreases 64 - col,
            {
                let ghost j = (row * 65 + col) as int;
                assert(j % 65 == col && j / 65 == row);
                if self.pbuf.pixel(row, col) {
                    text.append("#");
                } else {
                    text.append(" ");
                }
                assert(text@ =~= whole.subrange(0, j + 1));
                col += 1;
            }
            let ghost j = (row * 65 + 64) as int;
            assert(j % 65 == 64);
            text.append("\n");
            assert(text@ =~= whole.subrange(0, (row + 1) * 65));
            row += 1;
        }
        assert(text@ =~= whole);
        text
    }
}

impl Engine for CliEngine {
    /// The sprite is drawn on the display in memory, the answer is what the
    /// display reports, and the generator is left alone.
    open spec fn draws(
        &self,
        after: &Self,
        x: u8,
        y: u8,
        height: u8,
        sprite: Seq<u8>,
        collided: bool,
    ) -> bool {
        &&& (after@.screen, collided) == draw(self@.screen, x, y, sprite, height as nat)
        &&& after@.lanes == self@.lanes
    }

    /// The generator takes one step, the answer is the byte of that step,
    /// and the display is left alone.
    open spec fn gives(&self, after: &Self, byte: u8) -> bool {
        &&& after@.lanes == mixed(self@.lanes)
        &&& byte == after@.lanes.3
        &&& after@.screen == self@.screen
    }

    /// The display is blank, and the generator is left alone.
    open spec fn clears(&self, after: &Self) -> bool {
        &&& after@.screen == blank()
        &&& after@.lanes == self@.lanes
    }

    fn draw_sprite(&mut self, x: u8, y: u8, height: u8, sprite: &[u8]) -> (collided: bool) {
        self.pbuf.draw_sprite(x, y, height, sprite)
    }

    fn rand(&mut self) -> (byte: u8) {
        self.rng.next()
    }

    fn clear_screen(&mut self) {
        self.pbuf.clear();
    }
}

/// On a display that was just cleared, a sprite of at most 32 rows, and so
/// every sprite that a machine draws, reports no collision.
pub proof fn lemma_draw_after_clear(
    before: CliEngine,
    cleared: CliEngine,
    drawn: CliEngine,
    x: u8,
    y: u8,
    height: u8,
    sprite: Seq<u8>,
    collided: bool,
)
    requires
        before.clears(&cleared),
        cleared.draws(&drawn, x, y, height, sprite, collided),
        sprite.len() >= height,
        height <= 32,
    ensures
        !collided,
{
    lemma_draw_on_blank(x, y, sprite, height as nat);
}

} // verus!
