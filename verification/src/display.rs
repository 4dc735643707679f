//! The display: 64 by 32 monochrome pixels, drawn on by XOR, wrapping
//! around at every edge, and reporting whether a lit pixel went dark.

use vstd::prelude::*;

verus! {

/// Pixels in a row.
pub const WIDTH: usize = 64;

/// Rows on the display.
pub const HEIGHT: usize = 32;

/// Pixels on the display.
pub const PIXELS: usize = 2048;

/// Whether the sprite row `byte` has a pixel in its column `col`, counted
/// from the left: the most significant bit is column 0.
pub open spec fn sprite_bit(byte: u8, col: int) -> bool {
    byte & (0b1000_0000u8 >> (col as u8)) != 0
}

/// Whether the sprite row `byte`, drawn with its left edge at `x`, has a
/// pixel in the display column `c`. The eight columns of the sprite are
/// `x, x + 1, ..` taken modulo 64.
pub open spec fn row_hits(x: u8, byte: u8, c: int) -> bool {
    (c - x) % 64 < 8 && sprite_bit(byte, (c - x) % 64)
}

/// The screen after the sprite row `byte` was drawn with its left edge at
/// `x` on the display row `r`: every pixel that the row has is inverted.
pub open spec fn xor_row(screen: Seq<bool>, x: u8, r: int, byte: u8) -> Seq<bool> {
    Seq::new(screen.len(), |i: int| screen[i] != (i / 64 == r && row_hits(x, byte, i % 64)))
}

/// Whether drawing the sprite row `byte` at `x` on the display row `r`
/// turns a lit pixel of `screen` dark.
pub open spec fn row_collides(screen: Seq<bool>, x: u8, r: int, byte: u8) -> bool {
    exists|c: int| 0 <= c < 64 && row_hits(x, byte, c) && #[trigger] screen[r * 64 + c]
}

/// The screen after the first `rows` rows of `sprite` were drawn, one after
/// the other, at `(x, y)`, and whether any of them turned a lit pixel dark.
/// Row `k` of the sprite lands on the display row `(y + k) mod 32`.
pub open spec fn draw(screen: Seq<bool>, x: u8, y: u8, sprite: Seq<u8>, rows: nat) -> (
    Seq<bool>,
    bool,
)
    decreases rows,
{
    if rows == 0 {
        (screen, false)
    } else {
        let before = draw(screen, x, y, sprite, (rows - 1) as nat);
        let r = (y + rows - 1) % 32;
        let byte = sprite[rows - 1];
        (xor_row(before.0, x, r, byte), before.1 || row_collides(before.0, x, r, byte))
    }
}

/// A screen on which nothing is lit.
pub open spec fn blank() -> Seq<bool> {
    Seq::new(PIXELS as nat, |i: int| false)
}

/// The pixels of a display, row after row.
pub struct PixelBuf {
    gfx: [bool; 2048],
}

impl View for PixelBuf {
    type V = Seq<bool>;

    /// The 2048 pixels, row-major: the pixel in row `r` and column `c` is
    /// element `r * 64 + c`.
    closed spec fn view(&self) -> Seq<bool> {
        self.gfx@
    }
}

impl PixelBuf {
    /// A display on which nothing is lit.
    pub fn new() -> (buf: PixelBuf)
        ensures
            buf@ == blank(),
    {
        let buf = PixelBuf { gfx: [false; 2048] };
        assert(buf@ =~= blank());
        buf
    }

    /// Every display has 2048 pixels.
    pub proof fn lemma_len(&self)
        ensures
            self@.len() == PIXELS,
    {
    }

    /// Whether the pixel in row `row` and column `col` is lit.
    pub fn pixel(&self, row: usize, col: usize) -> (lit: bool)
        requires
            row < HEIGHT,
            col < WIDTH,
        ensures
            lit == self@[row * 64 + col],
        no_unwind
    {
        self.gfx[row * 64 + col]
    }

    /// Turns every pixel off.
    pub fn clear(&mut self)
        ensures
            final(self)@ == blank(),
        no_unwind
    {
        let mut i: usize = 0;
        while i < 2048
            invariant
                i <= 2048,
                forall|k: int| 0 <= k < i ==> !self.gfx@[k],
            decreases 2048 - i,
        {
            self.gfx[i] = false;
            i += 1;
        }
        assert(self@ =~= blank());
    }

    /// Draws the sprite row `byte` on the display row `row` with its left
    /// edge at `x`, wrapping around the right edge, and tells whether any
    /// pixel went from lit to dark.
    fn draw_row(&mut self, x: u8, row: usize, byte: u8) -> (flipped: bool)
        requires
            row < HEIGHT,
        ensures
            final(self)@ == xor_row(old(self)@, x, row as int, byte),
            flipped == row_collides(old(self)@, x, row as int, byte),
        no_unwind
    {
        let mut flipped = false;
        let mut xline: usize = 0;
        while xline < 8
            invariant
                xline <= 8,
                row < 32,
                self@ == xor_row_upto(old(self)@, x, row as int, byte, xline as int),
                flipped == row_collides_upto(old(self)@, x, row as int, byte, xline as int),
            decreases 8 - xline,
        {
            let pixel: bool = byte & (0b1000_0000u8 >> (xline as u8)) != 0;
            let col: usize = (x as usize + xline) % 64;
            let at: usize = row * 64 + col;
            let lit: bool = self.gfx[at];
            if pixel {
                if lit {
                    flipped = true;
                }
                self.gfx[at] = !lit;
            }
            proof {
                lemma_column(x, xline as int);
                let start = old(self)@;
                assert(lit == start[at as int]);
                assert forall|i: int| 0 <= i < 2048 implies self@[i] == xor_row_upto(
                    start,
                    x,
                    row as int,
                    byte,
                    xline + 1,
                )[i] by {
                    if i == at {
                        assert(i / 64 == row && i % 64 == col);
                    } else if i / 64 == row {
                        if (i % 64 - x) % 64 == xline {
                            lemma_column_unique(x, xline as int, i % 64);
                        }
                    }
                }
                assert(self@ =~= xor_row_upto(start, x, row as int, byte, xline + 1));
                if row_collides_upto(start, x, row as int, byte, xline + 1) {
                    let c = choose|c: int|
                        0 <= c < 64 && (c - x) % 64 < xline + 1 && row_hits(x, byte, c)
                            && #[trigger] start[row * 64 + c];
                    if (c - x) % 64 == xline {
                        lemma_column_unique(x, xline as int, c);
                    } else {
                        assert(row_collides_upto(start, x, row as int, byte, xline as int));
                    }
                }
                if pixel && lit {
                    assert(start[row * 64 + col]);
                }
            }
            xline += 1;
        }
        proof {
            assert(self@ =~= xor_row(old(self)@, x, row as int, byte));
            assert(flipped == row_collides(old(self)@, x, row as int, byte));
        }
        flipped
    }

    /// Draws the first `height` rows of `sprite` at `(x, y)` by XOR, wrapping
    /// around the right and the bottom edge, and tells whether any pixel went
    /// from lit to dark on the way.
    pub fn draw_sprite(&mut self, x: u8, y: u8, height: u8, sprite: &[u8]) -> (flipped: bool)
        requires
            sprite@.len() >= height,
        ensures
            (final(self)@, flipped) == draw(old(self)@, x, y, sprite@, height as nat),
        no_unwind
    {
        let mut flipped = false;
        let mut yline: usize = 0;
        while yline < height as usize
            invariant
                yline <= height,
                sprite@.len() >= height,
                (self@, flipped) == draw(old(self)@, x, y, sprite@, yline as nat),
            decreases height - yline,
        {
            let row: usize = (y as usize + yline) % 32;
            let row_flipped = self.draw_row(x, row, sprite[yline]);
            flipped = flipped || row_flipped;
            yline += 1;
        }
        flipped
    }
}

/// The column on which column `k` of a sprite at `x` lands is `k` columns
/// to the right of `x`, around the edge.
proof fn lemma_column(x: u8, k: int)
    requires
        0 <= k < 8,
    ensures
        0 <= (x + k) % 64 < 64,
        ((x + k) % 64 - x) % 64 == k,
{
}

/// The display row `r` holds the sprite row `k` of a sprite at `y` exactly
/// when `r` lies `k` rows below `y`, around the edge.
proof fn lemma_row(y: u8, k: int, r: int)
    requires
        0 <= k < 32,
        0 <= r < 32,
    ensures
        r == (y + k) % 32 <==> (r - y) % 32 == k,
{
}

/// No other column than `(x + k) mod 64` lies `k` columns to the right of `x`.
proof fn lemma_column_unique(x: u8, k: int, c: int)
    requires
        0 <= k < 8,
        0 <= c < 64,
        (c - x) % 64 == k,
    ensures
        c == (x + k) % 64,
{
}

/// `xor_row`, for the first `upto` columns of the sprite row only.
spec fn xor_row_upto(screen: Seq<bool>, x: u8, r: int, byte: u8, upto: int) -> Seq<bool> {
    Seq::new(
        screen.len(),
        |i: int| screen[i] != (i / 64 == r && (i % 64 - x) % 64 < upto && row_hits(x, byte, i % 64)),
    )
}

/// `row_collides`, for the first `upto` columns of the sprite row only.
spec fn row_collides_upto(screen: Seq<bool>, x: u8, r: int, byte: u8, upto: int) -> bool {
    exists|c: int|
        0 <= c < 64 && (c - x) % 64 < upto && row_hits(x, byte, c) && #[trigger] screen[r * 64 + c]
}

/// Whether one of the first `rows` rows of `sprite`, drawn at `(x, y)`, has
/// a pixel on the pixel `i` of the display.
pub open spec fn covered(x: u8, y: u8, sprite: Seq<u8>, rows: nat, i: int) -> bool {
    exists|k: int|
        0 <= k < rows && i / 64 == (y + k) % 32 && #[trigger] row_hits(x, sprite[k], i % 64)
}

/// Whether a sprite of at most 32 rows, drawn at `(x, y)`, has a pixel on
/// the pixel `i` of the display: the display row `r` holds the sprite row
/// `(r - y) mod 32`, and the display column `c` its column `(c - x) mod 64`.
pub open spec fn lit_by(x: u8, y: u8, sprite: Seq<u8>, rows: nat, i: int) -> bool {
    (i / 64 - y) % 32 < rows && row_hits(x, sprite[(i / 64 - y) % 32], i % 64)
}

/// Drawing keeps the number of pixels.
pub proof fn lemma_draw_len(screen: Seq<bool>, x: u8, y: u8, sprite: Seq<u8>, rows: nat)
    ensures
        draw(screen, x, y, sprite, rows).0.len() == screen.len(),
    decreases rows,
{
    if rows > 0 {
        lemma_draw_len(screen, x, y, sprite, (rows - 1) as nat);
    }
}

proof fn lemma_xor_row_twice(screen: Seq<bool>, x: u8, r: int, byte: u8)
    ensures
        xor_row(xor_row(screen, x, r, byte), x, r, byte) == screen,
{
    assert(xor_row(xor_row(screen, x, r, byte), x, r, byte) =~= screen);
}

proof fn lemma_xor_row_commutes(screen: Seq<bool>, x: u8, r: int, byte: u8, q: int, other: u8)
    ensures
        xor_row(xor_row(screen, x, r, byte), x, q, other) == xor_row(
            xor_row(screen, x, q, other),
            x,
            r,
            byte,
        ),
{
    assert(xor_row(xor_row(screen, x, r, byte), x, q, other) =~= xor_row(
        xor_row(screen, x, q, other),
        x,
        r,
        byte,
    ));
}

proof fn lemma_draw_after_xor_row(
    screen: Seq<bool>,
    x: u8,
    y: u8,
    sprite: Seq<u8>,
    rows: nat,
    r: int,
    byte: u8,
)
    ensures
        draw(xor_row(screen, x, r, byte), x, y, sprite, rows).0 == xor_row(
            draw(screen, x, y, sprite, rows).0,
            x,
            r,
            byte,
        ),
    decreases rows,
{
    if rows > 0 {
        let fewer = (rows - 1) as nat;
        lemma_draw_after_xor_row(screen, x, y, sprite, fewer, r, byte);
        lemma_xor_row_commutes(
            draw(screen, x, y, sprite, fewer).0,
            x,
            r,
            byte,
            (y + rows - 1) % 32,
            sprite[rows - 1],
        );
    }
}

/// Drawing is its own inverse: the same sprite drawn a second time at the
/// same place leaves every pixel as it was before the first.
pub proof fn lemma_draw_twice(screen: Seq<bool>, x: u8, y: u8, sprite: Seq<u8>, rows: nat)
    ensures
        draw(draw(screen, x, y, sprite, rows).0, x, y, sprite, rows).0 == screen,
    decreases rows,
{
    if rows > 0 {
        let fewer = (rows - 1) as nat;
        let r = (y + rows - 1) % 32;
        let byte = sprite[rows - 1];
        let partly = draw(screen, x, y, sprite, fewer).0;
        lemma_draw_twice(screen, x, y, sprite, fewer);
        lemma_draw_after_xor_row(partly, x, y, sprite, fewer, r, byte);
        lemma_xor_row_twice(screen, x, r, byte);
    }
}

/// Where drawing reports no collision, every pixel that the sprite covers
/// was dark and is lit, and every other pixel is as it was.
pub proof fn lemma_draw_without_collision(
    screen: Seq<bool>,
    x: u8,
    y: u8,
    sprite: Seq<u8>,
    rows: nat,
)
    requires
        screen.len() == PIXELS,
        sprite.len() >= rows,
        !draw(screen, x, y, sprite, rows).1,
    ensures
        forall|i: int|
            #![trigger covered(x, y, sprite, rows, i)]
            0 <= i < PIXELS && covered(x, y, sprite, rows, i) ==> !screen[i] && draw(
                screen,
                x,
                y,
                sprite,
                rows,
            ).0[i],
        forall|i: int|
            #![trigger covered(x, y, sprite, rows, i)]
            0 <= i < PIXELS && !covered(x, y, sprite, rows, i) ==> draw(
                screen,
                x,
                y,
                sprite,
                rows,
            ).0[i] == screen[i],
    decreases rows,
{
    if rows > 0 {
        let fewer = (rows - 1) as nat;
        let r = (y + rows - 1) % 32;
        let byte = sprite[rows - 1];
        let before = draw(screen, x, y, sprite, fewer).0;
        let after = draw(screen, x, y, sprite, rows).0;
        lemma_draw_without_collision(screen, x, y, sprite, fewer);
        lemma_draw_len(screen, x, y, sprite, fewer);
        assert forall|i: int| 0 <= i < PIXELS implies if #[trigger] covered(x, y, sprite, rows, i) {
            !screen[i] && after[i]
        } else {
            after[i] == screen[i]
        } by {
            let hit = i / 64 == r && row_hits(x, byte, i % 64);
            if hit {
                // The last row collides with nothing.
                assert(!before[r * 64 + i % 64]);
                assert(covered(x, y, sprite, rows, i));
            }
            if covered(x, y, sprite, fewer, i) {
                let k = choose|k: int|
                    0 <= k < fewer && i / 64 == (y + k) % 32 && #[trigger] row_hits(
                        x,
                        sprite[k],
                        i % 64,
                    );
                assert(covered(x, y, sprite, rows, i));
            } else if covered(x, y, sprite, rows, i) {
                assert(hit);
            }
        }
    }
}

/// On a blank screen, a sprite with at least one pixel, drawn twice at the
/// same place, reports a collision the second time.
pub proof fn lemma_redraw_collides(x: u8, y: u8, sprite: Seq<u8>, rows: nat, k: int, col: int)
    requires
        sprite.len() >= rows,
        0 <= k < rows,
        0 <= col < 8,
        sprite_bit(sprite[k], col),
    ensures
        draw(draw(blank(), x, y, sprite, rows).0, x, y, sprite, rows).1,
{
    let first = draw(blank(), x, y, sprite, rows).0;
    let second = draw(first, x, y, sprite, rows);
    lemma_draw_len(blank(), x, y, sprite, rows);
    lemma_draw_twice(blank(), x, y, sprite, rows);
    if !second.1 {
        lemma_draw_without_collision(first, x, y, sprite, rows);
        let c = (x + col) % 64;
        let i = ((y + k) % 32) * 64 + c;
        lemma_column(x, col);
        assert(i / 64 == (y + k) % 32 && i % 64 == c);
        assert(row_hits(x, sprite[k], i % 64));
        assert(covered(x, y, sprite, rows, i));
        assert(second.0[i]);
        assert(!blank()[i]);
    }
}

/// On a blank screen a sprite of at most 32 rows never collides, and
/// lights exactly the pixels that it has.
pub proof fn lemma_draw_on_blank(x: u8, y: u8, sprite: Seq<u8>, rows: nat)
    requires
        sprite.len() >= rows,
        rows <= 32,
    ensures
        !draw(blank(), x, y, sprite, rows).1,
        forall|i: int|
            0 <= i < PIXELS ==> draw(blank(), x, y, sprite, rows).0[i] == #[trigger] lit_by(
                x,
                y,
                sprite,
                rows,
                i,
            ),
{
    lemma_draw_wraps(blank(), x, y, sprite, rows);
}

/// A sprite of at most 32 rows touches no pixel twice, so what it does can
/// be told pixel by pixel: a pixel is inverted if and only if the sprite,
/// wrapped around the right and the bottom edge, has a pixel there, and a
/// collision is reported if and only if one of those pixels was lit.
pub proof fn lemma_draw_wraps(screen: Seq<bool>, x: u8, y: u8, sprite: Seq<u8>, rows: nat)
    requires
        screen.len() == PIXELS,
        sprite.len() >= rows,
        rows <= 32,
    ensures
        forall|i: int|
            0 <= i < PIXELS ==> draw(screen, x, y, sprite, rows).0[i] == (screen[i]
                != #[trigger] lit_by(x, y, sprite, rows, i)),
        draw(screen, x, y, sprite, rows).1 <==> exists|i: int|
            0 <= i < PIXELS && lit_by(x, y, sprite, rows, i) && #[trigger] screen[i],
    decreases rows,
{
    if rows > 0 {
        let fewer = (rows - 1) as nat;
        let r = (y + rows - 1) % 32;
        let byte = sprite[rows - 1];
        let before = draw(screen, x, y, sprite, fewer);
        let after = draw(screen, x, y, sprite, rows);
        lemma_draw_wraps(screen, x, y, sprite, fewer);
        lemma_draw_len(screen, x, y, sprite, fewer);
        assert forall|i: int| 0 <= i < PIXELS implies after.0[i] == (screen[i] != #[trigger] lit_by(
            x,
            y,
            sprite,
            rows,
            i,
        )) by {
            assert(before.0[i] == (screen[i] != lit_by(x, y, sprite, fewer, i)));
            lemma_row(y, rows - 1, i / 64);
        }
        let some_lit = exists|i: int|
            0 <= i < PIXELS && lit_by(x, y, sprite, rows, i) && #[trigger] screen[i];
        if before.1 {
            let i = choose|i: int|
                0 <= i < PIXELS && lit_by(x, y, sprite, fewer, i) && #[trigger] screen[i];
            assert(lit_by(x, y, sprite, rows, i) && screen[i]);
        }
        if row_collides(before.0, x, r, byte) {
            let c = choose|c: int|
                0 <= c < 64 && row_hits(x, byte, c) && #[trigger] before.0[r * 64 + c];
            let i = r * 64 + c;
            assert(i / 64 == r && i % 64 == c);
            lemma_row(y, rows - 1, i / 64);
            assert(!lit_by(x, y, sprite, fewer, i));
            assert(lit_by(x, y, sprite, rows, i) && screen[i]);
        }
        if some_lit {
            let i = choose|i: int|
                0 <= i < PIXELS && lit_by(x, y, sprite, rows, i) && #[trigger] screen[i];
            lemma_row(y, rows - 1, i / 64);
            if lit_by(x, y, sprite, fewer, i) {
                assert(before.1);
            } else {
                assert(i / 64 == r && row_hits(x, byte, i % 64));
                assert(i == r * 64 + i % 64);
                assert(before.0[r * 64 + i % 64]);
                assert(row_collides(before.0, x, r, byte));
            }
        }
    }
}

} // verus!
