//! The engine for a window: the display as a buffer of colours, each pixel
//! a square of `scale` by `scale` dots.

use vstd::prelude::*;
use vstd::arithmetic::div_mod::{lemma_fundamental_div_mod, lemma_fundamental_div_mod_converse};
use crate::display::{blank, draw, PixelBuf};
use crate::engine::Engine;
use crate::rng::{mixed, seed, RngState};

verus! {

/// The colour of a lit pixel.
pub const LIT: u32 = 0xFF;

/// The colour of a dark pixel.
pub const DARK: u32 = 0x0;

/// The colour of a pixel.
pub open spec fn colour(lit: bool) -> u32 {
    if lit {
        LIT
    } else {
        DARK
    }
}

/// The row of the pixel that dot `j` of a window belongs to, where one
/// pixel is `scale` by `scale` dots and a line has `64 * scale` dots.
pub open spec fn pixel_row(j: int, scale: int) -> int {
    (j / (64 * scale)) / scale
}

/// The column of the pixel that dot `j` of a window belongs to.
pub open spec fn pixel_col(j: int, scale: int) -> int {
    (j % (64 * scale)) / scale
}

/// The dots of a window that shows `screen` with every pixel enlarged to a
/// square of `scale` by `scale` dots: `64 * scale` dots in a line, line
/// after line, each with the colour of the pixel it belongs to.
pub open spec fn enlarged(screen: Seq<bool>, scale: nat) -> Seq<u32> {
    Seq::new(
        2048 * scale * scale,
        |j: int| colour(screen[pixel_row(j, scale as int) * 64 + pixel_col(j, scale as int)]),
    )
}

/// The line of dot `j` within the square of its pixel.
spec fn line_in_pixel(j: int, scale: int) -> int {
    (j / (64 * scale)) % scale
}

/// The column of dot `j` within the square of its pixel.
spec fn col_in_pixel(j: int, scale: int) -> int {
    (j % (64 * scale)) % scale
}

/// What a window engine holds.
pub struct WindowState {
    /// The 2048 pixels of the display, row after row.
    pub screen: Seq<bool>,
    /// The four lanes of the generator.
    pub lanes: (u8, u8, u8, u8),
    /// The side of the square of dots that shows one pixel.
    pub scale: nat,
    /// The dots of the window, line after line.
    pub buffer: Seq<u32>,
}

/// An engine that keeps the display in memory and paints it, enlarged, into
/// a buffer of colours.
pub struct MinifbEngine {
    pbuf: PixelBuf,
    rng: RngState,
    buffer: Vec<u32>,
    width: usize,
    height: usize,
    scale: usize,
}

impl View for MinifbEngine {
    type V = WindowState;

    closed spec fn view(&self) -> WindowState {
        WindowState {
            screen: self.pbuf@,
            lanes: self.rng@,
            scale: self.scale as nat,
            buffer: self.buffer@,
        }
    }
}

/// The dot in column `x * scale + xo` of line `y * scale + yo` is dot
/// number `x * scale + xo + width * (y * scale + yo)`, and belongs to the
/// pixel `(x, y)`.
proof fn lemma_dot(scale: int, x: int, y: int, xo: int, yo: int)
    requires
        0 <= x < 64,
        0 <= y < 32,
        0 <= xo < scale,
        0 <= yo < scale,
    ensures
        ({
            let w = 64 * scale;
            let j = x * scale + xo + w * (y * scale + yo);
            &&& 0 <= x * scale <= 63 * scale
            &&& 0 <= y * scale <= 31 * scale
            &&& 0 <= y * scale * w <= 31 * scale * w
            &&& y * scale * w + w * yo == w * (y * scale + yo)
            &&& 0 <= w * yo < w * scale
            &&& 0 <= j < 2048 * scale * scale
            &&& j / w == y * scale + yo
            &&& j % w == x * scale + xo
            &&& pixel_row(j, scale) == y
            &&& line_in_pixel(j, scale) == yo
            &&& pixel_col(j, scale) == x
            &&& col_in_pixel(j, scale) == xo
        }),
{
    let w = 64 * scale;
    let c = x * scale + xo;
    let l = y * scale + yo;
    let j = c + w * l;
    assert(0 <= x * scale <= 63 * scale) by (nonlinear_arith)
        requires
            0 <= x < 64,
            scale > 0,
    ;
    assert(0 <= y * scale <= 31 * scale) by (nonlinear_arith)
        requires
            0 <= y < 32,
            scale > 0,
    ;
    assert(0 <= y * scale * w <= 31 * scale * w && y * scale * w + w * yo == w * (y * scale + yo)
        && 0 <= w * yo < w * scale) by (nonlinear_arith)
        requires
            0 <= y * scale <= 31 * scale,
            0 <= yo < scale,
            w == 64 * scale,
            scale > 0,
    ;
    assert(0 <= w * l <= w * (32 * scale - 1) && w * (32 * scale - 1) == 2048 * scale * scale - w
        && j == l * w + c) by (nonlinear_arith)
        requires
            0 <= l <= 32 * scale - 1,
            w == 64 * scale,
            scale > 0,
            j == c + w * l,
    ;
    lemma_fundamental_div_mod_converse(j, w, l, c);
    assert(c == x * scale + xo && l == y * scale + yo);
    lemma_fundamental_div_mod_converse(c, scale, x, xo);
    lemma_fundamental_div_mod_converse(l, scale, y, yo);
}

/// Every dot of the window belongs to one pixel, and is found again from
/// the pixel and its place in the pixel's square.
proof fn lemma_dot_of(scale: int, j: int)
    requires
        scale > 0,
        0 <= j < 2048 * scale * scale,
    ensures
        ({
            let w = 64 * scale;
            let x = pixel_col(j, scale);
            let y = pixel_row(j, scale);
            let xo = col_in_pixel(j, scale);
            let yo = line_in_pixel(j, scale);
            &&& 0 <= x < 64
            &&& 0 <= y < 32
            &&& 0 <= xo < scale
            &&& 0 <= yo < scale
            &&& j == x * scale + xo + w * (y * scale + yo)
        }),
{
    let w = 64 * scale;
    let c = j % w;
    let l = j / w;
    lemma_fundamental_div_mod(j, w);
    lemma_fundamental_div_mod(c, scale);
    lemma_fundamental_div_mod(l, scale);
    assert(0 <= c < w);
    assert(0 <= l < 32 * scale) by (nonlinear_arith)
        requires
            j == w * l + c,
            0 <= c < w,
            0 <= j < 2048 * scale * scale,
            w == 64 * scale,
            scale > 0,
    ;
    let x = c / scale;
    let y = l / scale;
    assert(0 <= c % scale < scale && 0 <= l % scale < scale);
    assert(0 <= x < 64) by (nonlinear_arith)
        requires
            c == scale * x + c % scale,
            0 <= c % scale < scale,
            0 <= c < 64 * scale,
            scale > 0,
    ;
    assert(0 <= y < 32) by (nonlinear_arith)
        requires
            l == scale * y + l % scale,
            0 <= l % scale < scale,
            0 <= l < 32 * scale,
            scale > 0,
    ;
    assert(scale * x == x * scale && scale * y == y * scale) by (nonlinear_arith);
}

/// Gives every dot of the square of the pixel `(x, y)` the colour `dot`.
fn paint_pixel(buffer: &mut Vec<u32>, scale: usize, x: usize, y: usize, dot: u32)
    requires
        x < 64,
        y < 32,
        scale > 0,
        2048 * scale * scale <= usize::MAX,
        old(buffer)@.len() == 2048 * scale * scale,
    ensures
        final(buffer)@.len() == old(buffer)@.len(),
        forall|j: int|
            0 <= j < final(buffer)@.len() ==> #[trigger] final(buffer)@[j] == if pixel_row(j, scale as int) == y && pixel_col(j, scale as int) == x {
                dot
            } else {
                old(buffer)@[j]
            },
    no_unwind
{
    assert(64 * scale <= 2048 * scale * scale) by (nonlinear_arith)
        requires
            scale >= 1,
    ;
    let width: usize = 64 * scale;
    let mut x_offset: usize = 0;
    while x_offset < scale
        invariant
            x < 64,
            y < 32,
            scale > 0,
            width == 64 * scale,
            2048 * scale * scale <= usize::MAX,
            x_offset <= scale,
            buffer@.len() == 2048 * scale * scale,
            buffer@.len() == old(buffer)@.len(),
            forall|j: int|
                0 <= j < buffer@.len() ==> #[trigger] buffer@[j] == if pixel_row(j, scale as int) == y && pixel_col(j, scale as int) == x && col_in_pixel(j, scale as int) < x_offset {
                    dot
                } else {
                    old(buffer)@[j]
                },
        decreases scale - x_offset,
    {
        let mut y_offset: usize = 0;
        while y_offset < scale
            invariant
                x < 64,
                y < 32,
                scale > 0,
                width == 64 * scale,
                2048 * scale * scale <= usize::MAX,
                x_offset < scale,
                y_offset <= scale,
                buffer@.len() == 2048 * scale * scale,
                buffer@.len() == old(buffer)@.len(),
                forall|j: int|
                    0 <= j < buffer@.len() ==> #[trigger] buffer@[j] == if pixel_row(j, scale as int) == y && pixel_col(j, scale as int) == x && (col_in_pixel(j, scale as int) < x_offset || (col_in_pixel(j, scale as int) == x_offset && line_in_pixel(j, scale as int) < y_offset)) {
                        dot
                    } else {
                        old(buffer)@[j]
                    },
            decreases scale - y_offset,
        {
            proof {
                lemma_dot(scale as int, x as int, y as int, x_offset as int, y_offset as int);
            }
            let at: usize = (x * scale) + x_offset + (y * scale * width) + width * y_offset;
            let ghost before = buffer@;
            buffer[at] = dot;
            proof {
                assert forall|j: int| 0 <= j < buffer@.len() implies #[trigger] buffer@[j] == if pixel_row(j, scale as int) == y && pixel_col(j, scale as int)
                    == x && (col_in_pixel(j, scale as int) < x_offset || (col_in_pixel(j, scale as int) == x_offset && line_in_pixel(j, scale as int) < y_offset
                    + 1)) {
                    dot
                } else {
                    old(buffer)@[j]
                } by {
                    if j != at {
                        lemma_dot_of(scale as int, j);
                        assert(buffer@[j] == before[j]);
                    }
                }
            }
            y_offset += 1;
        }
        proof {
            assert forall|j: int| 0 <= j < buffer@.len() implies #[trigger] buffer@[j] == if pixel_row(j, scale as int) == y && pixel_col(j, scale as int) == x && col_in_pixel(j, scale as int) < x_offset + 1 {
                dot
            } else {
                old(buffer)@[j]
            } by {
                lemma_dot_of(scale as int, j);
            }
        }
        x_offset += 1;
    }
    proof {
        assert forall|j: int| 0 <= j < buffer@.len() implies #[trigger] buffer@[j] == if pixel_row(j, scale as int) == y && pixel_col(j, scale as int) == x {
            dot
        } else {
            old(buffer)@[j]
        } by {
            lemma_dot_of(scale as int, j);
        }
    }
}

/// Paints the whole display into the buffer, pixel by pixel.
fn paint(buffer: &mut Vec<u32>, pbuf: &PixelBuf, scale: usize)
    requires
        scale > 0,
        2048 * scale * scale <= usize::MAX,
        old(buffer)@.len() == 2048 * scale * scale,
    ensures
        final(buffer)@ == enlarged(pbuf@, scale as nat),
    no_unwind
{
    proof {
        pbuf.lemma_len();
    }
    let mut y: usize = 0;
    while y < 32
        invariant
            y <= 32,
            scale > 0,
            2048 * scale * scale <= usize::MAX,
            buffer@.len() == 2048 * scale * scale,
            forall|j: int|
                0 <= j < buffer@.len() && pixel_row(j, scale as int) < y
                    ==> #[trigger] buffer@[j] == enlarged(pbuf@, scale as nat)[j],
        decreases 32 - y,
    {
        let mut x: usize = 0;
        while x < 64
            invariant
                y < 32,
                x <= 64,
                scale > 0,
                2048 * scale * scale <= usize::MAX,
                buffer@.len() == 2048 * scale * scale,
                forall|j: int|
                    0 <= j < buffer@.len() && (pixel_row(j, scale as int) < y || (pixel_row(j, scale as int) == y && pixel_col(j, scale as int) < x))
                        ==> #[trigger] buffer@[j] == enlarged(pbuf@, scale as nat)[j],
            decreases 64 - x,
        {
            let dot: u32 = if pbuf.pixel(y, x) {
                LIT
            } else {
                DARK
            };
            paint_pixel(buffer, scale, x, y, dot);
            x += 1;
        }
        proof {
            assert forall|j: int|
                0 <= j < buffer@.len() && pixel_row(j, scale as int) < y + 1
                    implies #[trigger] buffer@[j] == enlarged(pbuf@, scale as nat)[j] by {
                lemma_dot_of(scale as int, j);
            }
        }
        y += 1;
    }
    proof {
        assert forall|j: int| 0 <= j < buffer@.len() implies buffer@[j] == enlarged(
            pbuf@,
            scale as nat,
        )[j] by {
            lemma_dot_of(scale as int, j);
        }
        assert(buffer@ =~= enlarged(pbuf@, scale as nat));
    }
}

impl MinifbEngine {
    #[verifier::type_invariant]
    closed spec fn sized(&self) -> bool {
        &&& self.width == 64 * self.scale
        &&& self.height == 32 * self.scale
        &&& self.buffer@.len() == 2048 * self.scale * self.scale
        &&& 2048 * self.scale * self.scale <= usize::MAX
    }

    /// An engine for a window of `64 * scale` by `32 * scale` dots, with a
    /// blank display, a dark buffer and a generator at its start; `None`
    /// where the number of dots is more than a buffer can hold.
    pub fn create(scale: usize) -> (engine: Option<MinifbEngine>)
        ensures
            engine is Some <==> 2048 * scale * scale <= usize::MAX,
            engine matches Some(e) ==> e@ == (WindowState {
                screen: blank(),
                lanes: seed(),
                scale: scale as nat,
                buffer: enlarged(blank(), scale as nat),
            }),
    {
        let width = match scale.checked_mul(64) {
            Some(width) => width,
            None => {
                proof {
                    lemma_too_large(scale as int);
                }
                return None;
            },
        };
        let height = match scale.checked_mul(32) {
            Some(height) => height,
            None => {
                proof {
                    lemma_too_large(scale as int);
                }
                return None;
            },
        };
        let dots = match width.checked_mul(height) {
            Some(dots) => dots,
            None => {
                assert(width * height == 2048 * scale * scale) by (nonlinear_arith)
                    requires
                        width == scale * 64,
                        height == scale * 32,
                ;
                return None;
            },
        };
        assert(dots == 2048 * scale * scale) by (nonlinear_arith)
            requires
                dots == width * height,
                width == scale * 64,
                height == scale * 32,
        ;
        let buffer: Vec<u32> = vec![DARK; dots];
        let engine = MinifbEngine {
            buffer,
            pbuf: PixelBuf::new(),
            rng: RngState::new(),
            height,
            width,
            scale,
        };
        proof {
            lemma_enlarged_blank(scale as nat);
            assert(engine@.buffer =~= enlarged(blank(), scale as nat));
        }
        Some(engine)
    }

    /// The side of the square of dots that shows one pixel.
    pub fn scale(&self) -> (scale: usize)
        ensures
            scale == self@.scale,
    {
        self.scale
    }

    /// The number of dots in a line of the window.
    pub fn width(&self) -> (width: usize)
        ensures
            width == 64 * self@.scale,
    {
        proof {
            use_type_invariant(self);
        }
        self.width
    }

    /// The number of lines of the window.
    pub fn height(&self) -> (height: usize)
        ensures
            height == 32 * self@.scale,
    {
        proof {
            use_type_invariant(self);
        }
        self.height
    }

    /// The dots of the window, line after line: `width * height` of them.
    pub fn buffer(&self) -> (dots: &Vec<u32>)
        ensures
            dots@ == self@.buffer,
            dots@.len() == 2048 * self@.scale * self@.scale,
    {
        proof {
            use_type_invariant(self);
        }
        &self.buffer
    }

    /// Paints the display into the buffer that the window shows.
    pub fn draw_to_window(&mut self)
        ensures
            final(self)@ == (WindowState {
                buffer: enlarged(old(self)@.screen, old(self)@.scale),
                ..old(self)@
            }),
    {
        proof {
            use_type_invariant(&*self);
        }
        if self.scale > 0 {
            paint(&mut self.buffer, &self.pbuf, self.scale);
        } else {
            assert(self.buffer@ =~= enlarged(self.pbuf@, 0));
        }
    }
}

/// A blank display enlarged is dark all over.
proof fn lemma_enlarged_blank(scale: nat)
    ensures
        enlarged(blank(), scale).len() == 2048 * scale * scale,
        forall|j: int| 0 <= j < 2048 * scale * scale ==> enlarged(blank(), scale)[j] == DARK,
{
    assert forall|j: int| 0 <= j < 2048 * scale * scale implies enlarged(blank(), scale)[j]
        == DARK by {
        if scale > 0 {
            lemma_dot_of(scale as int, j);
        } else {
            assert(2048 * scale * scale == 0) by (nonlinear_arith)
                requires
                    scale == 0,
            ;
        }
    }
}

/// A window too wide or too high for its measures to be computed has more
/// dots than a buffer can hold.
proof fn lemma_too_large(scale: int)
    requires
        scale * 32 > usize::MAX || scale * 64 > usize::MAX,
    ensures
        2048 * scale * scale > usize::MAX,
{
    assert(2048 * scale * scale >= scale * 64 >= scale * 32) by (nonlinear_arith)
        requires
            scale >= 1,
    ;
}

impl Engine for MinifbEngine {
    /// The sprite is drawn on the display in memory, the answer is what the
    /// display reports, the buffer shows the display as it is after the
    /// draw, and the generator is left alone.
    open spec fn draws(
        &self,
        after: &Self,
        x: u8,
        y: u8,
        height: u8,
        sprite: Seq<u8>,
        collided: bool,
    ) -> bool {
        &&& (after@.screen, collided) == draw(self@.screen, x, y, sprite, height as nat)
        &&& after@.buffer == enlarged(after@.screen, self@.scale)
        &&& after@.lanes == self@.lanes
        &&& after@.scale == self@.scale
    }

    /// The generator takes one step, the answer is the byte of that step,
    /// and nothing else changes.
    open spec fn gives(&self, after: &Self, byte: u8) -> bool {
        &&& after@ == (WindowState { lanes: mixed(self@.lanes), ..self@ })
        &&& byte == after@.lanes.3
    }

    /// The display is blank, the buffer dark, and the generator is left
    /// alone.
    open spec fn clears(&self, after: &Self) -> bool {
        after@ == (WindowState {
            screen: blank(),
            buffer: enlarged(blank(), self@.scale),
            ..self@
        })
    }

    /// Draws on the display in memory, and paints the display into the
    /// buffer.
    fn draw_sprite(&mut self, x: u8, y: u8, height: u8, sprite: &[u8]) -> (collided: bool) {
        proof {
            use_type_invariant(&*self);
        }
        let flipped = self.pbuf.draw_sprite(x, y, height, sprite);
        self.draw_to_window();
        flipped
    }

    /// The next byte of the generator.
    fn rand(&mut self) -> (byte: u8) {
        proof {
            use_type_invariant(&*self);
        }
        self.rng.next()
    }

    /// Blanks the display in memory, and darkens the buffer.
    fn clear_screen(&mut self) {
        proof {
            use_type_invariant(&*self);
        }
        self.pbuf.clear();
        let mut k: usize = 0;
        while k < self.buffer.len()
            invariant
                self.pbuf@ == blank(),
                self.rng == old(self).rng,
                self.scale == old(self).scale,
                self.width == 64 * self.scale,
                self.height == 32 * self.scale,
                self.buffer@.len() == 2048 * self.scale * self.scale,
                2048 * self.scale * self.scale <= usize::MAX,
                k <= self.buffer@.len(),
                forall|j: int| 0 <= j < k ==> self.buffer@[j] == DARK,
            decreases self.buffer@.len() - k,
        {
            self.buffer[k] = DARK;
            k += 1;
        }
        proof {
            lemma_enlarged_blank(self.scale as nat);
            assert(self.buffer@ =~= enlarged(blank(), self.scale as nat));
        }
    }
}

} // verus!
