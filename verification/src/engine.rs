//! What the machine asks of its surroundings: a display to clear and to
//! draw on, and a source of random bytes.

use vstd::prelude::*;

verus! {

/// The three things that an instruction can ask of the outside. The machine
/// calls at most one of them in a cycle, and only in a cycle that no fault
/// stops.
///
/// Each engine says for itself what its operations do: `draws`, `gives` and
/// `clears` relate the engine before a call to the engine after it and to
/// the answer, and each operation keeps to its relation. They are all that
/// the machine knows of an engine. An engine that does not state them
/// promises nothing: they then hold of every outcome.
pub trait Engine {
    /// Whether `draw_sprite` with these arguments can take the engine
    /// `self` to `after` and answer `collided`.
    open spec fn draws(
        &self,
        after: &Self,
        x: u8,
        y: u8,
        height: u8,
        sprite: Seq<u8>,
        collided: bool,
    ) -> bool {
        true
    }

    /// Whether `rand` can take the engine `self` to `after` and answer
    /// `byte`.
    open spec fn gives(&self, after: &Self, byte: u8) -> bool {
        true
    }

    /// Whether `clear_screen` can take the engine `self` to `after`.
    open spec fn clears(&self, after: &Self) -> bool {
        true
    }

    /// Draws a sprite 8 pixels wide and `height` pixels high at `(x, y)`.
    /// Each byte of `sprite` is one row, its most significant bit the
    /// leftmost pixel. Pixels are XORed onto the display. Returns whether
    /// any pixel went from lit to dark.
    fn draw_sprite(&mut self, x: u8, y: u8, height: u8, sprite: &[u8]) -> (collided: bool)
        requires
            sprite@.len() >= height,
        ensures
            old(self).draws(final(self), x, y, height, sprite@, collided),
    ;

    /// One random byte.
    fn rand(&mut self) -> (byte: u8)
        ensures
            old(self).gives(final(self), byte),
    ;

    /// Blanks the display.
    fn clear_screen(&mut self)
        ensures
            old(self).clears(final(self)),
    ;
}

} // verus!
