//! The generator behind the random-byte instruction: four 8-bit lanes
//! mixed by shifts and XOR. The same start gives the same bytes every time.

use vstd::prelude::*;

verus! {

/// The four lanes `(x, y, z, a)` after one step from `state`. The byte that
/// the step produces is the new `a`.
pub open spec fn mixed(state: (u8, u8, u8, u8)) -> (u8, u8, u8, u8) {
    let (x, y, z, a) = state;
    let t = x ^ (x << 4u8);
    (y, z, a, a ^ t ^ (a >> 1u8) ^ (t << 1u8))
}

/// The lanes that every generator starts from.
pub open spec fn seed() -> (u8, u8, u8, u8) {
    (0, 0, 0, 1)
}

/// The state of a generator.
pub struct RngState {
    x: u8,
    y: u8,
    z: u8,
    a: u8,
}

impl View for RngState {
    type V = (u8, u8, u8, u8);

    /// The four lanes `(x, y, z, a)`.
    closed spec fn view(&self) -> (u8, u8, u8, u8) {
        (self.x, self.y, self.z, self.a)
    }
}

impl RngState {
    /// A generator at its fixed start.
    pub fn new() -> (rng: RngState)
        ensures
            rng@ == seed(),
    {
        RngState { x: 0, y: 0, z: 0, a: 1 }
    }

    /// Takes one step and returns the byte it produced.
    pub fn next(&mut self) -> (byte: u8)
        ensures
            final(self)@ == mixed(old(self)@),
            byte == final(self)@.3,
        no_unwind
    {
        let t: u8 = self.x ^ (self.x << 4);
        self.x = self.y;
        self.y = self.z;
        self.z = self.a;
        self.a = self.z ^ t ^ (self.z >> 1) ^ (t << 1);
        self.a
    }
}

} // verus!
