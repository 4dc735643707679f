//! What holds of the instructions whatever the machine they run on.

use vstd::prelude::*;
use crate::instruction::Instruction;
use crate::machine::Machine;

verus! {

/// Adding `Vy` to `Vx` leaves `VF` at 1 if the sum is above 255 and at 0 if
/// not, and, where `Vx` is not `VF` itself, leaves the sum modulo 256 in
/// `Vx`. No other register changes.
pub proof fn lemma_add_sets_carry(m: Machine, x: u8, y: u8, random: u8, collided: bool)
    requires
        m.wf(),
        x < 16,
        y < 16,
    ensures
        ({
            let after = m.execute(Instruction::Add { x, y }, random, collided);
            let a = m.v[x as int];
            let b = m.v[y as int];
            &&& after.v[15] == 1 <==> a + b > 255
            &&& after.v[15] == 0 <==> a + b <= 255
            &&& x != 15 ==> after.v[x as int] == (a + b) % 256
            &&& forall|r: int| 0 <= r < 15 && r != x ==> after.v[r] == m.v[r]
        }),
{
}

/// Subtracting `Vy` from `Vx` leaves `VF` at 1 if `Vx >= Vy`, where nothing
/// is borrowed, and at 0 if not, and, where `Vx` is not `VF` itself, leaves
/// the difference modulo 256 in `Vx`. No other register changes.
pub proof fn lemma_sub_sets_no_borrow(m: Machine, x: u8, y: u8, random: u8, collided: bool)
    requires
        m.wf(),
        x < 16,
        y < 16,
    ensures
        ({
            let after = m.execute(Instruction::Sub { x, y }, random, collided);
            let a = m.v[x as int];
            let b = m.v[y as int];
            &&& after.v[15] == 1 <==> a >= b
            &&& after.v[15] == 0 <==> a < b
            &&& x != 15 ==> after.v[x as int] == (a - b) % 256
            &&& forall|r: int| 0 <= r < 15 && r != x ==> after.v[r] == m.v[r]
        }),
{
}

/// Subtracting `Vx` from `Vy` into `Vx` follows the same rule as the plain
/// subtraction, with the operands exchanged: `VF` is 1 if `Vy >= Vx` and 0
/// if not, and `Vx`, where it is not `VF`, gets the difference modulo 256.
pub proof fn lemma_reverse_sub_sets_no_borrow(m: Machine, x: u8, y: u8, random: u8, collided: bool)
    requires
        m.wf(),
        x < 16,
        y < 16,
    ensures
        ({
            let after = m.execute(Instruction::SubReverse { x, y }, random, collided);
            let a = m.v[x as int];
            let b = m.v[y as int];
            &&& after.v[15] == 1 <==> b >= a
            &&& after.v[15] == 0 <==> b < a
            &&& x != 15 ==> after.v[x as int] == (b - a) % 256
            &&& forall|r: int| 0 <= r < 15 && r != x ==> after.v[r] == m.v[r]
        }),
{
}

/// A shift to the right leaves in `VF` the lowest bit that `Vy` had, and a
/// shift to the left the highest; `Vx`, where it is not `VF`, gets `Vy`
/// halved, or doubled modulo 256.
pub proof fn lemma_shift_sets_bit_shifted_out(m: Machine, x: u8, y: u8, random: u8, collided: bool)
    requires
        m.wf(),
        x < 16,
        y < 16,
    ensures
        ({
            let right = m.execute(Instruction::ShiftRight { x, y }, random, collided);
            let left = m.execute(Instruction::ShiftLeft { x, y }, random, collided);
            let b = m.v[y as int];
            &&& right.v[15] == b % 2
            &&& left.v[15] == b / 128
            &&& x != 15 ==> right.v[x as int] == b / 2
            &&& x != 15 ==> left.v[x as int] == (b * 2) % 256
        }),
{
}

/// The three bytes that the decimal-digits instruction writes are the
/// hundreds, the tens and the ones of `Vx`: each is a digit, and together
/// they give `Vx` back.
pub proof fn lemma_bcd_digits(m: Machine, x: u8, random: u8, collided: bool)
    requires
        m.wf(),
        x < 16,
        m.fault_of(Instruction::Bcd { x }) is None,
    ensures
        ({
            let after = m.execute(Instruction::Bcd { x }, random, collided);
            let i = m.index as int;
            let (h, t, o) = (after.memory[i], after.memory[i + 1], after.memory[i + 2]);
            &&& h < 10 && t < 10 && o < 10
            &&& h * 100 + t * 10 + o == m.v[x as int]
            &&& forall|a: int| 0 <= a < 4096 && !(i <= a < i + 3) ==> after.memory[a] == m.memory[a]
        }),
{
}

/// Storing `V0..=Vx` and loading them again from the same address gives
/// back the registers as they were. The store puts `Vk` at `I + k`. With
/// the quirk on, each of the two leaves `I` at `x + 1` past where it was;
/// with the quirk off, neither moves `I`.
pub proof fn lemma_store_then_fill(m: Machine, x: u8, random: u8, collided: bool)
    requires
        m.wf(),
        x < 16,
        m.fault_of(Instruction::Store { x }) is None,
    ensures
        ({
            let stored = m.execute(Instruction::Store { x }, random, collided);
            let filled = stored.with_index(m.index).execute(
                Instruction::Fill { x },
                random,
                collided,
            );
            &&& forall|k: int| 0 <= k <= x ==> stored.memory[m.index + k] == m.v[k]
            &&& filled.v == m.v
            &&& filled.memory == stored.memory
            &&& m.load_store ==> stored.index == m.index + x + 1 && filled.index == m.index + x + 1
            &&& !m.load_store ==> stored.index == m.index && filled.index == m.index
                && filled == stored.execute(Instruction::Fill { x }, random, collided)
        }),
{
    let stored = m.execute(Instruction::Store { x }, random, collided);
    let filled = stored.with_index(m.index).execute(Instruction::Fill { x }, random, collided);
    assert(filled.v =~= m.v);
}

/// A call leaves the program counter at its target and its return address
/// on the stack. A return that finds waiting what the call left waiting
/// comes back to the instruction right after the call, and leaves waiting
/// what was waiting before the call. The slot that the call wrote keeps the
/// return address after the return.
pub proof fn lemma_call_then_return(
    m: Machine,
    address: u16,
    later: Machine,
    random: u8,
    collided: bool,
)
    requires
        m.wf(),
        later.wf(),
        m.fault_of(Instruction::Call { address }) is None,
        later.stack() == m.execute(Instruction::Call { address }, random, collided).stack(),
    ensures
        m.execute(Instruction::Call { address }, random, collided).pc == address,
        m.execute(Instruction::Call { address }, random, collided).stack() == m.stack().push(
            (m.pc + 2) as u16,
        ),
        later.depth > 0,
        later.execute(Instruction::Return, random, collided).pc == m.pc + 2,
        later.execute(Instruction::Return, random, collided).stack() == m.stack(),
        later.execute(Instruction::Return, random, collided).slots[m.depth as int] == m.pc + 2,
{
    let called = m.execute(Instruction::Call { address }, random, collided);
    let returned = later.execute(Instruction::Return, random, collided);
    assert(called.stack() =~= m.stack().push((m.pc + 2) as u16));
    assert(later.stack().len() == called.stack().len());
    assert(later.depth == m.depth + 1);
    assert(later.stack()[m.depth as int] == called.stack()[m.depth as int]);
    assert(returned.stack() =~= later.stack().drop_last());
    assert(called.stack().drop_last() =~= m.stack());
}

/// An instruction reads an answer of the engine only where it asked for
/// it: the random byte where it asked for one, and the collision where it
/// asked to draw.
pub proof fn lemma_answers_unused(
    m: Machine,
    instruction: Instruction,
    random: u8,
    collided: bool,
    other_random: u8,
    other_collided: bool,
)
    ensures
        !(m.asks(instruction) is Random) ==> m.execute(instruction, random, collided) == m.execute(
            instruction,
            other_random,
            collided,
        ),
        !(m.asks(instruction) is Draw) ==> m.execute(instruction, random, collided) == m.execute(
            instruction,
            random,
            other_collided,
        ),
{
}

/// An instruction that no fault stops leaves the machine well formed.
pub proof fn lemma_execute_keeps_wf(m: Machine, instruction: Instruction, random: u8, collided: bool)
    requires
        m.wf(),
        instruction.wf(),
        m.fault_of(instruction) is None,
    ensures
        m.execute(instruction, random, collided).wf(),
{
}

/// The timers go down only by a tick, and a tick changes nothing else: an
/// instruction changes a timer only by writing a register to it.
pub proof fn lemma_timers(m: Machine, instruction: Instruction, random: u8, collided: bool)
    ensures
        !(instruction is SetDelay) ==> m.execute(instruction, random, collided).delay == m.delay,
        !(instruction is SetSound) ==> m.execute(instruction, random, collided).sound == m.sound,
        m.tick().delay == if m.delay == 0 { 0 } else { m.delay - 1 },
        m.tick().sound == if m.sound == 0 { 0 } else { m.sound - 1 },
        m.tick() == (Machine { delay: m.tick().delay, sound: m.tick().sound, ..m }),
{
}

} // verus!
