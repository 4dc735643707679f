//! The mathematical model of the machine: its state as sequences and
//! numbers, the faults that stop a cycle, and what each instruction does.

use vstd::prelude::*;
use vstd::string::StringExecFns;
use crate::instruction::{decode_spec, Instruction};
use crate::text::{hex2, hex4, push_hex2, push_hex4};

verus! {

/// Number of bytes of memory.
pub const MEMORY_SIZE: usize = 4096;

/// Where a loaded program starts, and where the program counter starts.
pub const PROGRAM_START: u16 = 0x200;

/// Number of bytes in the largest program that fits into memory.
pub const LARGEST_PROGRAM: usize = 3584;

/// Number of return addresses that the stack can hold.
pub const STACK_CAPACITY: usize = 16;

/// Number of bytes in one glyph of the built-in font.
pub const GLYPH_SIZE: u16 = 5;

/// Why a cycle stopped without changing anything.
#[derive(Clone, Copy, Debug, PartialEq, Eq)]
pub enum Fault {
    /// The program counter leaves no room in memory for a two-byte word.
    ProgramCounterOutOfRange { pc: u16 },
    /// The word at `pc` encodes no instruction.
    UnknownInstruction { hi: u8, lo: u8, pc: u16 },
    /// The instruction at `pc` is part of the table but is not carried out.
    Unimplemented { instruction: Instruction, pc: u16 },
    /// The instruction at `pc` would touch memory from `address` on, past the end.
    MemoryOutOfRange { address: u16, pc: u16 },
    /// The call at `pc` found the stack full.
    StackOverflow { pc: u16 },
    /// The return at `pc` found the stack empty.
    StackUnderflow { pc: u16 },
}

/// What `fault` says in words: what went wrong, and the program counter at
/// which it did, in hexadecimal. An unknown instruction is named by its two
/// bytes, an access out of range by the address it started from.
pub open spec fn fault_text(fault: Fault) -> Seq<char> {
    match fault {
        Fault::ProgramCounterOutOfRange { pc } => "program counter out of range at 0x"@ + hex4(pc),
        Fault::UnknownInstruction { hi, lo, pc } => "unknown instruction 0x"@ + hex2(hi) + hex2(lo)
            + " at 0x"@ + hex4(pc),
        Fault::Unimplemented { pc, .. } => "unimplemented instruction at 0x"@ + hex4(pc),
        Fault::MemoryOutOfRange { address, pc } => "memory access out of range from 0x"@ + hex4(
            address,
        ) + " at 0x"@ + hex4(pc),
        Fault::StackOverflow { pc } => "stack overflow at 0x"@ + hex4(pc),
        Fault::StackUnderflow { pc } => "stack underflow at 0x"@ + hex4(pc),
    }
}

impl Fault {
    /// The fault in words.
    pub fn message(&self) -> (text: String)
        ensures
            text@ == fault_text(*self),
    {
        let mut text = String::new();
        match *self {
            Fault::ProgramCounterOutOfRange { pc } => {
                text.append("program counter out of range at 0x");
                push_hex4(&mut text, pc);
            },
            Fault::UnknownInstruction { hi, lo, pc } => {
                text.append("unknown instruction 0x");
                push_hex2(&mut text, hi);
                push_hex2(&mut text, lo);
                text.append(" at 0x");
                push_hex4(&mut text, pc);
            },
            Fault::Unimplemented { pc, .. } => {
                text.append("unimplemented instruction at 0x");
                push_hex4(&mut text, pc);
            },
            Fault::MemoryOutOfRange { address, pc } => {
                text.append("memory access out of range from 0x");
                push_hex4(&mut text, address);
                text.append(" at 0x");
                push_hex4(&mut text, pc);
            },
            Fault::StackOverflow { pc } => {
                text.append("stack overflow at 0x");
                push_hex4(&mut text, pc);
            },
            Fault::StackUnderflow { pc } => {
                text.append("stack underflow at 0x");
                push_hex4(&mut text, pc);
            },
        }
        assert(text@ =~= fault_text(*self));
        text
    }
}

/// What a cycle asks of the engine.
pub enum Asked {
    /// Nothing: the instruction runs on the machine alone.
    Nothing,
    /// To blank the display.
    ClearScreen,
    /// One random byte.
    Random,
    /// To draw the `height` rows of `sprite` at `(x, y)`, and to tell
    /// whether a lit pixel went dark.
    Draw { x: u8, y: u8, height: u8, sprite: Seq<u8> },
}

/// The state of a machine.
pub struct Machine {
    /// The 4096 bytes of memory.
    pub memory: Seq<u8>,
    /// The registers `V0` to `VF`.
    pub v: Seq<u8>,
    /// The index register `I`.
    pub index: u16,
    /// The program counter.
    pub pc: u16,
    /// The 16 slots of the stack. A call writes the slot at `depth`; a
    /// return leaves its slot as it is.
    pub slots: Seq<u16>,
    /// The number of return addresses that are waiting: they are in the
    /// slots below `depth`, the oldest in slot 0.
    pub depth: nat,
    /// For each of the 16 keys, whether it is down.
    pub keys: Seq<bool>,
    /// The delay timer.
    pub delay: u8,
    /// The sound timer.
    pub sound: u8,
    /// Whether the two block transfers move `I` past what they touched.
    pub load_store: bool,
}

/// The value that a flag is stored as.
pub open spec fn flag(on: bool) -> u8 {
    if on {
        1
    } else {
        0
    }
}

impl Machine {
    /// The sizes that a machine's parts have: 4096 bytes, 16 registers, 16
    /// keys, 16 stack slots, and no more return addresses waiting than
    /// there are slots.
    pub open spec fn wf(self) -> bool {
        &&& self.memory.len() == MEMORY_SIZE
        &&& self.v.len() == 16
        &&& self.keys.len() == 16
        &&& self.slots.len() == STACK_CAPACITY
        &&& self.depth <= STACK_CAPACITY
    }

    /// The return addresses that are waiting, the most recent last.
    pub open spec fn stack(self) -> Seq<u16> {
        self.slots.subrange(0, self.depth as int)
    }

    /// The same machine with `value` in register `x`.
    pub open spec fn with_v(self, x: u8, value: u8) -> Machine {
        Machine { v: self.v.update(x as int, value), ..self }
    }

    /// The same machine with `VF` holding the flag `on`.
    pub open spec fn with_flag(self, on: bool) -> Machine {
        self.with_v(0xF, flag(on))
    }

    /// The same machine with `I` set to `index`.
    pub open spec fn with_index(self, index: u16) -> Machine {
        Machine { index, ..self }
    }

    /// The same machine with the program counter at `pc`.
    pub open spec fn at(self, pc: u16) -> Machine {
        Machine { pc, ..self }
    }

    /// The same machine with the program counter on the next instruction.
    pub open spec fn next(self) -> Machine {
        self.at((self.pc + 2) as u16)
    }

    /// The same machine with the program counter past the next instruction
    /// if `skip` holds, and on it otherwise.
    pub open spec fn skip_if(self, skip: bool) -> Machine {
        if skip {
            self.at((self.pc + 4) as u16)
        } else {
            self.next()
        }
    }

    /// `I` after a block transfer of the registers `V0..=Vx`.
    pub open spec fn index_after_transfer(self, x: u8) -> u16 {
        if self.load_store {
            (self.index + x + 1) as u16
        } else {
            self.index
        }
    }

    /// The `height` bytes of memory from `I` on: the sprite that a draw
    /// instruction hands to the display.
    pub open spec fn sprite(self, height: u8) -> Seq<u8> {
        self.memory.subrange(self.index as int, self.index + height)
    }

    /// What `instruction` asks of the engine on this machine. A draw hands
    /// over the values of `Vx` and `Vy` as they are, the height, and the
    /// sprite at `I`.
    pub open spec fn asks(self, instruction: Instruction) -> Asked {
        match instruction {
            Instruction::ClearScreen => Asked::ClearScreen,
            Instruction::Random { .. } => Asked::Random,
            Instruction::Draw { x, y, height } => Asked::Draw {
                x: self.v[x as int],
                y: self.v[y as int],
                height,
                sprite: self.sprite(height),
            },
            _ => Asked::Nothing,
        }
    }

    /// The fault, if any, that stops `instruction` on this machine.
    pub open spec fn fault_of(self, instruction: Instruction) -> Option<Fault> {
        let pc = self.pc;
        if pc + 2 > MEMORY_SIZE {
            Some(Fault::ProgramCounterOutOfRange { pc })
        } else {
            match instruction {
                Instruction::MachineCall { .. } | Instruction::WaitKey { .. } => Some(
                    Fault::Unimplemented { instruction, pc },
                ),
                Instruction::Return => if self.depth == 0 {
                    Some(Fault::StackUnderflow { pc })
                } else {
                    None
                },
                Instruction::Call { .. } => if self.depth >= STACK_CAPACITY {
                    Some(Fault::StackOverflow { pc })
                } else {
                    None
                },
                Instruction::Draw { height, .. } => if self.index + height > MEMORY_SIZE {
                    Some(Fault::MemoryOutOfRange { address: self.index, pc })
                } else {
                    None
                },
                Instruction::Bcd { .. } => if self.index + 3 > MEMORY_SIZE {
                    Some(Fault::MemoryOutOfRange { address: self.index, pc })
                } else {
                    None
                },
                Instruction::Store { x } | Instruction::Fill { x } => if self.index + x + 1
                    > MEMORY_SIZE {
                    Some(Fault::MemoryOutOfRange { address: self.index, pc })
                } else {
                    None
                },
                _ => None,
            }
        }
    }

    /// The machine after `instruction`, where no fault stops it. `random` is
    /// the byte that the engine drew, read by `Random` alone; `collided` is
    /// what the engine's display reported, read by `Draw` alone.
    ///
    /// An arithmetic instruction reads both operands before it writes, and
    /// writes the flag last: where `x` is 15 the flag is what `VF` keeps.
    pub open spec fn execute(self, instruction: Instruction, random: u8, collided: bool) -> Machine {
        let v = self.v;
        match instruction {
            Instruction::ClearScreen => self.next(),
            Instruction::Return => Machine { depth: (self.depth - 1) as nat, ..self }.at(
                self.slots[self.depth - 1],
            ),
            Instruction::MachineCall { .. } => self,
            Instruction::Jump { address } => self.at(address),
            Instruction::Call { address } => Machine {
                slots: self.slots.update(self.depth as int, (self.pc + 2) as u16),
                depth: self.depth + 1,
                ..self
            }.at(address),
            Instruction::SkipEqImm { x, value } => self.skip_if(v[x as int] == value),
            Instruction::SkipNeImm { x, value } => self.skip_if(v[x as int] != value),
            Instruction::SkipEq { x, y } => self.skip_if(v[x as int] == v[y as int]),
            Instruction::Load { x, value } => self.with_v(x, value).next(),
            Instruction::AddImm { x, value } => self.with_v(
                x,
                ((v[x as int] + value) % 256) as u8,
            ).next(),
            Instruction::Copy { x, y } => self.with_v(x, v[y as int]).next(),
            Instruction::Or { x, y } => self.with_v(x, v[x as int] | v[y as int]).next(),
            Instruction::And { x, y } => self.with_v(x, v[x as int] & v[y as int]).next(),
            Instruction::Xor { x, y } => self.with_v(x, v[x as int] ^ v[y as int]).next(),
            Instruction::Add { x, y } => self.with_v(
                x,
                ((v[x as int] + v[y as int]) % 256) as u8,
            ).with_flag(v[x as int] + v[y as int] > 255).next(),
            Instruction::Sub { x, y } => self.with_v(
                x,
                ((v[x as int] - v[y as int]) % 256) as u8,
            ).with_flag(v[x as int] >= v[y as int]).next(),
            Instruction::ShiftRight { x, y } => self.with_v(x, (v[y as int] / 2) as u8).with_flag(
                v[y as int] % 2 == 1,
            ).next(),
            Instruction::SubReverse { x, y } => self.with_v(
                x,
                ((v[y as int] - v[x as int]) % 256) as u8,
            ).with_flag(v[y as int] >= v[x as int]).next(),
            Instruction::ShiftLeft { x, y } => self.with_v(
                x,
                ((v[y as int] * 2) % 256) as u8,
            ).with_flag(v[y as int] >= 128).next(),
            Instruction::SkipNe { x, y } => self.skip_if(v[x as int] != v[y as int]),
            Instruction::LoadIndex { address } => self.with_index(address).next(),
            Instruction::JumpOffset { address } => self.at((v[0] + address) as u16),
            Instruction::Random { x, mask } => self.with_v(x, random & mask).next(),
            Instruction::Draw { .. } => self.with_flag(collided).next(),
            Instruction::SkipKey { x } => self.skip_if(self.keys[(v[x as int] % 16) as int]),
            Instruction::SkipNoKey { x } => self.skip_if(!self.keys[(v[x as int] % 16) as int]),
            Instruction::ReadDelay { x } => self.with_v(x, self.delay).next(),
            Instruction::WaitKey { .. } => self,
            Instruction::SetDelay { x } => Machine { delay: v[x as int], ..self }.next(),
            Instruction::SetSound { x } => Machine { sound: v[x as int], ..self }.next(),
            Instruction::AddIndex { x } => self.with_index(
                ((self.index + v[x as int]) % 0x1_0000) as u16,
            ).next(),
            Instruction::Glyph { x } => self.with_index(((v[x as int] % 16) * GLYPH_SIZE) as u16).next(),
            Instruction::Bcd { x } => Machine {
                memory: self.memory.update(self.index as int, (v[x as int] / 100) as u8).update(
                    self.index + 1,
                    ((v[x as int] / 10) % 10) as u8,
                ).update(self.index + 2, (v[x as int] % 10) as u8),
                ..self
            }.next(),
            Instruction::Store { x } => Machine {
                memory: Seq::new(
                    self.memory.len(),
                    |a: int|
                        if self.index <= a <= self.index + x {
                            v[a - self.index]
                        } else {
                            self.memory[a]
                        },
                ),
                ..self
            }.with_index(self.index_after_transfer(x)).next(),
            Instruction::Fill { x } => Machine {
                v: Seq::new(
                    v.len(),
                    |r: int|
                        if r <= x {
                            self.memory[self.index + r]
                        } else {
                            v[r]
                        },
                ),
                ..self
            }.with_index(self.index_after_transfer(x)).next(),
        }
    }

    /// The fault, if any, that stops the next cycle of this machine: the
    /// program counter out of range, a word that is no instruction, or the
    /// fault of the instruction found.
    pub open spec fn fault(self) -> Option<Fault> {
        let pc = self.pc;
        if pc + 2 > MEMORY_SIZE {
            Some(Fault::ProgramCounterOutOfRange { pc })
        } else {
            let hi = self.memory[pc as int];
            let lo = self.memory[pc + 1];
            match decode_spec(hi, lo) {
                None => Some(Fault::UnknownInstruction { hi, lo, pc }),
                Some(instruction) => self.fault_of(instruction),
            }
        }
    }

    /// The instruction that the next cycle carries out. Meant for a machine
    /// whose next cycle no fault stops.
    pub open spec fn fetched(self) -> Instruction {
        decode_spec(self.memory[self.pc as int], self.memory[self.pc + 1]).unwrap()
    }

    /// What the next cycle asks of the engine. Meant for a machine whose
    /// next cycle no fault stops.
    pub open spec fn request(self) -> Asked {
        self.asks(self.fetched())
    }

    /// The machine after one cycle that no fault stops, `random` and
    /// `collided` being what the engine answered.
    pub open spec fn step(self, random: u8, collided: bool) -> Machine {
        self.execute(self.fetched(), random, collided)
    }

    /// The machine after one tick of the timers: each goes down by one and
    /// stays at zero once there.
    pub open spec fn tick(self) -> Machine {
        Machine {
            delay: if self.delay > 0 {
                (self.delay - 1) as u8
            } else {
                0
            },
            sound: if self.sound > 0 {
                (self.sound - 1) as u8
            } else {
                0
            },
            ..self
        }
    }
}

} // verus!
