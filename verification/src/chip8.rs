//! The machine itself: memory, registers, stack, timers and keys, and the
//! cycle that fetches one instruction, decodes it and carries it out.

use vstd::prelude::*;
use vstd::slice::slice_subrange;
use crate::engine::Engine;
use crate::instruction::{decode, decode_spec, Instruction};
use crate::machine::{Asked, Fault, Machine, LARGEST_PROGRAM, PROGRAM_START};

verus! {

/// The built-in font: the glyphs of the hexadecimal digits `0` to `F`, five
/// bytes each, one byte per row.
pub const FONTSET: [u8; 80] = [
    0xF0, 0x90, 0x90, 0x90, 0xF0,
    0x20, 0x60, 0x20, 0x20, 0x70,
    0xF0, 0x10, 0xF0, 0x80, 0xF0,
    0xF0, 0x10, 0xF0, 0x10, 0xF0,
    0x90, 0x90, 0xF0, 0x10, 0x10,
    0xF0, 0x80, 0xF0, 0x10, 0xF0,
    0xF0, 0x80, 0xF0, 0x90, 0xF0,
    0xF0, 0x10, 0x20, 0x40, 0x40,
    0xF0, 0x90, 0xF0, 0x90, 0xF0,
    0xF0, 0x90, 0xF0, 0x10, 0xF0,
    0xF0, 0x90, 0xF0, 0x90, 0x90,
    0xE0, 0x90, 0xE0, 0x90, 0xE0,
    0xF0, 0x80, 0x80, 0x80, 0xF0,
    0xE0, 0x90, 0x90, 0x90, 0xE0,
    0xF0, 0x80, 0xF0, 0x80, 0xF0,
    0xF0, 0x80, 0xF0, 0x80, 0x80,
];

/// Memory as a new machine has it: the font in the first 80 bytes, zero
/// everywhere else.
pub open spec fn initial_memory() -> Seq<u8> {
    Seq::new(
        4096,
        |a: int|
            if a < 80 {
                FONTSET@[a]
            } else {
                0u8
            },
    )
}

/// The state that every machine starts in, but for the quirk.
pub open spec fn initial(load_store: bool) -> Machine {
    Machine {
        memory: initial_memory(),
        v: Seq::new(16, |r: int| 0u8),
        index: 0,
        pc: PROGRAM_START,
        slots: Seq::new(16, |k: int| 0u16),
        depth: 0,
        keys: Seq::new(16, |k: int| false),
        delay: 0,
        sound: 0,
        load_store,
    }
}

/// The switchable departures from the usual behaviour.
#[derive(Clone, Copy, Debug)]
pub struct Quircks {
    /// Whether the two block transfers leave `I` just past the last byte
    /// they touched.
    pub load_store: bool,
}

impl Default for Quircks {
    /// Every quirk off.
    fn default() -> (quircks: Quircks)
        ensures
            !quircks.load_store,
    {
        Quircks { load_store: false }
    }
}

/// What a cycle asks of the engine before it changes the machine.
pub enum Request<'a> {
    /// Nothing: the instruction runs on the machine alone.
    Nothing,
    /// To blank the display.
    ClearScreen,
    /// One random byte.
    Random,
    /// To draw the `height` rows of `sprite` at `(x, y)`, and to tell
    /// whether a lit pixel went dark.
    Draw { x: u8, y: u8, height: u8, sprite: &'a [u8] },
}

impl<'a> View for Request<'a> {
    type V = Asked;

    open spec fn view(&self) -> Asked {
        match *self {
            Request::Nothing => Asked::Nothing,
            Request::ClearScreen => Asked::ClearScreen,
            Request::Random => Asked::Random,
            Request::Draw { x, y, height, sprite } => Asked::Draw { x, y, height, sprite: sprite@ },
        }
    }
}

struct Registers {
    v: [u8; 16],
    i: u16,
    sp: u8,
    pc: u16,
}

impl Registers {
    fn new() -> (regs: Registers)
        ensures
            regs.v@ == Seq::new(16, |r: int| 0u8),
            regs.i == 0,
            regs.sp == 0,
            regs.pc == 0x200,
    {
        let regs = Registers { v: [0u8; 16], i: 0, sp: 0, pc: 0x200 };
        assert(regs.v@ =~= Seq::new(16, |r: int| 0u8));
        regs
    }
}

/// A CHIP-8 machine.
pub struct Chip8 {
    mem: [u8; 4096],
    regs: Registers,
    stack: [u16; 16],
    key_state: [bool; 16],
    delay_timer: u8,
    sound_timer: u8,
    quircks: Quircks,
}

impl View for Chip8 {
    type V = Machine;

    /// The state of the machine.
    closed spec fn view(&self) -> Machine {
        Machine {
            memory: self.mem@,
            v: self.regs.v@,
            index: self.regs.i,
            pc: self.regs.pc,
            slots: self.stack@,
            depth: self.regs.sp as nat,
            keys: self.key_state@,
            delay: self.delay_timer,
            sound: self.sound_timer,
            load_store: self.quircks.load_store,
        }
    }
}

impl Default for Chip8 {
    /// A new machine.
    fn default() -> (chip: Chip8)
        ensures
            chip@ == initial(false),
    {
        Chip8::new()
    }
}

impl Chip8 {
    #[verifier::type_invariant]
    closed spec fn depth_in_range(&self) -> bool {
        self.regs.sp <= 16
    }

    /// A machine with the font loaded, the program counter at `0x200`,
    /// everything else zero and every quirk off.
    pub fn new() -> (chip: Chip8)
        ensures
            chip@ == initial(false),
            chip@.wf(),
    {
        Chip8::with_quircks(Quircks::default())
    }

    /// A machine like a new one, with the quirks as given. They stay as
    /// they are for the life of the machine.
    pub fn with_quircks(quircks: Quircks) -> (chip: Chip8)
        ensures
            chip@ == initial(quircks.load_store),
            chip@.wf(),
    {
        let mut mem = [0u8; 4096];
        let mut k: usize = 0;
        while k < 80
            invariant
                k <= 80,
                forall|a: int| 0 <= a < k ==> mem@[a] == FONTSET@[a],
                forall|a: int| k <= a < 4096 ==> mem@[a] == 0,
            decreases 80 - k,
        {
            mem[k] = FONTSET[k];
            k += 1;
        }
        let chip = Chip8 {
            mem,
            stack: [0u16; 16],
            regs: Registers::new(),
            delay_timer: 0,
            sound_timer: 0,
            key_state: [false; 16],
            quircks,
        };
        proof {
            let m = initial(quircks.load_store);
            assert(chip@.memory =~= m.memory);
            assert(chip@.slots =~= m.slots);
            assert(chip@.keys =~= m.keys);
        }
        chip
    }

    /// The quirks that the machine was made with.
    pub fn quircks(&self) -> (quircks: Quircks)
        ensures
            quircks.load_store == self@.load_store,
    {
        self.quircks
    }

    /// Copies a program image into memory from `0x200` on, byte for byte.
    /// Nothing else changes.
    pub fn load_game(&mut self, data: &[u8])
        requires
            data@.len() <= LARGEST_PROGRAM,
        ensures
            final(self)@ == (Machine {
                memory: Seq::new(
                    4096,
                    |a: int|
                        if PROGRAM_START <= a < PROGRAM_START + data@.len() {
                            data@[a - PROGRAM_START]
                        } else {
                            old(self)@.memory[a]
                        },
                ),
                ..old(self)@
            }),
            final(self)@.wf(),
    {
        proof {
            use_type_invariant(&*self);
        }
        let mut k: usize = 0;
        while k < data.len()
            invariant
                k <= data@.len() <= 4096 - 0x200,
                self.regs.sp <= 16,
                self.regs == old(self).regs,
                self.stack == old(self).stack,
                self.key_state == old(self).key_state,
                self.delay_timer == old(self).delay_timer,
                self.sound_timer == old(self).sound_timer,
                self.quircks == old(self).quircks,
                forall|a: int| 0x200 <= a < 0x200 + k ==> self.mem@[a] == data@[a - 0x200],
                forall|a: int|
                    0 <= a < 4096 && !(0x200 <= a < 0x200 + k) ==> self.mem@[a] == old(self).mem@[a],
            decreases data@.len() - k,
        {
            self.mem[0x200 + k] = data[k];
            k += 1;
        }
        proof {
            assert(self@.memory =~= Seq::new(
                4096,
                |a: int|
                    if 0x200 <= a < 0x200 + data@.len() {
                        data@[a - 0x200]
                    } else {
                        old(self)@.memory[a]
                    },
            ));
        }
    }

    /// The value of register `Vx`.
    pub fn register(&self, x: u8) -> (value: u8)
        requires
            x < 16,
        ensures
            value == self@.v[x as int],
    {
        self.regs.v[x as usize]
    }

    /// The index register `I`.
    pub fn index(&self) -> (index: u16)
        ensures
            index == self@.index,
    {
        self.regs.i
    }

    /// The program counter.
    pub fn program_counter(&self) -> (pc: u16)
        ensures
            pc == self@.pc,
    {
        self.regs.pc
    }

    /// The number of return addresses on the stack: never more than 16, as
    /// the parts of a machine always have the sizes that are theirs.
    pub fn stack_depth(&self) -> (depth: u8)
        ensures
            depth == self@.depth,
            self@.wf(),
    {
        proof {
            use_type_invariant(self);
        }
        self.regs.sp
    }

    /// What slot `slot` of the stack holds, whether a return address is
    /// waiting in it or not.
    pub fn stack_slot(&self, slot: u8) -> (held: u16)
        requires
            slot < 16,
        ensures
            held == self@.slots[slot as int],
    {
        self.stack[slot as usize]
    }

    /// The return address that is waiting in slot `slot` of the stack, slot
    /// 0 being the oldest, or `None` where none is waiting there.
    pub fn return_address(&self, slot: u8) -> (address: Option<u16>)
        ensures
            address == if slot < self@.depth {
                Some(self@.stack()[slot as int])
            } else {
                None
            },
    {
        proof {
            use_type_invariant(self);
        }
        if slot < self.regs.sp {
            Some(self.stack[slot as usize])
        } else {
            None
        }
    }

    /// Whether `key` is down.
    pub fn key(&self, key: u8) -> (down: bool)
        requires
            key < 16,
        ensures
            down == self@.keys[key as int],
    {
        self.key_state[key as usize]
    }

    /// The byte of memory at `address`.
    pub fn memory(&self, address: u16) -> (byte: u8)
        requires
            address < 4096,
        ensures
            byte == self@.memory[address as int],
    {
        self.mem[address as usize]
    }

    /// The delay timer.
    pub fn delay_timer(&self) -> (value: u8)
        ensures
            value == self@.delay,
    {
        self.delay_timer
    }

    /// The sound timer.
    pub fn sound_timer(&self) -> (value: u8)
        ensures
            value == self@.sound,
    {
        self.sound_timer
    }

    /// Records that `key` went down or came up.
    pub fn set_key(&mut self, key: u8, down: bool)
        requires
            key < 16,
        ensures
            final(self)@ == (Machine { keys: old(self)@.keys.update(key as int, down), ..old(self)@ }),
            final(self)@.wf(),
    {
        proof {
            use_type_invariant(&*self);
        }
        self.key_state[key as usize] = down;
    }

    /// Reads the word at the program counter and decodes it.
    pub fn fetch(&self) -> (fetched: Result<Instruction, Fault>)
        ensures
            match fetched {
                Ok(instruction) => {
                    &&& self@.pc + 2 <= 4096
                    &&& decode_spec(self@.memory[self@.pc as int], self@.memory[self@.pc + 1])
                        == Some(instruction)
                    &&& instruction.wf()
                },
                Err(fault) => {
                    &&& self@.fault() == Some(fault)
                    &&& (fault is ProgramCounterOutOfRange || fault is UnknownInstruction)
                },
            },
    {
        let pc = self.regs.pc;
        if pc > 4094 {
            return Err(Fault::ProgramCounterOutOfRange { pc });
        }
        let hi: u8 = self.mem[pc as usize];
        let lo: u8 = self.mem[pc as usize + 1];
        match decode(hi, lo) {
            Some(instruction) => Ok(instruction),
            None => Err(Fault::UnknownInstruction { hi, lo, pc }),
        }
    }

    /// The fault, if any, that stops `instruction` on this machine.
    pub fn fault_of(&self, instruction: Instruction) -> (fault: Option<Fault>)
        ensures
            fault == self@.fault_of(instruction),
    {
        proof {
            use_type_invariant(self);
        }
        let pc = self.regs.pc;
        let index = self.regs.i;
        if pc > 4094 {
            return Some(Fault::ProgramCounterOutOfRange { pc });
        }
        match instruction {
            Instruction::MachineCall { .. } | Instruction::WaitKey { .. } => Some(
                Fault::Unimplemented { instruction, pc },
            ),
            Instruction::Return => if self.regs.sp == 0 {
                Some(Fault::StackUnderflow { pc })
            } else {
                None
            },
            Instruction::Call { .. } => if self.regs.sp >= 16 {
                Some(Fault::StackOverflow { pc })
            } else {
                None
            },
            Instruction::Draw { height, .. } => if index as u32 + height as u32 > 4096 {
                Some(Fault::MemoryOutOfRange { address: index, pc })
            } else {
                None
            },
            Instruction::Bcd { .. } => if index as u32 + 3 > 4096 {
                Some(Fault::MemoryOutOfRange { address: index, pc })
            } else {
                None
            },
            Instruction::Store { x } | Instruction::Fill { x } => if index as u32 + x as u32 + 1
                > 4096 {
                Some(Fault::MemoryOutOfRange { address: index, pc })
            } else {
                None
            },
            _ => None,
        }
    }

    /// The rows of the sprite that a draw instruction of this height would
    /// hand to the display: `height` bytes of memory from `I` on.
    pub fn sprite(&self, height: u8) -> (rows: &[u8])
        requires
            self@.index + height <= 4096,
        ensures
            rows@ == self@.sprite(height),
    {
        let from = self.regs.i as usize;
        slice_subrange(self.mem.as_slice(), from, from + height as usize)
    }

    fn next_instruction(&mut self)
        requires
            old(self)@.pc + 2 <= 4096,
        ensures
            final(self)@ == old(self)@.next(),
    {
        proof {
            use_type_invariant(&*self);
        }
        self.regs.pc += 2;
    }

    fn skip_next_instruction(&mut self)
        requires
            old(self)@.pc + 2 <= 4096,
        ensures
            final(self)@ == old(self)@.skip_if(true),
    {
        proof {
            use_type_invariant(&*self);
        }
        self.regs.pc += 4;
    }

    fn skip_if(&mut self, skip: bool)
        requires
            old(self)@.pc + 2 <= 4096,
        ensures
            final(self)@ == old(self)@.skip_if(skip),
    {
        if skip {
            self.skip_next_instruction();
        } else {
            self.next_instruction();
        }
    }

    fn jump(&mut self, address: u16)
        ensures
            final(self)@ == old(self)@.at(address),
    {
        proof {
            use_type_invariant(&*self);
        }
        self.regs.pc = address;
    }

    fn stack_push(&mut self, value: u16)
        requires
            old(self)@.depth < 16,
        ensures
            final(self)@ == (Machine {
                slots: old(self)@.slots.update(old(self)@.depth as int, value),
                depth: old(self)@.depth + 1,
                ..old(self)@
            }),
    {
        proof {
            use_type_invariant(&*self);
        }
        self.stack[self.regs.sp as usize] = value;
        self.regs.sp += 1;
    }

    fn stack_pop(&mut self) -> (value: u16)
        requires
            old(self)@.depth > 0,
        ensures
            value == old(self)@.slots[old(self)@.depth - 1],
            final(self)@ == (Machine { depth: (old(self)@.depth - 1) as nat, ..old(self)@ }),
    {
        proof {
            use_type_invariant(&*self);
        }
        self.regs.sp -= 1;
        self.stack[self.regs.sp as usize]
    }

    fn call(&mut self, address: u16)
        requires
            old(self)@.depth < 16,
            old(self)@.pc + 2 <= 4096,
        ensures
            final(self)@ == (Machine {
                slots: old(self)@.slots.update(
                    old(self)@.depth as int,
                    (old(self)@.pc + 2) as u16,
                ),
                depth: old(self)@.depth + 1,
                ..old(self)@
            }).at(address),
    {
        self.stack_push(self.regs.pc + 2);
        self.jump(address);
    }

    fn set_v(&mut self, x: u8, value: u8)
        requires
            x < 16,
        ensures
            final(self)@ == old(self)@.with_v(x, value),
    {
        proof {
            use_type_invariant(&*self);
        }
        self.regs.v[x as usize] = value;
    }

    fn set_flag(&mut self, on: bool)
        ensures
            final(self)@ == old(self)@.with_flag(on),
    {
        self.set_v(0xF, if on {
            1
        } else {
            0
        });
    }

    fn set_index(&mut self, index: u16)
        ensures
            final(self)@ == old(self)@.with_index(index),
    {
        proof {
            use_type_invariant(&*self);
        }
        self.regs.i = index;
    }

    fn move_index_past(&mut self, x: u8)
        requires
            x < 16,
            old(self)@.index + x + 1 <= 4096,
        ensures
            final(self)@ == old(self)@.with_index(old(self)@.index_after_transfer(x)),
    {
        if self.quircks.load_store {
            self.set_index(self.regs.i + (x as u16 + 1));
        }
    }

    fn store_bcd(&mut self, value: u8)
        requires
            old(self)@.index + 3 <= 4096,
        ensures
            final(self)@ == (Machine {
                memory: old(self)@.memory.update(
                    old(self)@.index as int,
                    (value / 100) as u8,
                ).update(old(self)@.index + 1, ((value / 10) % 10) as u8).update(
                    old(self)@.index + 2,
                    (value % 10) as u8,
                ),
                ..old(self)@
            }),
    {
        proof {
            use_type_invariant(&*self);
        }
        let i = self.regs.i as usize;
        self.mem[i] = value / 100;
        self.mem[i + 1] = (value / 10) % 10;
        self.mem[i + 2] = value % 10;
    }

    fn store_registers(&mut self, x: u8)
        requires
            x < 16,
            old(self)@.index + x + 1 <= 4096,
        ensures
            final(self)@ == (Machine {
                memory: Seq::new(
                    old(self)@.memory.len(),
                    |a: int|
                        if old(self)@.index <= a <= old(self)@.index + x {
                            old(self)@.v[a - old(self)@.index]
                        } else {
                            old(self)@.memory[a]
                        },
                ),
                ..old(self)@
            }),
    {
        proof {
            use_type_invariant(&*self);
        }
        let offset = self.regs.i as usize;
        let mut k: usize = 0;
        while k <= x as usize
            invariant
                x < 16,
                k <= x + 1,
                offset + x + 1 <= 4096,
                self.regs == old(self).regs,
                self.regs.sp <= 16,
                self.stack == old(self).stack,
                self.key_state == old(self).key_state,
                self.delay_timer == old(self).delay_timer,
                self.sound_timer == old(self).sound_timer,
                self.quircks == old(self).quircks,
                forall|a: int| offset <= a < offset + k ==> self.mem@[a] == self.regs.v@[a - offset],
                forall|a: int|
                    0 <= a < 4096 && !(offset <= a < offset + k) ==> self.mem@[a] == old(
                        self,
                    ).mem@[a],
            decreases x + 1 - k,
        {
            self.mem[offset + k] = self.regs.v[k];
            k += 1;
        }
        proof {
            let m = old(self)@;
            assert(self@.memory =~= Seq::new(
                m.memory.len(),
                |a: int|
                    if m.index <= a <= m.index + x {
                        m.v[a - m.index]
                    } else {
                        m.memory[a]
                    },
            ));
        }
    }

    fn fill_registers(&mut self, x: u8)
        requires
            x < 16,
            old(self)@.index + x + 1 <= 4096,
        ensures
            final(self)@ == (Machine {
                v: Seq::new(
                    old(self)@.v.len(),
                    |r: int|
                        if r <= x {
                            old(self)@.memory[old(self)@.index + r]
                        } else {
                            old(self)@.v[r]
                        },
                ),
                ..old(self)@
            }),
    {
        proof {
            use_type_invariant(&*self);
        }
        let offset = self.regs.i as usize;
        let mut k: usize = 0;
        while k <= x as usize
            invariant
                x < 16,
                k <= x + 1,
                offset + x + 1 <= 4096,
                offset == old(self).regs.i,
                self.regs.i == old(self).regs.i,
                self.regs.pc == old(self).regs.pc,
                self.regs.sp == old(self).regs.sp,
                self.regs.sp <= 16,
                self.mem == old(self).mem,
                self.stack == old(self).stack,
                self.key_state == old(self).key_state,
                self.delay_timer == old(self).delay_timer,
                self.sound_timer == old(self).sound_timer,
                self.quircks == old(self).quircks,
                forall|r: int| 0 <= r < k ==> self.regs.v@[r] == self.mem@[offset + r],
                forall|r: int| k <= r < 16 ==> self.regs.v@[r] == old(self).regs.v@[r],
            decreases x + 1 - k,
        {
            self.regs.v[k] = self.mem[offset + k];
            k += 1;
        }
        proof {
            let m = old(self)@;
            assert(self@.v =~= Seq::new(
                m.v.len(),
                |r: int|
                    if r <= x {
                        m.memory[m.index + r]
                    } else {
                        m.v[r]
                    },
            ));
        }
    }

    /// Carries out `instruction`, with `random` as the byte that the engine
    /// drew and `collided` as what its display reported. A fault leaves the
    /// machine as it was.
    pub fn execute(&mut self, instruction: Instruction, random: u8, collided: bool) -> (outcome:
        Result<(), Fault>)
        requires
            instruction.wf(),
        ensures
            final(self)@.wf(),
            match outcome {
                Ok(()) => {
                    &&& old(self)@.fault_of(instruction) is None
                    &&& final(self)@ == old(self)@.execute(instruction, random, collided)
                },
                Err(fault) => {
                    &&& old(self)@.fault_of(instruction) == Some(fault)
                    &&& final(self)@ == old(self)@
                },
            },
    {
        proof {
            use_type_invariant(&*self);
        }
        if let Some(fault) = self.fault_of(instruction) {
            return Err(fault);
        }
        match instruction {
            Instruction::ClearScreen => self.next_instruction(),
            Instruction::Return => {
                let address = self.stack_pop();
                self.jump(address);
            },
            Instruction::MachineCall { .. } => {},
            Instruction::Jump { address } => self.jump(address),
            Instruction::Call { address } => self.call(address),
            Instruction::SkipEqImm { x, value } => {
                let skip = self.regs.v[x as usize] == value;
                self.skip_if(skip);
            },
            Instruction::SkipNeImm { x, value } => {
                let skip = self.regs.v[x as usize] != value;
                self.skip_if(skip);
            },
            Instruction::SkipEq { x, y } => {
                let skip = self.regs.v[x as usize] == self.regs.v[y as usize];
                self.skip_if(skip);
            },
            Instruction::Load { x, value } => {
                self.set_v(x, value);
                self.next_instruction();
            },
            Instruction::AddImm { x, value } => {
                let vx: u8 = self.regs.v[x as usize];
                self.set_v(x, vx.wrapping_add(value));
                self.next_instruction();
            },
            Instruction::Copy { x, y } => {
                let vy: u8 = self.regs.v[y as usize];
                self.set_v(x, vy);
                self.next_instruction();
            },
            Instruction::Or { x, y } => {
                let vx: u8 = self.regs.v[x as usize];
                let vy: u8 = self.regs.v[y as usize];
                self.set_v(x, vx | vy);
                self.next_instruction();
            },
            Instruction::And { x, y } => {
                let vx: u8 = self.regs.v[x as usize];
                let vy: u8 = self.regs.v[y as usize];
                self.set_v(x, vx & vy);
                self.next_instruction();
            },
            Instruction::Xor { x, y } => {
                let vx: u8 = self.regs.v[x as usize];
                let vy: u8 = self.regs.v[y as usize];
                self.set_v(x, vx ^ vy);
                self.next_instruction();
            },
            Instruction::Add { x, y } => {
                let vx: u8 = self.regs.v[x as usize];
                let vy: u8 = self.regs.v[y as usize];
                let sum: u16 = vx as u16 + vy as u16;
                self.set_v(x, vx.wrapping_add(vy));
                self.set_flag(sum > 0xFF);
                self.next_instruction();
            },
            Instruction::Sub { x, y } => {
                let vx: u8 = self.regs.v[x as usize];
                let vy: u8 = self.regs.v[y as usize];
                let borrow = vx < vy;
                self.set_v(x, vx.wrapping_sub(vy));
                self.set_flag(!borrow);
                self.next_instruction();
            },
            Instruction::ShiftRight { x, y } => {
                let vy: u8 = self.regs.v[y as usize];
                assert(vy >> 1u8 == vy / 2 && (vy & 0b0000_0001 == 1) == (vy % 2 == 1))
                    by (bit_vector);
                self.set_v(x, vy >> 1);
                self.set_flag(vy & 0b0000_0001 == 1);
                self.next_instruction();
            },
            Instruction::SubReverse { x, y } => {
                let vx: u8 = self.regs.v[x as usize];
                let vy: u8 = self.regs.v[y as usize];
                let borrow = vx > vy;
                self.set_v(x, vy.wrapping_sub(vx));
                self.set_flag(!borrow);
                self.next_instruction();
            },
            Instruction::ShiftLeft { x, y } => {
                let vy: u8 = self.regs.v[y as usize];
                assert((vy << 1u8) == (vy as u16 * 2) % 256 && ((vy & 0b1000_0000) >> 7u8 == 1) == (
                vy >= 128)) by (bit_vector);
                self.set_v(x, vy << 1);
                self.set_flag((vy & 0b1000_0000) >> 7 == 1);
                self.next_instruction();
            },
            Instruction::SkipNe { x, y } => {
                let skip = self.regs.v[x as usize] != self.regs.v[y as usize];
                self.skip_if(skip);
            },
            Instruction::LoadIndex { address } => {
                self.set_index(address);
                self.next_instruction();
            },
            Instruction::JumpOffset { address } => {
                let v0: u8 = self.regs.v[0];
                self.jump(v0 as u16 + address);
            },
            Instruction::Random { x, mask } => {
                self.set_v(x, random & mask);
                self.next_instruction();
            },
            Instruction::Draw { .. } => {
                self.set_flag(collided);
                self.next_instruction();
            },
            Instruction::SkipKey { x } => {
                let vx: u8 = self.regs.v[x as usize];
                assert(vx & 0x0F == vx % 16) by (bit_vector);
                let skip = self.key_state[(vx & 0x0F) as usize];
                self.skip_if(skip);
            },
            Instruction::SkipNoKey { x } => {
                let vx: u8 = self.regs.v[x as usize];
                assert(vx & 0x0F == vx % 16) by (bit_vector);
                let skip = !self.key_state[(vx & 0x0F) as usize];
                self.skip_if(skip);
            },
            Instruction::ReadDelay { x } => {
                let delay = self.delay_timer;
                self.set_v(x, delay);
                self.next_instruction();
            },
            Instruction::WaitKey { .. } => {},
            Instruction::SetDelay { x } => {
                self.delay_timer = self.regs.v[x as usize];
                self.next_instruction();
            },
            Instruction::SetSound { x } => {
                self.sound_timer = self.regs.v[x as usize];
                self.next_instruction();
            },
            Instruction::AddIndex { x } => {
                let vx: u8 = self.regs.v[x as usize];
                self.set_index(self.regs.i.wrapping_add(vx as u16));
                self.next_instruction();
            },
            Instruction::Glyph { x } => {
                let vx: u8 = self.regs.v[x as usize];
                assert(vx & 0x0F == vx % 16) by (bit_vector);
                self.set_index((vx & 0x0F) as u16 * 5);
                self.next_instruction();
            },
            Instruction::Bcd { x } => {
                let vx: u8 = self.regs.v[x as usize];
                self.store_bcd(vx);
                self.next_instruction();
            },
            Instruction::Store { x } => {
                self.store_registers(x);
                self.move_index_past(x);
                self.next_instruction();
            },
            Instruction::Fill { x } => {
                self.fill_registers(x);
                self.move_index_past(x);
                self.next_instruction();
            },
        }
        Ok(())
    }

    /// Runs one cycle with the engine's answers given: fetches the word at
    /// the program counter, decodes it and carries the instruction out.
    pub fn step(&mut self, random: u8, collided: bool) -> (outcome: Result<(), Fault>)
        ensures
            final(self)@.wf(),
            match outcome {
                Ok(()) => {
                    &&& old(self)@.fault() is None
                    &&& final(self)@ == old(self)@.step(random, collided)
                },
                Err(fault) => {
                    &&& old(self)@.fault() == Some(fault)
                    &&& final(self)@ == old(self)@
                },
            },
    {
        proof {
            use_type_invariant(&*self);
        }
        match self.fetch() {
            Ok(instruction) => self.execute(instruction, random, collided),
            Err(fault) => Err(fault),
        }
    }

    /// What the next cycle asks of the engine, or the fault that stops it.
    pub fn request(&self) -> (asked: Result<Request<'_>, Fault>)
        ensures
            match asked {
                Ok(request) => self@.fault() is None && request@ == self@.request(),
                Err(fault) => self@.fault() == Some(fault),
            },
    {
        proof {
            use_type_invariant(self);
        }
        let instruction = match self.fetch() {
            Ok(instruction) => instruction,
            Err(fault) => {
                return Err(fault);
            },
        };
        if let Some(fault) = self.fault_of(instruction) {
            return Err(fault);
        }
        Ok(
            match instruction {
                Instruction::ClearScreen => Request::ClearScreen,
                Instruction::Random { .. } => Request::Random,
                Instruction::Draw { x, y, height } => Request::Draw {
                    x: self.regs.v[x as usize],
                    y: self.regs.v[y as usize],
                    height,
                    sprite: self.sprite(height),
                },
                _ => Request::Nothing,
            },
        )
    }

    /// Runs one cycle: hands the engine what the cycle asks of it, if it
    /// asks anything, and carries the instruction out with the engine's
    /// answer. What the call does to the engine, and what the answer can be,
    /// is the engine's own relation for that operation. A cycle that a fault
    /// stops touches neither the machine nor the engine.
    pub fn emulate_cycle<T: Engine>(&mut self, engine: &mut T) -> (outcome: Result<(), Fault>)
        ensures
            final(self)@.wf(),
            match outcome {
                Ok(()) => {
                    &&& old(self)@.fault() is None
                    &&& match old(self)@.request() {
                        Asked::Nothing => {
                            &&& *final(engine) == *old(engine)
                            &&& final(self)@ == old(self)@.step(0, false)
                        },
                        Asked::ClearScreen => {
                            &&& old(engine).clears(final(engine))
                            &&& final(self)@ == old(self)@.step(0, false)
                        },
                        Asked::Random => exists|byte: u8|
                            {
                                &&& old(engine).gives(final(engine), byte)
                                &&& final(self)@ == old(self)@.step(byte, false)
                            },
                        Asked::Draw { x, y, height, sprite } => exists|collided: bool|
                            {
                                &&& old(engine).draws(final(engine), x, y, height, sprite, collided)
                                &&& final(self)@ == old(self)@.step(0, collided)
                            },
                    }
                },
                Err(fault) => {
                    &&& old(self)@.fault() == Some(fault)
                    &&& final(self)@ == old(self)@
                    &&& *final(engine) == *old(engine)
                },
            },
    {
        proof {
            use_type_invariant(&*self);
        }
        let (random, collided): (u8, bool) = match self.request() {
            Err(fault) => {
                return Err(fault);
            },
            Ok(Request::Nothing) => (0, false),
            Ok(Request::ClearScreen) => {
                engine.clear_screen();
                (0, false)
            },
            Ok(Request::Random) => (engine.rand(), false),
            Ok(Request::Draw { x, y, height, sprite }) => (
                0,
                engine.draw_sprite(x, y, height, sprite),
            ),
        };
        let outcome = self.step(random, collided);
        assert(self@ == old(self)@.step(random, collided));
        outcome
    }

    /// Counts both timers down by one; a timer at zero stays there.
    pub fn decrement_timers(&mut self)
        ensures
            final(self)@ == old(self)@.tick(),
            final(self)@.wf(),
    {
        proof {
            use_type_invariant(&*self);
        }
        if self.delay_timer > 0 {
            self.delay_timer -= 1;
        }
        if self.sound_timer > 0 {
            self.sound_timer -= 1;
        }
    }
}

} // verus!
