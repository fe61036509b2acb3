//! The machine state and its fetch primitive.

use crate::instructions::Instruction;
use std::collections::HashMap;
use vstd::prelude::*;

verus! {

/// Number of addressable bytes of memory.
pub const MEMORY_SIZE: usize = 0xFFF;

/// Address at which programs are loaded and execution starts.
pub const PROGRAM_START: u16 = 0x200;

/// Address of the first byte of the built-in glyph table.
pub const FONT_START: usize = 0x050;

/// Number of bytes in the built-in glyph table (16 glyphs of 5 rows each).
pub const FONT_SIZE: usize = 80;

/// The mathematical model of a [`Chip8`]: every array is a sequence of the
/// same length and every scalar is itself.
pub struct Machine {
    pub memory: Seq<u8>,
    pub registers: Seq<u8>,
    pub keys: Seq<bool>,
    pub index: u16,
    pub pc: u16,
    pub sp: u8,
    pub stack: Seq<u16>,
    pub delay_timer: u8,
    pub sound_timer: u8,
    pub instruction_fns: Map<u16, Instruction>,
    pub update_display: bool,
    pub video: Seq<u32>,
}

/// One fetched instruction word, its opcode family and its 12-bit data field.
#[derive(Clone, Copy, Debug)]
pub struct OpCode {
    pub code: u16,
    pub decoded: u16,
    pub data: u16,
}

impl OpCode {
    /// The instruction that a raw 16-bit word decodes to.
    pub open spec fn decode(raw: u16) -> OpCode {
        OpCode { code: raw, decoded: raw & 0xF000, data: raw & 0x0FFF }
    }

    /// The key under which the dispatch table is searched. Families 0x0,
    /// 0xE and 0xF are told apart by their low byte, family 0x8 by its low
    /// nibble, and every other family is its own key.
    pub open spec fn handler_key(self) -> u16 {
        if self.decoded == 0x0000 || self.decoded == 0xE000 || self.decoded == 0xF000 {
            self.code & 0xF0FF
        } else if self.decoded == 0x8000 {
            self.code & 0xF00F
        } else {
            self.decoded
        }
    }

    /// Computes the dispatch key of the instruction.
    pub fn dispatch_key(&self) -> (key: u16)
        ensures
            key == self.handler_key(),
    {
        match self.decoded {
            0x0000 | 0xE000 | 0xF000 => self.code & 0xF0FF,
            0x8000 => self.code & 0xF00F,
            code => code,
        }
    }
}

/// The whole interpreter state. Every field is open to the instruction
/// handlers and to the driver.
pub struct Chip8 {
    pub memory: [u8; 0xFFF],
    pub registers: [u8; 16],
    pub keys: [bool; 16],
    pub index: u16,
    pub pc: u16,
    pub sp: u8,
    pub stack: [u16; 16],
    pub delay_timer: u8,
    pub sound_timer: u8,
    pub instruction_fns: HashMap<u16, Instruction>,
    pub update_display: bool,
    pub video: [u32; 2048],
}

impl View for Chip8 {
    type V = Machine;

    open spec fn view(&self) -> Machine {
        Machine {
            memory: self.memory@,
            registers: self.registers@,
            keys: self.keys@,
            index: self.index,
            pc: self.pc,
            sp: self.sp,
            stack: self.stack@,
            delay_timer: self.delay_timer,
            sound_timer: self.sound_timer,
            instruction_fns: self.instruction_fns@,
            update_display: self.update_display,
            video: self.video@,
        }
    }
}

impl Machine {
    /// The state of a freshly created machine: everything zero, no key
    /// pressed, and the program counter at the load address.
    pub open spec fn initial() -> Machine {
        Machine {
            memory: Seq::new(0xFFF, |i: int| 0u8),
            registers: Seq::new(16, |i: int| 0u8),
            keys: Seq::new(16, |i: int| false),
            index: 0,
            pc: PROGRAM_START,
            sp: 0,
            stack: Seq::new(16, |i: int| 0u16),
            delay_timer: 0,
            sound_timer: 0,
            instruction_fns: crate::instructions::instruction_table(),
            update_display: false,
            video: Seq::new(2048, |i: int| 0u32),
        }
    }

    /// The big-endian 16-bit word stored at the program counter: the byte
    /// at the counter is the high one.
    pub open spec fn word_at_pc(self) -> u16 {
        (256 * self.memory[self.pc as int] + self.memory[self.pc + 1]) as u16
    }

    /// Whether both bytes of the next instruction lie inside memory.
    pub open spec fn can_fetch(self) -> bool {
        self.pc + 1 < MEMORY_SIZE
    }

    /// The state after a fetch: only the program counter moves, by two.
    pub open spec fn fetched(self) -> Machine {
        Machine { pc: (self.pc + 2) as u16, ..self }
    }

    /// The instruction at the program counter.
    pub open spec fn next_opcode(self) -> OpCode {
        OpCode::decode(self.word_at_pc())
    }

    /// The table entry for the instruction at the program counter, if the
    /// table has one.
    pub open spec fn next_instruction(self) -> Option<Instruction> {
        let key = self.next_opcode().handler_key();
        if self.instruction_fns.contains_key(key) {
            Some(self.instruction_fns[key])
        } else {
            None
        }
    }

    /// Whether one step is defined: the instruction can be fetched and, if
    /// the table knows it, executed.
    pub open spec fn can_run(self) -> bool {
        &&& self.can_fetch()
        &&& match self.next_instruction() {
            Some(instruction) => self.fetched().can_execute(instruction, self.next_opcode()),
            None => true,
        }
    }

    /// The state after one step: the fetch, then the instruction that the
    /// table gives for the dispatch key, or nothing more if it gives none.
    /// `random` is the byte drawn if that instruction asks for one.
    pub open spec fn run(self, random: u8) -> Machine {
        match self.next_instruction() {
            Some(instruction) => self.fetched().execute(instruction, self.next_opcode(), random),
            None => self.fetched(),
        }
    }

    /// The state after the glyph table has been copied to its fixed place.
    pub open spec fn with_font_set(self, fontset: Seq<u8>) -> Machine {
        Machine {
            memory: Seq::new(
                MEMORY_SIZE as nat,
                |i: int| if FONT_START <= i < FONT_START + FONT_SIZE {
                    fontset[i - FONT_START]
                } else {
                    self.memory[i]
                },
            ),
            ..self
        }
    }
}

impl Chip8 {
    /// Creates a machine in its initial state.
    pub fn new() -> (cpu: Chip8)
        ensures
            cpu@ == Machine::initial(),
    {
        let cpu = Chip8 {
            memory: [0; 0xFFF],
            registers: [0; 16],
            keys: [false; 16],
            index: 0,
            pc: PROGRAM_START,
            sp: 0,
            stack: [0; 16],
            delay_timer: 0,
            sound_timer: 0,
            instruction_fns: crate::instructions::create_opcode_instructions_map(),
            update_display: false,
            video: [0; 2048],
        };
        assert(cpu@.memory =~= Machine::initial().memory);
        assert(cpu@.registers =~= Machine::initial().registers);
        assert(cpu@.keys =~= Machine::initial().keys);
        assert(cpu@.stack =~= Machine::initial().stack);
        assert(cpu@.video =~= Machine::initial().video);
        cpu
    }

    /// Reads the instruction word at the program counter.
    fn peek_opcode(&self) -> (opcode: OpCode)
        requires
            self@.can_fetch(),
        ensures
            opcode == self@.next_opcode(),
    {
        let high: u8 = self.memory[self.pc as usize];
        let low: u8 = self.memory[self.pc as usize + 1];
        let opcode: u16 = (high as u16) << 8 | low as u16;
        assert((high as u16) << 8 | low as u16 == 256 * (high as u16) + (low as u16))
            by (bit_vector);
        OpCode { code: opcode, decoded: opcode & 0xF000, data: opcode & 0x0FFF }
    }

    /// Fetches the instruction word at the program counter and steps the
    /// counter past it. Memory is not touched.
    pub fn get_next_opcode(&mut self) -> (opcode: OpCode)
        requires
            old(self)@.can_fetch(),
        ensures
            opcode == OpCode::decode(old(self)@.word_at_pc()),
            final(self)@ == old(self)@.fetched(),
    {
        let opcode: OpCode = self.peek_opcode();
        self.pc += 2;
        opcode
    }

    /// Looks up the table entry for a dispatch key.
    fn instruction_for(&self, key: u16) -> (found: Option<Instruction>)
        ensures
            found == if self@.instruction_fns.contains_key(key) {
                Some(self@.instruction_fns[key])
            } else {
                None
            },
    {
        match self.instruction_fns.get(&key) {
            Some(instruction) => Some(*instruction),
            None => None,
        }
    }

    /// Performs one step: fetches the instruction at the program counter
    /// and applies the table entry for its dispatch key. An instruction
    /// that the table does not know changes nothing but the program
    /// counter.
    pub fn run(&mut self)
        requires
            old(self)@.can_run(),
        ensures
            exists|random: u8| final(self)@ == #[trigger] old(self)@.run(random),
            old(self)@.next_instruction() != Some(Instruction::BitwiseOnARandomNumberAndStore)
                ==> final(self)@ == old(self)@.run(0),
    {
        let opcode: OpCode = self.get_next_opcode();
        let handler_key: u16 = opcode.dispatch_key();
        match self.instruction_for(handler_key) {
            Some(instruction) => {
                let ghost fetched = self@;
                crate::instructions::execute(self, instruction, opcode);
                proof {
                    let random = choose|random: u8|
                        self@ == #[trigger] fetched.execute(instruction, opcode, random);
                    assert(self@ == old(self)@.run(random));
                }
            },
            None => {
                assert(self@ == old(self)@.run(0));
            },
        }
    }

    /// Tells whether `run` is defined on this machine.
    pub fn can_run(&self) -> (defined: bool)
        ensures
            defined == self@.can_run(),
    {
        if self.pc as usize + 1 >= MEMORY_SIZE {
            return false;
        }
        let opcode: OpCode = self.peek_opcode();
        let handler_key: u16 = opcode.dispatch_key();
        match self.instruction_for(handler_key) {
            Some(instruction) => {
                crate::instructions::can_execute_at(self, self.pc + 2, instruction, opcode)
            },
            None => true,
        }
    }

    /// Performs one step if it is defined, and tells whether it was. A
    /// machine on which the step is not defined is left as it is.
    pub fn try_run(&mut self) -> (ran: bool)
        ensures
            ran == old(self)@.can_run(),
            !ran ==> final(self)@ == old(self)@,
            ran ==> exists|random: u8| final(self)@ == #[trigger] old(self)@.run(random),
            ran && old(self)@.next_instruction() != Some(
                Instruction::BitwiseOnARandomNumberAndStore,
            ) ==> final(self)@ == old(self)@.run(0),
    {
        if self.can_run() {
            self.run();
            true
        } else {
            false
        }
    }

    /// Copies the 80-byte glyph table into memory at its fixed address.
    pub fn load_font_set(&mut self, fontset: [u8; 80])
        ensures
            final(self)@ == old(self)@.with_font_set(fontset@),
    {
        let mut offset: usize = 0;
        while offset < FONT_SIZE
            invariant
                offset <= FONT_SIZE,
                self.registers == old(self).registers,
                self.keys == old(self).keys,
                self.index == old(self).index,
                self.pc == old(self).pc,
                self.sp == old(self).sp,
                self.stack == old(self).stack,
                self.delay_timer == old(self).delay_timer,
                self.sound_timer == old(self).sound_timer,
                self.instruction_fns == old(self).instruction_fns,
                self.update_display == old(self).update_display,
                self.video == old(self).video,
                forall|i: int|
                    0 <= i < MEMORY_SIZE ==> self.memory[i] == if FONT_START <= i < FONT_START
                        + offset {
                        fontset[i - FONT_START]
                    } else {
                        old(self).memory[i]
                    },
            decreases FONT_SIZE - offset,
        {
            self.memory[FONT_START + offset] = fontset[offset];
            offset += 1;
        }
        assert(self@.memory =~= old(self)@.with_font_set(fontset@).memory);
    }
}

} // verus!
