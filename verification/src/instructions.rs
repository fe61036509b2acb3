//! The instruction set: what each opcode does to the machine, and the table
//! that maps dispatch keys to instructions.

use crate::chip8::{Chip8, Machine, OpCode};
use std::collections::HashMap;
use vstd::prelude::*;

verus! {

/// Index of the flag register, which reports carry, borrow and collision.
pub const VF: usize = 0xF;

/// Value of a lit framebuffer cell: all bits set.
pub const LIT: u32 = 0xFFFF_FFFF;

/// The operations of the machine, one per entry of the dispatch table.
#[derive(Clone, Copy, Debug, PartialEq, Eq, Structural)]
pub enum Instruction {
    ClearScreen,
    ReturnFromSubroutine,
    JumpToAddress,
    CallSubroutine,
    JumpIfRegValueIsEqualToNumber,
    JumpIfRegValueIsNotEqualToNumber,
    JumpIfRegValuesAreEqual,
    StoreNumberInRegister,
    AddToRegisterAndIgnoreCarryFlag,
    CopyRegisterValue,
    BitwiseOrAndStore,
    BitwiseAndAndStore,
    BitwiseXorAndStore,
    AddAndStore,
    SubtractAndStore,
    BitwiseShiftRightAndStore,
    SubtractAndStoreAndSetVf,
    StoreMsbAndLeftShift,
    JumpIfRegValuesAreNotEqual,
    SetIndexToMemAddress,
    JumpToAddressPlusV0,
    BitwiseOnARandomNumberAndStore,
    DrawSprite,
    JumpIfKeyIsPressed,
    JumpIfKeyIsNotPressed,
    GetDelayTimerAndSetToVx,
    GetKeyPressAndStore,
    SetDelayTimerToVx,
    SetSoundTimerToVx,
    AddVxToIAndSetOverflow,
    SetIToLocationOfSpriteInVx,
    StoreBinaryCodedDecimalRepresentationOfVx,
    StoreV0ToVxStartingAtAddressI,
    FillV0ToVxStartingAtAddressI,
}

impl OpCode {
    /// The first register number of the instruction: bits 8 to 11.
    pub open spec fn x(self) -> int {
        (self.code as int / 256) % 16
    }

    /// The second register number of the instruction: bits 4 to 7.
    pub open spec fn y(self) -> int {
        (self.code as int / 16) % 16
    }

    /// The immediate byte of the instruction: its low 8 bits.
    pub open spec fn number(self) -> u8 {
        (self.code as int % 256) as u8
    }

    /// The low 4 bits of the instruction.
    pub open spec fn nibble(self) -> int {
        self.code as int % 16
    }

    /// The low 12 bits of the instruction word.
    pub open spec fn address(self) -> u16 {
        (self.code as int % 4096) as u16
    }
}

/// The two register numbers encoded in the instruction.
pub fn get_vx_and_vy(opcode: &OpCode) -> (r: (usize, usize))
    ensures
        r.0 == opcode.x(),
        r.1 == opcode.y(),
        r.0 < 16,
        r.1 < 16,
{
    let code: u16 = opcode.code;
    let vx: u16 = (code & 0x0F00) >> 8;
    let vy: u16 = (code & 0x00F0) >> 4;
    assert((code & 0x0F00) >> 8 == (code / 256) % 16) by (bit_vector);
    assert((code & 0x00F0) >> 4 == (code / 16) % 16) by (bit_vector);
    (vx as usize, vy as usize)
}

/// The first register number and the immediate byte encoded in the
/// instruction.
pub fn get_vx_and_number(opcode: &OpCode) -> (r: (usize, u8))
    ensures
        r.0 == opcode.x(),
        r.1 == opcode.number(),
        r.0 < 16,
{
    let code: u16 = opcode.code;
    let vx: u16 = (code & 0x0F00) >> 8;
    let number: u16 = code & 0x00FF;
    assert((code & 0x0F00) >> 8 == (code / 256) % 16) by (bit_vector);
    assert(code & 0x00FF == code % 256) by (bit_vector);
    (vx as usize, number as u8)
}

/// The dispatch table as a mathematical map from key to instruction.
pub open spec fn instruction_table() -> Map<u16, Instruction> {
    Map::<u16, Instruction>::empty()
        .insert(0x00E0, Instruction::ClearScreen)
        .insert(0x00EE, Instruction::ReturnFromSubroutine)
        .insert(0x1000, Instruction::JumpToAddress)
        .insert(0x2000, Instruction::CallSubroutine)
        .insert(0x3000, Instruction::JumpIfRegValueIsEqualToNumber)
        .insert(0x4000, Instruction::JumpIfRegValueIsNotEqualToNumber)
        .insert(0x5000, Instruction::JumpIfRegValuesAreEqual)
        .insert(0x6000, Instruction::StoreNumberInRegister)
        .insert(0x7000, Instruction::AddToRegisterAndIgnoreCarryFlag)
        .insert(0x8000, Instruction::CopyRegisterValue)
        .insert(0x8001, Instruction::BitwiseOrAndStore)
        .insert(0x8002, Instruction::BitwiseAndAndStore)
        .insert(0x8003, Instruction::BitwiseXorAndStore)
        .insert(0x8004, Instruction::AddAndStore)
        .insert(0x8005, Instruction::SubtractAndStore)
        .insert(0x8006, Instruction::BitwiseShiftRightAndStore)
        .insert(0x8007, Instruction::SubtractAndStoreAndSetVf)
        .insert(0x800E, Instruction::StoreMsbAndLeftShift)
        .insert(0x9000, Instruction::JumpIfRegValuesAreNotEqual)
        .insert(0xA000, Instruction::SetIndexToMemAddress)
        .insert(0xB000, Instruction::JumpToAddressPlusV0)
        .insert(0xC000, Instruction::BitwiseOnARandomNumberAndStore)
        .insert(0xD000, Instruction::DrawSprite)
        .insert(0xE09E, Instruction::JumpIfKeyIsPressed)
        .insert(0xE0A1, Instruction::JumpIfKeyIsNotPressed)
        .insert(0xF007, Instruction::GetDelayTimerAndSetToVx)
        .insert(0xF00A, Instruction::GetKeyPressAndStore)
        .insert(0xF015, Instruction::SetDelayTimerToVx)
        .insert(0xF018, Instruction::SetSoundTimerToVx)
        .insert(0xF01E, Instruction::AddVxToIAndSetOverflow)
        .insert(0xF029, Instruction::SetIToLocationOfSpriteInVx)
        .insert(0xF033, Instruction::StoreBinaryCodedDecimalRepresentationOfVx)
        .insert(0xF055, Instruction::StoreV0ToVxStartingAtAddressI)
        .insert(0xF065, Instruction::FillV0ToVxStartingAtAddressI)
}

/// Builds the dispatch table.
pub fn create_opcode_instructions_map() -> (map: HashMap<u16, Instruction>)
    ensures
        map@ == instruction_table(),
{
    let mut map: HashMap<u16, Instruction> = HashMap::new();
    map.insert(0x00E0, Instruction::ClearScreen);
    map.insert(0x00EE, Instruction::ReturnFromSubroutine);
    map.insert(0x1000, Instruction::JumpToAddress);
    map.insert(0x2000, Instruction::CallSubroutine);
    map.insert(0x3000, Instruction::JumpIfRegValueIsEqualToNumber);
    map.insert(0x4000, Instruction::JumpIfRegValueIsNotEqualToNumber);
    map.insert(0x5000, Instruction::JumpIfRegValuesAreEqual);
    map.insert(0x6000, Instruction::StoreNumberInRegister);
    map.insert(0x7000, Instruction::AddToRegisterAndIgnoreCarryFlag);
    map.insert(0x8000, Instruction::CopyRegisterValue);
    map.insert(0x8001, Instruction::BitwiseOrAndStore);
    map.insert(0x8002, Instruction::BitwiseAndAndStore);
    map.insert(0x8003, Instruction::BitwiseXorAndStore);
    map.insert(0x8004, Instruction::AddAndStore);
    map.insert(0x8005, Instruction::SubtractAndStore);
    map.insert(0x8006, Instruction::BitwiseShiftRightAndStore);
    map.insert(0x8007, Instruction::SubtractAndStoreAndSetVf);
    map.insert(0x800E, Instruction::StoreMsbAndLeftShift);
    map.insert(0x9000, Instruction::JumpIfRegValuesAreNotEqual);
    map.insert(0xA000, Instruction::SetIndexToMemAddress);
    map.insert(0xB000, Instruction::JumpToAddressPlusV0);
    map.insert(0xC000, Instruction::BitwiseOnARandomNumberAndStore);
    map.insert(0xD000, Instruction::DrawSprite);
    map.insert(0xE09E, Instruction::JumpIfKeyIsPressed);
    map.insert(0xE0A1, Instruction::JumpIfKeyIsNotPressed);
    map.insert(0xF007, Instruction::GetDelayTimerAndSetToVx);
    map.insert(0xF00A, Instruction::GetKeyPressAndStore);
    map.insert(0xF015, Instruction::SetDelayTimerToVx);
    map.insert(0xF018, Instruction::SetSoundTimerToVx);
    map.insert(0xF01E, Instruction::AddVxToIAndSetOverflow);
    map.insert(0xF029, Instruction::SetIToLocationOfSpriteInVx);
    map.insert(0xF033, Instruction::StoreBinaryCodedDecimalRepresentationOfVx);
    map.insert(0xF055, Instruction::StoreV0ToVxStartingAtAddressI);
    map.insert(0xF065, Instruction::FillV0ToVxStartingAtAddressI);
    map
}

/// The value of a framebuffer cell after one toggle.
pub open spec fn toggled(cell: u32) -> u32 {
    cell ^ 0xFFFF_FFFFu32
}

/// Whether bit `column` of a sprite row is set, counting from the most
/// significant bit.
pub open spec fn sprite_bit(row: u8, column: u8) -> bool {
    row & (0x80u8 >> column) != 0
}

/// The framebuffer cell that the sprite pixel at (`row`, `column`) lands on
/// when the sprite's corner is at (`origin_x`, `origin_y`). A sprite that
/// runs past the right or bottom edge continues at the opposite edge.
pub open spec fn sprite_cell(origin_x: int, origin_y: int, row: int, column: int) -> int {
    ((origin_y + row) % 32) * 64 + (origin_x + column) % 64
}

/// The sprite row that lands on the screen row of `cell`.
pub open spec fn sprite_row_at(origin_y: int, cell: int) -> int {
    (cell / 64 + 32 - origin_y) % 32
}

/// The sprite column that lands on the screen column of `cell`.
pub open spec fn sprite_column_at(origin_x: int, cell: int) -> int {
    (cell % 64 + 64 - origin_x) % 64
}

impl Machine {
    /// Screen column of the sprite's corner: the first register, wrapped to
    /// the screen width.
    pub open spec fn sprite_origin_x(self, opcode: OpCode) -> int {
        self.registers[opcode.x()] as int % 64
    }

    /// Screen row of the sprite's corner: the second register, wrapped to the
    /// screen height.
    pub open spec fn sprite_origin_y(self, opcode: OpCode) -> int {
        self.registers[opcode.y()] as int % 32
    }

    /// Whether the sprite named by the instruction has a set pixel on `cell`.
    pub open spec fn sprite_covers(self, opcode: OpCode, cell: int) -> bool {
        let row = sprite_row_at(self.sprite_origin_y(opcode), cell);
        let column = sprite_column_at(self.sprite_origin_x(opcode), cell);
        &&& row < opcode.nibble()
        &&& column < 8
        &&& sprite_bit(self.memory[self.index + row], column as u8)
    }

    /// Whether the sprite has a set pixel on `cell` among the pixels that
    /// come before (`row`, `column`) in drawing order.
    pub open spec fn sprite_covers_before(self, opcode: OpCode, cell: int, row: int, column: int) -> bool {
        let cell_row = sprite_row_at(self.sprite_origin_y(opcode), cell);
        let cell_column = sprite_column_at(self.sprite_origin_x(opcode), cell);
        &&& self.sprite_covers(opcode, cell)
        &&& (cell_row < row || (cell_row == row && cell_column < column))
    }

    /// Whether drawing the sprite turns off a pixel that is lit.
    pub open spec fn sprite_collides(self, opcode: OpCode) -> bool {
        exists|cell: int| 0 <= cell < 2048 && #[trigger] self.sprite_covers(opcode, cell) && self.video[cell] == LIT
    }

    /// Whether every row of the sprite can be read from memory.
    pub open spec fn can_draw_sprite(self, opcode: OpCode) -> bool {
        opcode.nibble() > 0 ==> self.index + opcode.nibble() <= 0xFFF
    }

    /// The state after the sprite is drawn: each covered cell is toggled,
    /// the flag register reports a collision, the display is dirty.
    pub open spec fn draw_sprite(self, opcode: OpCode) -> Machine {
        Machine {
            registers: self.registers.update(0xF, if self.sprite_collides(opcode) { 1u8 } else { 0u8 }),
            video: Seq::new(
                2048,
                |cell: int| if self.sprite_covers(opcode, cell) {
                    toggled(self.video[cell])
                } else {
                    self.video[cell]
                },
            ),
            update_display: true,
            ..self
        }
    }
}

/// Draws the sprite of `opcode & 0xF` rows stored at `index` with its corner
/// at the screen position held by the two registers of the instruction. Each
/// set bit toggles one cell; the flag register becomes 1 if a lit cell was
/// turned off and 0 otherwise. Pixels past the right or bottom edge wrap to
/// the opposite edge.
pub fn draw_sprite(cpu: &mut Chip8, opcode: OpCode)
    requires
        old(cpu)@.can_draw_sprite(opcode),
    ensures
        final(cpu)@ == old(cpu)@.draw_sprite(opcode),
{
    let (vx, vy) = get_vx_and_vy(&opcode);
    let code: u16 = opcode.code;
    let height: u16 = code & 0x000F;
    assert(code & 0x000F == code % 16) by (bit_vector);

    let x_position: u16 = (cpu.registers[vx] % 64) as u16;
    let y_position: u16 = (cpu.registers[vy] % 32) as u16;
    let ghost before = old(cpu)@;
    let ghost ox = before.sprite_origin_x(opcode);
    let ghost oy = before.sprite_origin_y(opcode);

    cpu.registers[VF] = 0;

    let mut h: u16 = 0;
    while h < height
        invariant
            h <= height,
            height == opcode.nibble(),
            height < 16,
            x_position == ox,
            y_position == oy,
            0 <= ox < 64,
            0 <= oy < 32,
            before == old(cpu)@,
            before.memory.len() == 0xFFF,
            before.registers.len() == 16,
            before.video.len() == 2048,
            ox == before.sprite_origin_x(opcode),
            oy == before.sprite_origin_y(opcode),
            before.can_draw_sprite(opcode),
            cpu@ == (Machine { registers: cpu@.registers, video: cpu@.video, ..before }),
            cpu@.registers == before.registers.update(0xF, cpu@.registers[0xF]),
            cpu@.registers[0xF] == 0 || cpu@.registers[0xF] == 1,
            cpu@.registers[0xF] == 1 ==> before.sprite_collides(opcode),
            cpu@.registers[0xF] == 0 ==> forall|cell: int|
                0 <= cell < 2048 && #[trigger] before.sprite_covers_before(opcode, cell, h as int, 0)
                    ==> before.video[cell] != LIT,
            forall|cell: int|
                0 <= cell < 2048 ==> cpu@.video[cell] == if #[trigger] before.sprite_covers_before(
                    opcode,
                    cell,
                    h as int,
                    0,
                ) {
                    toggled(before.video[cell])
                } else {
                    before.video[cell]
                },
        decreases height - h,
    {
        let sprite: u8 = cpu.memory[(cpu.index + h) as usize];
        let mut w: u8 = 0;
        while w < 8
            invariant
                w <= 8,
                h < height,
                height == opcode.nibble(),
                height < 16,
                x_position == ox,
                y_position == oy,
                0 <= ox < 64,
                0 <= oy < 32,
                before == old(cpu)@,
                before.memory.len() == 0xFFF,
                before.registers.len() == 16,
                before.video.len() == 2048,
                before.can_draw_sprite(opcode),
                ox == before.sprite_origin_x(opcode),
                oy == before.sprite_origin_y(opcode),
                sprite == before.memory[before.index + h],
                cpu@ == (Machine { registers: cpu@.registers, video: cpu@.video, ..before }),
                cpu@.registers == before.registers.update(0xF, cpu@.registers[0xF]),
                cpu@.registers[0xF] == 0 || cpu@.registers[0xF] == 1,
                cpu@.registers[0xF] == 1 ==> before.sprite_collides(opcode),
                cpu@.registers[0xF] == 0 ==> forall|cell: int|
                    0 <= cell < 2048 && #[trigger] before.sprite_covers_before(
                        opcode,
                        cell,
                        h as int,
                        w as int,
                    ) ==> before.video[cell] != LIT,
                forall|cell: int|
                    0 <= cell < 2048 ==> cpu@.video[cell] == if #[trigger] before.sprite_covers_before(
                        opcode,
                        cell,
                        h as int,
                        w as int,
                    ) {
                        toggled(before.video[cell])
                    } else {
                        before.video[cell]
                    },
            decreases 8 - w,
        {
            let pixel: u8 = sprite & (0x80u8 >> w);
            let existing_pixel_index: usize = (((y_position + h) % 32) * 64 + (x_position + (
            w as u16)) % 64) as usize;
            let ghost target = sprite_cell(ox, oy, h as int, w as int);
            let ghost video_before = cpu@.video;
            proof {
                lemma_sprite_cell(ox, oy, h as int, w as int);
                assert(existing_pixel_index == target);
                assert(!before.sprite_covers_before(opcode, target, h as int, w as int));
                assert(before.sprite_covers(opcode, target) <==> pixel != 0);
            }
            let existing_pixel: u32 = cpu.video[existing_pixel_index];
            if pixel != 0 {
                if existing_pixel == 0xFFFF_FFFF {
                    cpu.registers[VF] = 1;
                }
                cpu.video[existing_pixel_index] = existing_pixel ^ 0xFFFF_FFFF;
            }
            proof {
                assert forall|cell: int| 0 <= cell < 2048 implies (
                #[trigger] before.sprite_covers_before(opcode, cell, h as int, w + 1)
                    <==> before.sprite_covers_before(opcode, cell, h as int, w as int) || (cell
                    == target && pixel != 0)) by {
                    if sprite_row_at(oy, cell) == h && sprite_column_at(ox, cell) == w {
                        lemma_sprite_cell_unique(ox, oy, h as int, w as int, cell);
                    }
                }
                assert forall|cell: int| 0 <= cell < 2048 implies cpu@.video[cell] == if before.sprite_covers_before(
                    opcode,
                    cell,
                    h as int,
                    w + 1,
                ) {
                    toggled(before.video[cell])
                } else {
                    before.video[cell]
                } by {
                    assert(video_before[cell] == if before.sprite_covers_before(
                        opcode,
                        cell,
                        h as int,
                        w as int,
                    ) {
                        toggled(before.video[cell])
                    } else {
                        before.video[cell]
                    });
                }
            }
            w += 1;
        }
        proof {
            assert forall|cell: int|
                #![trigger before.sprite_covers_before(opcode, cell, h as int, 8)]
                #![trigger before.sprite_covers_before(opcode, cell, h + 1, 0)]
                0 <= cell < 2048 implies (before.sprite_covers_before(opcode, cell, h as int, 8)
                <==> before.sprite_covers_before(opcode, cell, h + 1, 0)) by {}
        }
        h += 1;
    }
    cpu.update_display = true;
    proof {
        assert forall|cell: int|
            #![trigger before.sprite_covers_before(opcode, cell, height as int, 0)]
            #![trigger before.sprite_covers(opcode, cell)]
            0 <= cell < 2048 implies (before.sprite_covers_before(opcode, cell, height as int, 0)
            <==> before.sprite_covers(opcode, cell)) by {}
        assert(cpu@.video =~= before.draw_sprite(opcode).video);
        assert(cpu@.registers =~= before.draw_sprite(opcode).registers);
    }
}

/// The pixel at (`row`, `column`) of a sprite lands on a cell of the screen
/// from which that row and column are read back.
pub proof fn lemma_sprite_cell(origin_x: int, origin_y: int, row: int, column: int)
    requires
        0 <= origin_x < 64,
        0 <= origin_y < 32,
        0 <= row < 32,
        0 <= column < 64,
    ensures
        0 <= sprite_cell(origin_x, origin_y, row, column) < 2048,
        sprite_row_at(origin_y, sprite_cell(origin_x, origin_y, row, column)) == row,
        sprite_column_at(origin_x, sprite_cell(origin_x, origin_y, row, column)) == column,
{
}

/// Only one cell of the screen shows the pixel at (`row`, `column`) of a
/// sprite.
pub proof fn lemma_sprite_cell_unique(origin_x: int, origin_y: int, row: int, column: int, cell: int)
    requires
        0 <= origin_x < 64,
        0 <= origin_y < 32,
        0 <= cell < 2048,
        sprite_row_at(origin_y, cell) == row,
        sprite_column_at(origin_x, cell) == column,
    ensures
        cell == sprite_cell(origin_x, origin_y, row, column),
{
}

/// The sum of two bytes, reduced modulo 256.
pub open spec fn wrapped_sum(a: u8, b: u8) -> u8 {
    ((a + b) % 256) as u8
}

/// The difference of two bytes, reduced modulo 256.
pub open spec fn wrapped_difference(a: u8, b: u8) -> u8 {
    ((a - b) % 256) as u8
}

/// 1 for true and 0 for false, as stored in the flag register.
pub open spec fn flag(condition: bool) -> u8 {
    if condition {
        1
    } else {
        0
    }
}

/// The lowest key number at or above `from` that is pressed, or 16 if there
/// is none.
pub open spec fn first_pressed_key(keys: Seq<bool>, from: int) -> int
    decreases 16 - from,
{
    if from >= 16 {
        16
    } else if keys[from] {
        from
    } else {
        first_pressed_key(keys, from + 1)
    }
}

impl Machine {
    /// The state with the program counter moved past the next instruction
    /// if `condition` holds, and the same state if not.
    pub open spec fn skip_if(self, condition: bool) -> Machine {
        if condition {
            Machine { pc: (self.pc + 2) as u16, ..self }
        } else {
            self
        }
    }

    /// Whether the program counter can move past the next instruction in
    /// case `condition` holds.
    pub open spec fn can_skip_if(self, condition: bool) -> bool {
        condition ==> self.pc <= 0xFFFF - 2
    }

    /// Whether the stack has room for one more return address.
    pub open spec fn can_call_subroutine(self) -> bool {
        self.sp < 16
    }

    /// The program counter is pushed on the stack and takes the data field of
    /// the instruction.
    pub open spec fn call_subroutine(self, opcode: OpCode) -> Machine {
        Machine {
            stack: self.stack.update(self.sp as int, self.pc),
            sp: (self.sp + 1) as u8,
            pc: opcode.data,
            ..self
        }
    }

    /// Every cell of the framebuffer is unlit and the display is dirty.
    pub open spec fn clear_screen(self) -> Machine {
        Machine { video: Seq::new(2048, |cell: int| 0u32), update_display: true, ..self }
    }

    /// Whether the stack holds a return address.
    pub open spec fn can_return_from_subroutine(self) -> bool {
        0 < self.sp <= 16
    }

    /// The program counter takes the address on top of the stack, which is
    /// popped.
    pub open spec fn return_from_subroutine(self) -> Machine {
        Machine { sp: (self.sp - 1) as u8, pc: self.stack[self.sp - 1], ..self }
    }

    /// The program counter takes the data field of the instruction.
    pub open spec fn jump_to_address(self, opcode: OpCode) -> Machine {
        Machine { pc: opcode.data, ..self }
    }

    /// The next instruction is skipped if both registers hold the same value.
    pub open spec fn jump_if_reg_values_are_equal(self, opcode: OpCode) -> Machine {
        self.skip_if(self.registers[opcode.x()] == self.registers[opcode.y()])
    }

    /// The next instruction is skipped if the register holds the immediate
    /// byte.
    pub open spec fn jump_if_reg_value_is_equal_to_number(self, opcode: OpCode) -> Machine {
        self.skip_if(self.registers[opcode.x()] == opcode.number())
    }

    /// The next instruction is skipped if the register does not hold the
    /// immediate byte.
    pub open spec fn jump_if_reg_value_is_not_equal_to_number(self, opcode: OpCode) -> Machine {
        self.skip_if(self.registers[opcode.x()] != opcode.number())
    }

    /// The next instruction is skipped if the registers hold different values.
    pub open spec fn jump_if_reg_values_are_not_equal(self, opcode: OpCode) -> Machine {
        self.skip_if(self.registers[opcode.x()] != self.registers[opcode.y()])
    }

    /// The register takes the immediate byte.
    pub open spec fn store_number_in_register(self, opcode: OpCode) -> Machine {
        Machine { registers: self.registers.update(opcode.x(), opcode.number()), ..self }
    }

    /// The first register takes the value of the second.
    pub open spec fn copy_register_value(self, opcode: OpCode) -> Machine {
        Machine {
            registers: self.registers.update(opcode.x(), self.registers[opcode.y()]),
            ..self
        }
    }

    /// The register grows by the immediate byte, modulo 256.
    pub open spec fn add_to_register_and_ignore_carry_flag(self, opcode: OpCode) -> Machine {
        Machine {
            registers: self.registers.update(
                opcode.x(),
                wrapped_sum(self.registers[opcode.x()], opcode.number()),
            ),
            ..self
        }
    }

    /// The first register takes the bitwise or of both.
    pub open spec fn bitwise_or_and_store(self, opcode: OpCode) -> Machine {
        Machine {
            registers: self.registers.update(
                opcode.x(),
                self.registers[opcode.x()] | self.registers[opcode.y()],
            ),
            ..self
        }
    }

    /// The first register takes the bitwise and of both.
    pub open spec fn bitwise_and_and_store(self, opcode: OpCode) -> Machine {
        Machine {
            registers: self.registers.update(
                opcode.x(),
                self.registers[opcode.x()] & self.registers[opcode.y()],
            ),
            ..self
        }
    }

    /// The first register takes the bitwise exclusive or of both.
    pub open spec fn bitwise_xor_and_store(self, opcode: OpCode) -> Machine {
        Machine {
            registers: self.registers.update(
                opcode.x(),
                self.registers[opcode.x()] ^ self.registers[opcode.y()],
            ),
            ..self
        }
    }

    /// The flag register takes the lowest bit of the register, then the
    /// register is halved.
    pub open spec fn bitwise_shift_right_and_store(self, opcode: OpCode) -> Machine {
        let flagged = self.registers.update(0xF, (self.registers[opcode.x()] % 2) as u8);
        Machine { registers: flagged.update(opcode.x(), (flagged[opcode.x()] / 2) as u8), ..self }
    }

    /// The flag register takes the carry of the sum of both registers, then
    /// the first register takes the sum modulo 256.
    pub open spec fn add_and_store(self, opcode: OpCode) -> Machine {
        let a = self.registers[opcode.x()];
        let b = self.registers[opcode.y()];
        Machine {
            registers: self.registers.update(0xF, flag(a + b > 255)).update(
                opcode.x(),
                wrapped_sum(a, b),
            ),
            ..self
        }
    }

    /// The flag register becomes 1 if the first register is at least the
    /// second, then the first register takes first minus second modulo 256.
    pub open spec fn subtract_and_store(self, opcode: OpCode) -> Machine {
        let flagged = self.registers.update(
            0xF,
            flag(self.registers[opcode.x()] >= self.registers[opcode.y()]),
        );
        Machine {
            registers: flagged.update(
                opcode.x(),
                wrapped_difference(flagged[opcode.x()], flagged[opcode.y()]),
            ),
            ..self
        }
    }

    /// The flag register becomes 1 if the second register is at least the
    /// first, then the first register takes second minus first modulo 256.
    pub open spec fn subtract_and_store_and_set_vf(self, opcode: OpCode) -> Machine {
        let flagged = self.registers.update(
            0xF,
            flag(self.registers[opcode.y()] >= self.registers[opcode.x()]),
        );
        Machine {
            registers: flagged.update(
                opcode.x(),
                wrapped_difference(flagged[opcode.y()], flagged[opcode.x()]),
            ),
            ..self
        }
    }

    /// The flag register takes the highest bit of the register, then the
    /// register is doubled modulo 256.
    pub open spec fn store_msb_and_left_shift(self, opcode: OpCode) -> Machine {
        let flagged = self.registers.update(0xF, (self.registers[opcode.x()] / 128) as u8);
        Machine {
            registers: flagged.update(opcode.x(), ((flagged[opcode.x()] * 2) % 256) as u8),
            ..self
        }
    }

    /// The index register takes the low 12 bits of the instruction.
    pub open spec fn set_index_to_mem_address(self, opcode: OpCode) -> Machine {
        Machine { index: opcode.address(), ..self }
    }

    /// The program counter takes the low 12 bits of the instruction plus
    /// register 0.
    pub open spec fn jump_to_address_plus_v0(self, opcode: OpCode) -> Machine {
        Machine { pc: (self.registers[0] + opcode.address()) as u16, ..self }
    }

    /// The register takes the bits of `random` that the immediate byte of
    /// the instruction lets through.
    pub open spec fn bitwise_on_a_random_number_and_store(self, opcode: OpCode, random: u8) -> Machine {
        Machine { registers: self.registers.update(opcode.x(), random & opcode.number()), ..self }
    }

    /// Whether the register of the instruction names one of the 16 keys and
    /// the program counter can move past the next instruction in case the
    /// key is found in the state `pressed`.
    pub open spec fn can_jump_on_key(self, opcode: OpCode, pressed: bool) -> bool {
        &&& self.registers[opcode.x()] < 16
        &&& self.can_skip_if(self.keys[self.registers[opcode.x()] as int] == pressed)
    }

    /// The next instruction is skipped if the key named by the register is
    /// pressed.
    pub open spec fn jump_if_key_is_pressed(self, opcode: OpCode) -> Machine {
        self.skip_if(self.keys[self.registers[opcode.x()] as int])
    }

    /// The next instruction is skipped if the key named by the register is not
    /// pressed.
    pub open spec fn jump_if_key_is_not_pressed(self, opcode: OpCode) -> Machine {
        self.skip_if(!self.keys[self.registers[opcode.x()] as int])
    }

    /// The register takes the value of the delay timer.
    pub open spec fn get_delay_timer_and_set_to_vx(self, opcode: OpCode) -> Machine {
        Machine { registers: self.registers.update(opcode.x(), self.delay_timer), ..self }
    }

    /// The delay timer takes the register number of the instruction.
    pub open spec fn set_delay_timer_to_vx(self, opcode: OpCode) -> Machine {
        Machine { delay_timer: opcode.x() as u8, ..self }
    }

    /// The sound timer takes the register number of the instruction.
    pub open spec fn set_sound_timer_to_vx(self, opcode: OpCode) -> Machine {
        Machine { sound_timer: opcode.x() as u8, ..self }
    }

    /// Whether a key is pressed, or the program counter can move back over
    /// one instruction.
    pub open spec fn can_get_key_press_and_store(self) -> bool {
        first_pressed_key(self.keys, 0) < 16 || self.pc >= 2
    }

    /// With a key pressed, the register takes the lowest pressed key number.
    /// With none, the program counter moves back over the instruction.
    pub open spec fn get_key_press_and_store(self, opcode: OpCode) -> Machine {
        let key = first_pressed_key(self.keys, 0);
        if key < 16 {
            Machine { registers: self.registers.update(opcode.x(), key as u8), ..self }
        } else {
            Machine { pc: (self.pc - 2) as u16, ..self }
        }
    }

    /// Whether the index register can grow by the register number of the
    /// instruction.
    pub open spec fn can_add_vx_to_i_and_set_overflow(self, opcode: OpCode) -> bool {
        self.index + opcode.x() <= 0xFFFF
    }

    /// The index register grows by the register number of the instruction;
    /// the flag register tells whether it has left the address space.
    pub open spec fn add_vx_to_i_and_set_overflow(self, opcode: OpCode) -> Machine {
        Machine {
            registers: self.registers.update(0xF, flag(self.index + opcode.x() > 0xFFF)),
            index: (self.index + opcode.x()) as u16,
            ..self
        }
    }

    /// The index register takes the address of the glyph for the digit held
    /// by the register: 0x50 plus five times the register.
    pub open spec fn set_i_to_location_of_sprite_in_vx(self, opcode: OpCode) -> Machine {
        Machine { index: (0x50 + 5 * self.registers[opcode.x()]) as u16, ..self }
    }

    /// Whether the three digits fit in memory at the index register.
    pub open spec fn can_store_binary_coded_decimal_representation_of_vx(self) -> bool {
        self.index + 2 < 0xFFF
    }

    /// Memory at the index register takes the hundreds, tens and units digit
    /// of the register, in that order.
    pub open spec fn store_binary_coded_decimal_representation_of_vx(self, opcode: OpCode) -> Machine {
        let value = self.registers[opcode.x()];
        Machine {
            memory: self.memory.update(self.index + 2, (value % 10) as u8).update(
                self.index + 1,
                ((value / 10) % 10) as u8,
            ).update(self.index as int, ((value / 100) % 10) as u8),
            ..self
        }
    }

    /// Whether memory at the index register has a byte for each of the
    /// registers 0 to x.
    pub open spec fn can_transfer_v0_to_vx(self, opcode: OpCode) -> bool {
        self.index + opcode.x() < 0xFFF
    }

    /// Memory from the index register on takes the registers 0 to x
    /// inclusive; no other byte changes.
    pub open spec fn store_v0_to_vx_starting_at_address_i(self, opcode: OpCode) -> Machine {
        Machine {
            memory: Seq::new(
                0xFFF,
                |address: int| if self.index <= address <= self.index + opcode.x() {
                    self.registers[address - self.index]
                } else {
                    self.memory[address]
                },
            ),
            ..self
        }
    }

    /// The registers 0 to x inclusive take the bytes of memory from the
    /// index register on; no other register changes.
    pub open spec fn fill_v0_to_vx_starting_at_address_i(self, opcode: OpCode) -> Machine {
        Machine {
            registers: Seq::new(
                16,
                |register: int| if register <= opcode.x() {
                    self.memory[self.index + register]
                } else {
                    self.registers[register]
                },
            ),
            ..self
        }
    }
}

/// Pushes the program counter and jumps to the address of the instruction.
pub fn call_subroutine(cpu: &mut Chip8, opcode: OpCode)
    requires
        old(cpu)@.can_call_subroutine(),
    ensures
        final(cpu)@ == old(cpu)@.call_subroutine(opcode),
{
    cpu.stack[cpu.sp as usize] = cpu.pc;
    cpu.sp += 1;
    cpu.pc = opcode.data;
}

/// Unlights every cell of the framebuffer and marks the display dirty.
pub fn clear_screen(cpu: &mut Chip8, _opcode: OpCode)
    ensures
        final(cpu)@ == old(cpu)@.clear_screen(),
{
    cpu.video = [0; 2048];
    cpu.update_display = true;
    assert(cpu@.video =~= old(cpu)@.clear_screen().video);
}

/// Pops the latest return address into the program counter.
pub fn return_from_subroutine(cpu: &mut Chip8, _opcode: OpCode)
    requires
        old(cpu)@.can_return_from_subroutine(),
    ensures
        final(cpu)@ == old(cpu)@.return_from_subroutine(),
{
    cpu.sp -= 1;
    cpu.pc = cpu.stack[cpu.sp as usize];
}

/// Sets the program counter to the data field of the instruction.
pub fn jump_to_address(cpu: &mut Chip8, opcode: OpCode)
    ensures
        final(cpu)@ == old(cpu)@.jump_to_address(opcode),
{
    cpu.pc = opcode.data;
}

/// Skips the next instruction if both registers hold the same value.
pub fn jump_if_reg_values_are_equal(cpu: &mut Chip8, opcode: OpCode)
    requires
        old(cpu)@.can_skip_if(old(cpu)@.registers[opcode.x()] == old(cpu)@.registers[opcode.y()]),
    ensures
        final(cpu)@ == old(cpu)@.jump_if_reg_values_are_equal(opcode),
{
    let (vx, vy) = get_vx_and_vy(&opcode);
    if cpu.registers[vx] == cpu.registers[vy] {
        cpu.pc += 2;
    }
}

/// Skips the next instruction if the register holds the immediate byte.
pub fn jump_if_reg_value_is_equal_to_number(cpu: &mut Chip8, opcode: OpCode)
    requires
        old(cpu)@.can_skip_if(old(cpu)@.registers[opcode.x()] == opcode.number()),
    ensures
        final(cpu)@ == old(cpu)@.jump_if_reg_value_is_equal_to_number(opcode),
{
    let (vx, number) = get_vx_and_number(&opcode);
    if cpu.registers[vx] == number {
        cpu.pc += 2;
    }
}

/// Skips the next instruction if the register does not hold the immediate
/// byte.
pub fn jump_if_reg_value_is_not_equal_to_number(cpu: &mut Chip8, opcode: OpCode)
    requires
        old(cpu)@.can_skip_if(old(cpu)@.registers[opcode.x()] != opcode.number()),
    ensures
        final(cpu)@ == old(cpu)@.jump_if_reg_value_is_not_equal_to_number(opcode),
{
    let (vx, number) = get_vx_and_number(&opcode);
    if cpu.registers[vx] != number {
        cpu.pc += 2;
    }
}

/// Skips the next instruction if the registers hold different values.
pub fn jump_if_reg_values_are_not_equal(cpu: &mut Chip8, opcode: OpCode)
    requires
        old(cpu)@.can_skip_if(old(cpu)@.registers[opcode.x()] != old(cpu)@.registers[opcode.y()]),
    ensures
        final(cpu)@ == old(cpu)@.jump_if_reg_values_are_not_equal(opcode),
{
    let (vx, vy) = get_vx_and_vy(&opcode);
    if cpu.registers[vx] != cpu.registers[vy] {
        cpu.pc += 2;
    }
}

/// Loads the immediate byte into the register.
pub fn store_number_in_register(cpu: &mut Chip8, opcode: OpCode)
    ensures
        final(cpu)@ == old(cpu)@.store_number_in_register(opcode),
{
    let (vx, number) = get_vx_and_number(&opcode);
    cpu.registers[vx] = number;
}

/// Copies the second register into the first.
pub fn copy_register_value(cpu: &mut Chip8, opcode: OpCode)
    ensures
        final(cpu)@ == old(cpu)@.copy_register_value(opcode),
{
    let (vx, vy) = get_vx_and_vy(&opcode);
    cpu.registers[vx] = cpu.registers[vy];
}

/// Adds the immediate byte to the register modulo 256; the flag register is
/// left alone.
pub fn add_to_register_and_ignore_carry_flag(cpu: &mut Chip8, opcode: OpCode)
    ensures
        final(cpu)@ == old(cpu)@.add_to_register_and_ignore_carry_flag(opcode),
{
    let (vx, number) = get_vx_and_number(&opcode);
    cpu.registers[vx] = cpu.registers[vx].wrapping_add(number);
}

/// Ors the second register into the first.
pub fn bitwise_or_and_store(cpu: &mut Chip8, opcode: OpCode)
    ensures
        final(cpu)@ == old(cpu)@.bitwise_or_and_store(opcode),
{
    let (vx, vy) = get_vx_and_vy(&opcode);
    cpu.registers[vx] = cpu.registers[vx] | cpu.registers[vy];
}

/// Ands the second register into the first.
pub fn bitwise_and_and_store(cpu: &mut Chip8, opcode: OpCode)
    ensures
        final(cpu)@ == old(cpu)@.bitwise_and_and_store(opcode),
{
    let (vx, vy) = get_vx_and_vy(&opcode);
    cpu.registers[vx] = cpu.registers[vx] & cpu.registers[vy];
}

/// Xors the second register into the first.
pub fn bitwise_xor_and_store(cpu: &mut Chip8, opcode: OpCode)
    ensures
        final(cpu)@ == old(cpu)@.bitwise_xor_and_store(opcode),
{
    let (vx, vy) = get_vx_and_vy(&opcode);
    cpu.registers[vx] = cpu.registers[vx] ^ cpu.registers[vy];
}

/// Captures the lowest bit of the register in the flag register, then
/// shifts the register right by one.
pub fn bitwise_shift_right_and_store(cpu: &mut Chip8, opcode: OpCode)
    ensures
        final(cpu)@ == old(cpu)@.bitwise_shift_right_and_store(opcode),
{
    let (vx, _) = get_vx_and_vy(&opcode);
    let number: u8 = cpu.registers[vx];
    assert(number & 1 == number % 2) by (bit_vector);
    cpu.registers[VF] = number & 1;
    let current: u8 = cpu.registers[vx];
    assert(current >> 1 == current / 2) by (bit_vector);
    cpu.registers[vx] = current >> 1;
}

/// Adds the second register to the first modulo 256 and reports the carry
/// in the flag register.
pub fn add_and_store(cpu: &mut Chip8, opcode: OpCode)
    ensures
        final(cpu)@ == old(cpu)@.add_and_store(opcode),
{
    let (vx, vy) = get_vx_and_vy(&opcode);
    let sum: u16 = cpu.registers[vx] as u16 + cpu.registers[vy] as u16;

    if sum > 255 {
        cpu.registers[VF] = 1;
    } else {
        cpu.registers[VF] = 0;
    }
    assert(sum & 0xFF == sum % 256) by (bit_vector);
    cpu.registers[vx] = (sum & 0xFF) as u8;
}

/// Subtracts the second register from the first modulo 256; the flag
/// register is 1 when no borrow was needed.
pub fn subtract_and_store(cpu: &mut Chip8, opcode: OpCode)
    ensures
        final(cpu)@ == old(cpu)@.subtract_and_store(opcode),
{
    let (vx, vy) = get_vx_and_vy(&opcode);
    if cpu.registers[vx] >= cpu.registers[vy] {
        cpu.registers[VF] = 1;
    } else {
        cpu.registers[VF] = 0;
    }
    cpu.registers[vx] = cpu.registers[vx].wrapping_sub(cpu.registers[vy]);
}

/// Stores second register minus first, modulo 256, in the first; the flag
/// register is 1 when no borrow was needed.
pub fn subtract_and_store_and_set_vf(cpu: &mut Chip8, opcode: OpCode)
    ensures
        final(cpu)@ == old(cpu)@.subtract_and_store_and_set_vf(opcode),
{
    let (vx, vy) = get_vx_and_vy(&opcode);
    if cpu.registers[vy] >= cpu.registers[vx] {
        cpu.registers[VF] = 1;
    } else {
        cpu.registers[VF] = 0;
    }
    cpu.registers[vx] = cpu.registers[vy].wrapping_sub(cpu.registers[vx]);
}

/// Captures the highest bit of the register in the flag register, then
/// shifts the register left by one.
pub fn store_msb_and_left_shift(cpu: &mut Chip8, opcode: OpCode)
    ensures
        final(cpu)@ == old(cpu)@.store_msb_and_left_shift(opcode),
{
    let (vx, _) = get_vx_and_vy(&opcode);
    let number: u8 = cpu.registers[vx];
    assert(number >> 7 == number / 128) by (bit_vector);
    cpu.registers[VF] = number >> 7;
    let current: u8 = cpu.registers[vx];
    assert(current << 1 == (current as u16 * 2) % 256) by (bit_vector);
    cpu.registers[vx] = current << 1;
}

/// Loads the low 12 bits of the instruction into the index register.
pub fn set_index_to_mem_address(cpu: &mut Chip8, opcode: OpCode)
    ensures
        final(cpu)@ == old(cpu)@.set_index_to_mem_address(opcode),
{
    let code: u16 = opcode.code;
    assert(code & 0x0FFF == code % 4096) by (bit_vector);
    cpu.index = code & 0x0FFF;
}

/// Jumps to the low 12 bits of the instruction plus register 0.
pub fn jump_to_address_plus_v0(cpu: &mut Chip8, opcode: OpCode)
    ensures
        final(cpu)@ == old(cpu)@.jump_to_address_plus_v0(opcode),
{
    let code: u16 = opcode.code;
    assert(code & 0x0FFF == code % 4096) by (bit_vector);
    cpu.pc = cpu.registers[0] as u16 + (code & 0x0FFF);
}

/// Stores `random_number` masked by the immediate byte in the register.
pub fn bitwise_on_a_number_and_store(cpu: &mut Chip8, opcode: OpCode, random_number: u8)
    ensures
        final(cpu)@ == old(cpu)@.bitwise_on_a_random_number_and_store(opcode, random_number),
{
    let (vx, number) = get_vx_and_number(&opcode);
    cpu.registers[vx] = random_number & number;
}

/// Skips the next instruction if the key named by the register is pressed.
pub fn jump_if_key_is_pressed(cpu: &mut Chip8, opcode: OpCode)
    requires
        old(cpu)@.can_jump_on_key(opcode, true),
    ensures
        final(cpu)@ == old(cpu)@.jump_if_key_is_pressed(opcode),
{
    let (vx, _) = get_vx_and_vy(&opcode);
    let key: u8 = cpu.registers[vx];
    if cpu.keys[key as usize] {
        cpu.pc += 2;
    }
}

/// Skips the next instruction if the key named by the register is not
/// pressed.
pub fn jump_if_key_is_not_pressed(cpu: &mut Chip8, opcode: OpCode)
    requires
        old(cpu)@.can_jump_on_key(opcode, false),
    ensures
        final(cpu)@ == old(cpu)@.jump_if_key_is_not_pressed(opcode),
{
    let (vx, _) = get_vx_and_vy(&opcode);
    let key: u8 = cpu.registers[vx];
    if !cpu.keys[key as usize] {
        cpu.pc += 2;
    }
}

/// Copies the delay timer into the register.
pub fn get_delay_timer_and_set_to_vx(cpu: &mut Chip8, opcode: OpCode)
    ensures
        final(cpu)@ == old(cpu)@.get_delay_timer_and_set_to_vx(opcode),
{
    let (vx, _) = get_vx_and_vy(&opcode);
    cpu.registers[vx] = cpu.delay_timer;
}

/// Loads the delay timer with the register number of the instruction.
pub fn set_delay_timer_to_vx(cpu: &mut Chip8, opcode: OpCode)
    ensures
        final(cpu)@ == old(cpu)@.set_delay_timer_to_vx(opcode),
{
    let (vx, _) = get_vx_and_vy(&opcode);
    cpu.delay_timer = vx as u8;
}

/// Loads the sound timer with the register number of the instruction.
pub fn set_sound_timer_to_vx(cpu: &mut Chip8, opcode: OpCode)
    ensures
        final(cpu)@ == old(cpu)@.set_sound_timer_to_vx(opcode),
{
    let (vx, _) = get_vx_and_vy(&opcode);
    cpu.sound_timer = vx as u8;
}

/// Waits for a key: with a key pressed, stores the lowest pressed key
/// number in the register; with none, rewinds the program counter so that
/// the same instruction is fetched again.
pub fn get_key_press_and_store(cpu: &mut Chip8, opcode: OpCode)
    requires
        old(cpu)@.can_get_key_press_and_store(),
    ensures
        final(cpu)@ == old(cpu)@.get_key_press_and_store(opcode),
{
    let (vx, _) = get_vx_and_vy(&opcode);
    let mut key: usize = 0;
    while key < 16
        invariant
            key <= 16,
            vx == opcode.x(),
            vx < 16,
            cpu@ == old(cpu)@,
            first_pressed_key(cpu@.keys, 0) == first_pressed_key(cpu@.keys, key as int),
        decreases 16 - key,
    {
        if cpu.keys[key] {
            cpu.registers[vx] = key as u8;
            return ;
        }
        key += 1;
    }
    cpu.pc -= 2;
}

/// Adds the register number of the instruction to the index register and
/// reports in the flag register whether the sum is past 0xFFF.
pub fn add_vx_to_i_and_set_overflow(cpu: &mut Chip8, opcode: OpCode)
    requires
        old(cpu)@.can_add_vx_to_i_and_set_overflow(opcode),
    ensures
        final(cpu)@ == old(cpu)@.add_vx_to_i_and_set_overflow(opcode),
{
    let (vx, _) = get_vx_and_vy(&opcode);
    let sum: u16 = vx as u16 + cpu.index;
    if sum > 0xFFF {
        cpu.registers[VF] = 1;
    } else {
        cpu.registers[VF] = 0;
    }
    cpu.index = sum;
}

/// Points the index register at the glyph of the digit held by the
/// register: 0x50 plus five times the register.
pub fn set_i_to_location_of_sprite_in_vx(cpu: &mut Chip8, opcode: OpCode)
    ensures
        final(cpu)@ == old(cpu)@.set_i_to_location_of_sprite_in_vx(opcode),
{
    let (vx, _) = get_vx_and_vy(&opcode);
    let number: u16 = cpu.registers[vx] as u16;
    cpu.index = 0x50 + (5 * number);
}

/// Writes the hundreds, tens and units digit of the register to memory at
/// the index register.
pub fn store_binary_coded_decimal_representation_of_vx(cpu: &mut Chip8, opcode: OpCode)
    requires
        old(cpu)@.can_store_binary_coded_decimal_representation_of_vx(),
    ensures
        final(cpu)@ == old(cpu)@.store_binary_coded_decimal_representation_of_vx(opcode),
{
    let (vx, _) = get_vx_and_vy(&opcode);
    let mut value: u8 = cpu.registers[vx];
    cpu.memory[cpu.index as usize + 2] = value % 10;
    value = value / 10;
    cpu.memory[cpu.index as usize + 1] = value % 10;
    value = value / 10;
    cpu.memory[cpu.index as usize] = value % 10;
}

/// Copies the registers 0 to x inclusive to memory at the index register.
pub fn store_v0_to_vx_starting_at_address_i(cpu: &mut Chip8, opcode: OpCode)
    requires
        old(cpu)@.can_transfer_v0_to_vx(opcode),
    ensures
        final(cpu)@ == old(cpu)@.store_v0_to_vx_starting_at_address_i(opcode),
{
    let (vx, _) = get_vx_and_vy(&opcode);
    let ghost before = old(cpu)@;
    let mut v_index: usize = 0;
    while v_index <= vx
        invariant
            v_index <= vx + 1,
            vx == opcode.x(),
            vx < 16,
            before == old(cpu)@,
            before.memory.len() == 0xFFF,
            before.can_transfer_v0_to_vx(opcode),
            cpu@ == (Machine { memory: cpu@.memory, ..before }),
            forall|address: int|
                0 <= address < 0xFFF ==> cpu@.memory[address] == if before.index <= address
                    < before.index + v_index {
                    before.registers[address - before.index]
                } else {
                    before.memory[address]
                },
        decreases vx + 1 - v_index,
    {
        cpu.memory[cpu.index as usize + v_index] = cpu.registers[v_index];
        v_index += 1;
    }
    assert(cpu@.memory =~= before.store_v0_to_vx_starting_at_address_i(opcode).memory);
}

/// Loads the registers 0 to x inclusive from memory at the index register.
pub fn fill_v0_to_vx_starting_at_address_i(cpu: &mut Chip8, opcode: OpCode)
    requires
        old(cpu)@.can_transfer_v0_to_vx(opcode),
    ensures
        final(cpu)@ == old(cpu)@.fill_v0_to_vx_starting_at_address_i(opcode),
{
    let (vx, _) = get_vx_and_vy(&opcode);
    let ghost before = old(cpu)@;
    let mut v_index: usize = 0;
    while v_index <= vx
        invariant
            v_index <= vx + 1,
            vx == opcode.x(),
            vx < 16,
            before == old(cpu)@,
            before.registers.len() == 16,
            before.can_transfer_v0_to_vx(opcode),
            cpu@ == (Machine { registers: cpu@.registers, ..before }),
            forall|register: int|
                0 <= register < 16 ==> cpu@.registers[register] == if register < v_index {
                    before.memory[before.index + register]
                } else {
                    before.registers[register]
                },
        decreases vx + 1 - v_index,
    {
        cpu.registers[v_index] = cpu.memory[cpu.index as usize + v_index];
        v_index += 1;
    }
    assert(cpu@.registers =~= before.fill_v0_to_vx_starting_at_address_i(opcode).registers);
}

impl Machine {
    /// Whether the instruction is defined on this state: the stack, the
    /// memory, the key matrix and the counters have room for what it does.
    pub open spec fn can_execute(self, instruction: Instruction, opcode: OpCode) -> bool {
        match instruction {
            Instruction::ClearScreen => true,
            Instruction::ReturnFromSubroutine => self.can_return_from_subroutine(),
            Instruction::JumpToAddress => true,
            Instruction::CallSubroutine => self.can_call_subroutine(),
            Instruction::JumpIfRegValueIsEqualToNumber => self.can_skip_if(self.registers[opcode.x()] == opcode.number()),
            Instruction::JumpIfRegValueIsNotEqualToNumber => self.can_skip_if(self.registers[opcode.x()] != opcode.number()),
            Instruction::JumpIfRegValuesAreEqual => self.can_skip_if(self.registers[opcode.x()] == self.registers[opcode.y()]),
            Instruction::StoreNumberInRegister => true,
            Instruction::AddToRegisterAndIgnoreCarryFlag => true,
            Instruction::CopyRegisterValue => true,
            Instruction::BitwiseOrAndStore => true,
            Instruction::BitwiseAndAndStore => true,
            Instruction::BitwiseXorAndStore => true,
            Instruction::AddAndStore => true,
            Instruction::SubtractAndStore => true,
            Instruction::BitwiseShiftRightAndStore => true,
            Instruction::SubtractAndStoreAndSetVf => true,
            Instruction::StoreMsbAndLeftShift => true,
            Instruction::JumpIfRegValuesAreNotEqual => self.can_skip_if(self.registers[opcode.x()] != self.registers[opcode.y()]),
            Instruction::SetIndexToMemAddress => true,
            Instruction::JumpToAddressPlusV0 => true,
            Instruction::BitwiseOnARandomNumberAndStore => true,
            Instruction::DrawSprite => self.can_draw_sprite(opcode),
            Instruction::JumpIfKeyIsPressed => self.can_jump_on_key(opcode, true),
            Instruction::JumpIfKeyIsNotPressed => self.can_jump_on_key(opcode, false),
            Instruction::GetDelayTimerAndSetToVx => true,
            Instruction::GetKeyPressAndStore => self.can_get_key_press_and_store(),
            Instruction::SetDelayTimerToVx => true,
            Instruction::SetSoundTimerToVx => true,
            Instruction::AddVxToIAndSetOverflow => self.can_add_vx_to_i_and_set_overflow(opcode),
            Instruction::SetIToLocationOfSpriteInVx => true,
            Instruction::StoreBinaryCodedDecimalRepresentationOfVx => self.can_store_binary_coded_decimal_representation_of_vx(),
            Instruction::StoreV0ToVxStartingAtAddressI => self.can_transfer_v0_to_vx(opcode),
            Instruction::FillV0ToVxStartingAtAddressI => self.can_transfer_v0_to_vx(opcode),
        }
    }

    /// The state after the instruction, where `random` is the byte drawn
    /// for the one instruction that asks for it.
    pub open spec fn execute(self, instruction: Instruction, opcode: OpCode, random: u8) -> Machine {
        match instruction {
            Instruction::ClearScreen => self.clear_screen(),
            Instruction::ReturnFromSubroutine => self.return_from_subroutine(),
            Instruction::JumpToAddress => self.jump_to_address(opcode),
            Instruction::CallSubroutine => self.call_subroutine(opcode),
            Instruction::JumpIfRegValueIsEqualToNumber => self.jump_if_reg_value_is_equal_to_number(opcode),
            Instruction::JumpIfRegValueIsNotEqualToNumber => self.jump_if_reg_value_is_not_equal_to_number(opcode),
            Instruction::JumpIfRegValuesAreEqual => self.jump_if_reg_values_are_equal(opcode),
            Instruction::StoreNumberInRegister => self.store_number_in_register(opcode),
            Instruction::AddToRegisterAndIgnoreCarryFlag => self.add_to_register_and_ignore_carry_flag(opcode),
            Instruction::CopyRegisterValue => self.copy_register_value(opcode),
            Instruction::BitwiseOrAndStore => self.bitwise_or_and_store(opcode),
            Instruction::BitwiseAndAndStore => self.bitwise_and_and_store(opcode),
            Instruction::BitwiseXorAndStore => self.bitwise_xor_and_store(opcode),
            Instruction::AddAndStore => self.add_and_store(opcode),
            Instruction::SubtractAndStore => self.subtract_and_store(opcode),
            Instruction::BitwiseShiftRightAndStore => self.bitwise_shift_right_and_store(opcode),
            Instruction::SubtractAndStoreAndSetVf => self.subtract_and_store_and_set_vf(opcode),
            Instruction::StoreMsbAndLeftShift => self.store_msb_and_left_shift(opcode),
            Instruction::JumpIfRegValuesAreNotEqual => self.jump_if_reg_values_are_not_equal(opcode),
            Instruction::SetIndexToMemAddress => self.set_index_to_mem_address(opcode),
            Instruction::JumpToAddressPlusV0 => self.jump_to_address_plus_v0(opcode),
            Instruction::BitwiseOnARandomNumberAndStore => self.bitwise_on_a_random_number_and_store(opcode, random),
            Instruction::DrawSprite => self.draw_sprite(opcode),
            Instruction::JumpIfKeyIsPressed => self.jump_if_key_is_pressed(opcode),
            Instruction::JumpIfKeyIsNotPressed => self.jump_if_key_is_not_pressed(opcode),
            Instruction::GetDelayTimerAndSetToVx => self.get_delay_timer_and_set_to_vx(opcode),
            Instruction::GetKeyPressAndStore => self.get_key_press_and_store(opcode),
            Instruction::SetDelayTimerToVx => self.set_delay_timer_to_vx(opcode),
            Instruction::SetSoundTimerToVx => self.set_sound_timer_to_vx(opcode),
            Instruction::AddVxToIAndSetOverflow => self.add_vx_to_i_and_set_overflow(opcode),
            Instruction::SetIToLocationOfSpriteInVx => self.set_i_to_location_of_sprite_in_vx(opcode),
            Instruction::StoreBinaryCodedDecimalRepresentationOfVx => self.store_binary_coded_decimal_representation_of_vx(opcode),
            Instruction::StoreV0ToVxStartingAtAddressI => self.store_v0_to_vx_starting_at_address_i(opcode),
            Instruction::FillV0ToVxStartingAtAddressI => self.fill_v0_to_vx_starting_at_address_i(opcode),
        }
    }
}

/// Draws one byte with `rand::random`. Nothing is claimed of the byte: it
/// may be any of the 256 values.
#[verifier::external_body]
fn random_byte() -> (byte: u8) {
    rand::random()
}

/// Draws a random byte and stores it, masked by the immediate byte of the
/// instruction, in the register.
pub fn bitwise_on_a_random_number_and_store(cpu: &mut Chip8, opcode: OpCode)
    ensures
        exists|random: u8|
            final(cpu)@ == #[trigger] old(cpu)@.bitwise_on_a_random_number_and_store(opcode, random),
{
    let random_number: u8 = random_byte();
    bitwise_on_a_number_and_store(cpu, opcode, random_number);
}

/// Applies one instruction to the machine, with `random` as the byte that
/// the random instruction stores.
pub fn execute_with(cpu: &mut Chip8, instruction: Instruction, opcode: OpCode, random: u8)
    requires
        old(cpu)@.can_execute(instruction, opcode),
    ensures
        final(cpu)@ == old(cpu)@.execute(instruction, opcode, random),
{
    match instruction {
        Instruction::ClearScreen => clear_screen(cpu, opcode),
        Instruction::ReturnFromSubroutine => return_from_subroutine(cpu, opcode),
        Instruction::JumpToAddress => jump_to_address(cpu, opcode),
        Instruction::CallSubroutine => call_subroutine(cpu, opcode),
        Instruction::JumpIfRegValueIsEqualToNumber => jump_if_reg_value_is_equal_to_number(cpu, opcode),
        Instruction::JumpIfRegValueIsNotEqualToNumber => jump_if_reg_value_is_not_equal_to_number(cpu, opcode),
        Instruction::JumpIfRegValuesAreEqual => jump_if_reg_values_are_equal(cpu, opcode),
        Instruction::StoreNumberInRegister => store_number_in_register(cpu, opcode),
        Instruction::AddToRegisterAndIgnoreCarryFlag => add_to_register_and_ignore_carry_flag(cpu, opcode),
        Instruction::CopyRegisterValue => copy_register_value(cpu, opcode),
        Instruction::BitwiseOrAndStore => bitwise_or_and_store(cpu, opcode),
        Instruction::BitwiseAndAndStore => bitwise_and_and_store(cpu, opcode),
        Instruction::BitwiseXorAndStore => bitwise_xor_and_store(cpu, opcode),
        Instruction::AddAndStore => add_and_store(cpu, opcode),
        Instruction::SubtractAndStore => subtract_and_store(cpu, opcode),
        Instruction::BitwiseShiftRightAndStore => bitwise_shift_right_and_store(cpu, opcode),
        Instruction::SubtractAndStoreAndSetVf => subtract_and_store_and_set_vf(cpu, opcode),
        Instruction::StoreMsbAndLeftShift => store_msb_and_left_shift(cpu, opcode),
        Instruction::JumpIfRegValuesAreNotEqual => jump_if_reg_values_are_not_equal(cpu, opcode),
        Instruction::SetIndexToMemAddress => set_index_to_mem_address(cpu, opcode),
        Instruction::JumpToAddressPlusV0 => jump_to_address_plus_v0(cpu, opcode),
        Instruction::BitwiseOnARandomNumberAndStore => bitwise_on_a_number_and_store(cpu, opcode, random),
        Instruction::DrawSprite => draw_sprite(cpu, opcode),
        Instruction::JumpIfKeyIsPressed => jump_if_key_is_pressed(cpu, opcode),
        Instruction::JumpIfKeyIsNotPressed => jump_if_key_is_not_pressed(cpu, opcode),
        Instruction::GetDelayTimerAndSetToVx => get_delay_timer_and_set_to_vx(cpu, opcode),
        Instruction::GetKeyPressAndStore => get_key_press_and_store(cpu, opcode),
        Instruction::SetDelayTimerToVx => set_delay_timer_to_vx(cpu, opcode),
        Instruction::SetSoundTimerToVx => set_sound_timer_to_vx(cpu, opcode),
        Instruction::AddVxToIAndSetOverflow => add_vx_to_i_and_set_overflow(cpu, opcode),
        Instruction::SetIToLocationOfSpriteInVx => set_i_to_location_of_sprite_in_vx(cpu, opcode),
        Instruction::StoreBinaryCodedDecimalRepresentationOfVx => store_binary_coded_decimal_representation_of_vx(cpu, opcode),
        Instruction::StoreV0ToVxStartingAtAddressI => store_v0_to_vx_starting_at_address_i(cpu, opcode),
        Instruction::FillV0ToVxStartingAtAddressI => fill_v0_to_vx_starting_at_address_i(cpu, opcode),
    }
}

/// Applies one instruction to the machine, drawing a random byte if the
/// instruction asks for one.
pub fn execute(cpu: &mut Chip8, instruction: Instruction, opcode: OpCode)
    requires
        old(cpu)@.can_execute(instruction, opcode),
    ensures
        exists|random: u8| final(cpu)@ == #[trigger] old(cpu)@.execute(instruction, opcode, random),
        instruction != Instruction::BitwiseOnARandomNumberAndStore ==> final(cpu)@ == old(
            cpu,
        )@.execute(instruction, opcode, 0),
{
    let random: u8 = match instruction {
        Instruction::BitwiseOnARandomNumberAndStore => random_byte(),
        _ => 0,
    };
    execute_with(cpu, instruction, opcode, random);
}

/// Tells whether `execute` is defined for the instruction on this machine.
pub fn can_execute(cpu: &Chip8, instruction: Instruction, opcode: OpCode) -> (defined: bool)
    ensures
        defined == cpu@.can_execute(instruction, opcode),
{
    can_execute_at(cpu, cpu.pc, instruction, opcode)
}

/// Tells whether `execute` is defined for the instruction on this machine
/// once its program counter stands at `pc`.
pub fn can_execute_at(cpu: &Chip8, pc: u16, instruction: Instruction, opcode: OpCode) -> (defined:
    bool)
    ensures
        defined == (Machine { pc, ..cpu@ }).can_execute(instruction, opcode),
{
    let (vx, vy) = get_vx_and_vy(&opcode);
    let (_, number) = get_vx_and_number(&opcode);
    let code: u16 = opcode.code;
    let height: u16 = code & 0x000F;
    assert(code & 0x000F == code % 16) by (bit_vector);
    match instruction {
        Instruction::ReturnFromSubroutine => 0 < cpu.sp && cpu.sp <= 16,
        Instruction::CallSubroutine => cpu.sp < 16,
        Instruction::JumpIfRegValueIsEqualToNumber => {
            pc <= 0xFFFF - 2 || cpu.registers[vx] != number
        },
        Instruction::JumpIfRegValueIsNotEqualToNumber => {
            pc <= 0xFFFF - 2 || cpu.registers[vx] == number
        },
        Instruction::JumpIfRegValuesAreEqual => {
            pc <= 0xFFFF - 2 || cpu.registers[vx] != cpu.registers[vy]
        },
        Instruction::JumpIfRegValuesAreNotEqual => {
            pc <= 0xFFFF - 2 || cpu.registers[vx] == cpu.registers[vy]
        },
        Instruction::DrawSprite => height == 0 || cpu.index <= 0xFFF - height,
        Instruction::JumpIfKeyIsPressed => {
            let key: u8 = cpu.registers[vx];
            key < 16 && (pc <= 0xFFFF - 2 || !cpu.keys[key as usize])
        },
        Instruction::JumpIfKeyIsNotPressed => {
            let key: u8 = cpu.registers[vx];
            key < 16 && (pc <= 0xFFFF - 2 || cpu.keys[key as usize])
        },
        Instruction::GetKeyPressAndStore => pc >= 2 || any_key_pressed(cpu),
        Instruction::AddVxToIAndSetOverflow => cpu.index <= 0xFFFF - (vx as u16),
        Instruction::StoreBinaryCodedDecimalRepresentationOfVx => cpu.index < 0xFFF - 2,
        Instruction::StoreV0ToVxStartingAtAddressI
        | Instruction::FillV0ToVxStartingAtAddressI => cpu.index < 0xFFF - (vx as u16),
        _ => true,
    }
}

/// Tells whether at least one of the 16 keys is pressed.
pub fn any_key_pressed(cpu: &Chip8) -> (pressed: bool)
    ensures
        pressed == (first_pressed_key(cpu@.keys, 0) < 16),
{
    let mut key: usize = 0;
    while key < 16
        invariant
            key <= 16,
            first_pressed_key(cpu@.keys, 0) == first_pressed_key(cpu@.keys, key as int),
        decreases 16 - key,
    {
        if cpu.keys[key] {
            return true;
        }
        key += 1;
    }
    false
}

} // verus!
