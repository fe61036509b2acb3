//! What holds of the instruction set as a whole, proved from the
//! definitions of the single instructions.

use crate::chip8::{Chip8, Machine, OpCode};
use crate::instructions::{
    first_pressed_key, instruction_table, lemma_sprite_cell, sprite_bit, sprite_cell, toggled,
    Instruction, LIT,
};
use vstd::prelude::*;

verus! {

/// Adding two registers leaves their sum modulo 256 in the first. Unless
/// the first is the flag register itself, the flag register then holds 1
/// if the sum is above 255 and 0 if not.
pub proof fn lemma_add_and_store(cpu: Chip8, opcode: OpCode)
    ensures
        ({
            let a = cpu@.registers[opcode.x()];
            let b = cpu@.registers[opcode.y()];
            let after = cpu@.add_and_store(opcode);
            &&& after.registers[opcode.x()] == (a + b) % 256
            &&& opcode.x() != 0xF ==> (after.registers[0xF] == 1 <==> a + b > 255)
            &&& opcode.x() != 0xF ==> (after.registers[0xF] == 0 <==> a + b <= 255)
        }),
{
}

/// Subtracting the second register from the first, neither being the flag
/// register, leaves the difference modulo 256 in the first, and 1 in the
/// flag register if the first was at least the second, 0 if not.
pub proof fn lemma_subtract_and_store(cpu: Chip8, opcode: OpCode)
    requires
        opcode.x() != 0xF,
        opcode.y() != 0xF,
    ensures
        ({
            let a = cpu@.registers[opcode.x()];
            let b = cpu@.registers[opcode.y()];
            let after = cpu@.subtract_and_store(opcode);
            &&& after.registers[opcode.x()] == (a - b) % 256
            &&& after.registers[0xF] == 1 <==> a >= b
            &&& after.registers[0xF] == 0 <==> a < b
        }),
{
}

/// Subtracting the first register from the second, neither being the flag
/// register, leaves the difference modulo 256 in the first, and 1 in the
/// flag register if the second was at least the first, 0 if not.
pub proof fn lemma_subtract_and_store_and_set_vf(cpu: Chip8, opcode: OpCode)
    requires
        opcode.x() != 0xF,
        opcode.y() != 0xF,
    ensures
        ({
            let a = cpu@.registers[opcode.x()];
            let b = cpu@.registers[opcode.y()];
            let after = cpu@.subtract_and_store_and_set_vf(opcode);
            &&& after.registers[opcode.x()] == (b - a) % 256
            &&& after.registers[0xF] == 1 <==> b >= a
            &&& after.registers[0xF] == 0 <==> b < a
        }),
{
}

/// Shifting a register other than the flag register to the right leaves
/// its former lowest bit in the flag register, whatever the flag register
/// held before, and half its former value in the register.
pub proof fn lemma_shift_right_captures_lowest_bit(cpu: Chip8, opcode: OpCode)
    requires
        opcode.x() != 0xF,
    ensures
        ({
            let a = cpu@.registers[opcode.x()];
            let after = cpu@.bitwise_shift_right_and_store(opcode);
            &&& after.registers[0xF] == a % 2
            &&& after.registers[opcode.x()] == a / 2
        }),
{
}

/// Shifting a register other than the flag register to the left leaves its
/// former highest bit in the flag register, whatever the flag register
/// held before, and twice its former value modulo 256 in the register.
pub proof fn lemma_shift_left_captures_highest_bit(cpu: Chip8, opcode: OpCode)
    requires
        opcode.x() != 0xF,
    ensures
        ({
            let a = cpu@.registers[opcode.x()];
            let after = cpu@.store_msb_and_left_shift(opcode);
            &&& after.registers[0xF] == a / 128
            &&& after.registers[opcode.x()] == (a * 2) % 256
        }),
{
}

/// The fields of a decoded word in plain arithmetic: the family is the word
/// without its low 12 bits, the data field is those 12 bits, and the
/// register numbers and the low nibble are the hex digits of the data
/// field.
pub proof fn lemma_decoded_fields(raw: u16)
    ensures
        OpCode::decode(raw).code == raw,
        OpCode::decode(raw).decoded == (raw / 4096) * 4096,
        OpCode::decode(raw).data == raw % 4096,
        OpCode::decode(raw).address() == OpCode::decode(raw).data,
        OpCode::decode(raw).data == 256 * OpCode::decode(raw).x() + OpCode::decode(raw).number(),
        OpCode::decode(raw).number() == 16 * OpCode::decode(raw).y() + OpCode::decode(
            raw,
        ).nibble(),
        0 <= OpCode::decode(raw).x() < 16,
        0 <= OpCode::decode(raw).y() < 16,
        0 <= OpCode::decode(raw).nibble() < 16,
{
    assert(raw % 4096 == 256 * ((raw / 256) % 16) + raw % 256) by (bit_vector);
    assert(raw % 256 == 16 * ((raw / 16) % 16) + raw % 16) by (bit_vector);
    assert(raw & 0xF000 == (raw / 4096) * 4096) by (bit_vector);
    assert(raw & 0x0FFF == raw % 4096) by (bit_vector);
}

/// No two keys of the dispatch table share an instruction.
pub proof fn lemma_table_is_injective(first: u16, second: u16)
    requires
        instruction_table().contains_key(first),
        instruction_table().contains_key(second),
        first != second,
    ensures
        instruction_table()[first] != instruction_table()[second],
{
}

/// Whatever their middle nibble, the words 0x0_E0 and 0x0_EE dispatch to
/// clearing the screen and to returning from a subroutine.
pub proof fn lemma_dispatch_in_family_zero(clear: u16, ret: u16)
    requires
        clear & 0xF0FF == 0x00E0,
        ret & 0xF0FF == 0x00EE,
    ensures
        instruction_table().contains_key(OpCode::decode(clear).handler_key()),
        instruction_table().contains_key(OpCode::decode(ret).handler_key()),
        instruction_table()[OpCode::decode(clear).handler_key()] == Instruction::ClearScreen,
        instruction_table()[OpCode::decode(ret).handler_key()]
            == Instruction::ReturnFromSubroutine,
{
    assert(clear & 0xF0FF == 0x00E0 ==> clear & 0xF000 == 0x0000) by (bit_vector);
    assert(ret & 0xF0FF == 0x00EE ==> ret & 0xF000 == 0x0000) by (bit_vector);
}

/// The dispatch key of a word of family 0x8 is 0x8000 plus its low nibble,
/// whatever registers it names.
pub proof fn lemma_dispatch_key_in_family_eight(raw: u16)
    requires
        raw & 0xF000 == 0x8000,
    ensures
        OpCode::decode(raw).handler_key() == 0x8000 + raw % 16,
{
    assert(raw & 0xF000 == 0x8000 ==> raw & 0xF00F == 0x8000 + raw % 16) by (bit_vector);
}

/// Two words of family 0x8 whose low nibbles differ and lie among 4, 5, 6,
/// 7 and 0xE dispatch to different instructions.
pub proof fn lemma_dispatch_in_family_eight(first: u16, second: u16)
    requires
        first & 0xF000 == 0x8000,
        second & 0xF000 == 0x8000,
        4 <= first % 16 <= 7 || first % 16 == 0xE,
        4 <= second % 16 <= 7 || second % 16 == 0xE,
        first % 16 != second % 16,
    ensures
        instruction_table().contains_key(OpCode::decode(first).handler_key()),
        instruction_table().contains_key(OpCode::decode(second).handler_key()),
        instruction_table()[OpCode::decode(first).handler_key()]
            != instruction_table()[OpCode::decode(second).handler_key()],
{
    lemma_dispatch_key_in_family_eight(first);
    lemma_dispatch_key_in_family_eight(second);
}

/// A call followed at once by a return leaves the program counter and the
/// stack depth as they were before the call.
pub proof fn lemma_call_then_return(cpu: Chip8, opcode: OpCode)
    requires
        cpu@.can_call_subroutine(),
    ensures
        cpu@.call_subroutine(opcode).can_return_from_subroutine(),
        cpu@.call_subroutine(opcode).return_from_subroutine().pc == cpu@.pc,
        cpu@.call_subroutine(opcode).return_from_subroutine().sp == cpu@.sp,
{
}

/// A step that calls a subroutine whose first instruction returns, and the
/// step after it, leave the program counter just behind the call and the
/// stack depth as it was.
pub proof fn lemma_call_step_then_return_step(cpu: Chip8, first: u8, second: u8)
    requires
        cpu@.can_run(),
        cpu@.next_instruction() == Some(Instruction::CallSubroutine),
        cpu@.run(first).can_fetch(),
        cpu@.run(first).next_instruction() == Some(Instruction::ReturnFromSubroutine),
    ensures
        cpu@.run(first).can_run(),
        cpu@.run(first).run(second).pc == cpu@.pc + 2,
        cpu@.run(first).run(second).sp == cpu@.sp,
{
}

/// The pixel at (`row`, `column`) of the sprite lands on one cell of the
/// screen, and the sprite covers that cell exactly if the pixel's bit is
/// set in the sprite's row in memory.
pub proof fn lemma_sprite_pixel(cpu: Chip8, opcode: OpCode, row: int, column: int)
    requires
        0 <= row < opcode.nibble(),
        0 <= column < 8,
    ensures
        ({
            let cell = sprite_cell(
                cpu@.sprite_origin_x(opcode),
                cpu@.sprite_origin_y(opcode),
                row,
                column,
            );
            &&& 0 <= cell < 2048
            &&& cpu@.sprite_covers(opcode, cell) == sprite_bit(
                cpu@.memory[cpu@.index + row],
                column as u8,
            )
        }),
{
    lemma_sprite_cell(cpu@.sprite_origin_x(opcode), cpu@.sprite_origin_y(opcode), row, column);
}

/// Toggling a cell twice gives back what it held.
pub proof fn lemma_toggled_twice(cell: u32)
    ensures
        toggled(toggled(cell)) == cell,
{
    assert((cell ^ 0xFFFF_FFFFu32) ^ 0xFFFF_FFFFu32 == cell) by (bit_vector);
}

/// Drawing a sprite twice in a row, from position registers other than the
/// flag register, gives back the framebuffer as it was. The second draw
/// sets the flag register to 1 exactly if the first draw left one of the
/// sprite's pixels lit.
pub proof fn lemma_draw_sprite_twice(cpu: Chip8, opcode: OpCode)
    requires
        opcode.x() != 0xF,
        opcode.y() != 0xF,
    ensures
        cpu@.draw_sprite(opcode).draw_sprite(opcode).video == cpu@.video,
        cpu@.draw_sprite(opcode).draw_sprite(opcode).registers[0xF] == 1 <==> exists|cell: int|
            0 <= cell < 2048 && #[trigger] cpu@.sprite_covers(opcode, cell) && cpu@.draw_sprite(
                opcode,
            ).video[cell] == LIT,
        cpu@.draw_sprite(opcode).draw_sprite(opcode).registers[0xF] == 0 || cpu@.draw_sprite(
            opcode,
        ).draw_sprite(opcode).registers[0xF] == 1,
{
    let before = cpu@;
    let once = before.draw_sprite(opcode);
    let twice = once.draw_sprite(opcode);
    assert forall|cell: int| 0 <= cell < 2048 implies #[trigger] once.sprite_covers(opcode, cell)
        == before.sprite_covers(opcode, cell) by {}
    assert forall|cell: int| 0 <= cell < 2048 implies #[trigger] twice.video[cell]
        == before.video[cell] by {
        lemma_toggled_twice(before.video[cell]);
    }
    assert(twice.video =~= before.video);
    if once.sprite_collides(opcode) {
        let cell = choose|cell: int|
            0 <= cell < 2048 && #[trigger] once.sprite_covers(opcode, cell) && once.video[cell]
                == LIT;
        assert(before.sprite_covers(opcode, cell));
    }
}

/// The lowest pressed key, if any, is pressed and no key below it is; if
/// the search from `from` ends at 16, no key from `from` on is pressed.
pub proof fn lemma_first_pressed_key(keys: Seq<bool>, from: int)
    requires
        0 <= from <= 16,
    ensures
        from <= first_pressed_key(keys, from) <= 16,
        first_pressed_key(keys, from) < 16 ==> keys[first_pressed_key(keys, from)],
        forall|key: int| from <= key < first_pressed_key(keys, from) ==> !keys[key],
    decreases 16 - from,
{
    if from < 16 && !keys[from] {
        lemma_first_pressed_key(keys, from + 1);
    }
}

/// With no key pressed, a step on the instruction that waits for a key
/// ends in the state it began in: the program counter has not moved.
pub proof fn lemma_wait_for_key_blocks(cpu: Chip8, random: u8)
    requires
        cpu@.can_run(),
        cpu@.next_instruction() == Some(Instruction::GetKeyPressAndStore),
        forall|key: int| 0 <= key < 16 ==> !cpu@.keys[key],
    ensures
        cpu@.run(random) == cpu@,
{
    lemma_first_pressed_key(cpu@.keys, 0);
}

/// With `key` the lowest pressed key, a step on the instruction that waits
/// for a key stores `key` in the register of the instruction and moves the
/// program counter by 2.
pub proof fn lemma_wait_for_key_proceeds(cpu: Chip8, random: u8, key: int)
    requires
        cpu@.can_run(),
        cpu@.next_instruction() == Some(Instruction::GetKeyPressAndStore),
        0 <= key < 16,
        cpu@.keys[key],
        forall|lower: int| 0 <= lower < key ==> !cpu@.keys[lower],
    ensures
        cpu@.run(random).registers[cpu@.next_opcode().x()] == key,
        cpu@.run(random).pc == cpu@.pc + 2,
{
    lemma_first_pressed_key(cpu@.keys, 0);
}

/// Storing registers 0 to x writes exactly the x + 1 bytes of memory from
/// the index register on, in register order, and leaves every other byte
/// as it was.
pub proof fn lemma_store_v0_to_vx(cpu: Chip8, opcode: OpCode)
    requires
        cpu@.can_transfer_v0_to_vx(opcode),
    ensures
        forall|register: int|
            0 <= register <= opcode.x() ==> cpu@.store_v0_to_vx_starting_at_address_i(
                opcode,
            ).memory[cpu@.index + register] == cpu@.registers[register],
        forall|address: int|
            0 <= address < 0xFFF && !(cpu@.index <= address <= cpu@.index + opcode.x())
                ==> cpu@.store_v0_to_vx_starting_at_address_i(opcode).memory[address]
                == cpu@.memory[address],
{
}

/// Loading registers 0 to x reads exactly the x + 1 bytes of memory from
/// the index register on, in register order, and leaves every register
/// above x as it was.
pub proof fn lemma_fill_v0_to_vx(cpu: Chip8, opcode: OpCode)
    requires
        cpu@.can_transfer_v0_to_vx(opcode),
    ensures
        forall|register: int|
            0 <= register <= opcode.x() ==> cpu@.fill_v0_to_vx_starting_at_address_i(
                opcode,
            ).registers[register] == cpu@.memory[cpu@.index + register],
        forall|register: int|
            opcode.x() < register < 16 ==> cpu@.fill_v0_to_vx_starting_at_address_i(
                opcode,
            ).registers[register] == cpu@.registers[register],
{
}

/// Storing registers 0 to x and loading them back at once leaves every
/// register as it was.
pub proof fn lemma_store_then_fill(cpu: Chip8, opcode: OpCode)
    requires
        cpu@.can_transfer_v0_to_vx(opcode),
    ensures
        cpu@.store_v0_to_vx_starting_at_address_i(opcode).fill_v0_to_vx_starting_at_address_i(
            opcode,
        ).registers == cpu@.registers,
{
    assert(cpu@.store_v0_to_vx_starting_at_address_i(opcode).fill_v0_to_vx_starting_at_address_i(
        opcode,
    ).registers =~= cpu@.registers);
}

/// The three bytes written by the decimal unpacking are digits, and read as
/// hundreds, tens and units they give back the register.
pub proof fn lemma_binary_coded_decimal(cpu: Chip8, opcode: OpCode)
    requires
        cpu@.can_store_binary_coded_decimal_representation_of_vx(),
    ensures
        ({
            let after = cpu@.store_binary_coded_decimal_representation_of_vx(opcode);
            let hundreds = after.memory[cpu@.index as int];
            let tens = after.memory[cpu@.index + 1];
            let units = after.memory[cpu@.index + 2];
            &&& hundreds < 10
            &&& tens < 10
            &&& units < 10
            &&& 100 * hundreds + 10 * tens + units == cpu@.registers[opcode.x()]
        }),
{
}

/// Only the instruction that stores a random byte depends on the byte
/// drawn.
pub proof fn lemma_only_one_instruction_is_random(
    cpu: Chip8,
    instruction: Instruction,
    opcode: OpCode,
    first: u8,
    second: u8,
)
    requires
        instruction != Instruction::BitwiseOnARandomNumberAndStore,
    ensures
        cpu@.execute(instruction, opcode, first) == cpu@.execute(instruction, opcode, second),
{
}

/// No instruction changes the key matrix or the dispatch table.
pub proof fn lemma_engine_only_reads_keys_and_table(
    cpu: Chip8,
    instruction: Instruction,
    opcode: OpCode,
    random: u8,
)
    ensures
        cpu@.execute(instruction, opcode, random).keys == cpu@.keys,
        cpu@.execute(instruction, opcode, random).instruction_fns == cpu@.instruction_fns,
{
}

/// An instruction that changes the framebuffer leaves the display marked
/// dirty, and only clearing the screen and drawing a sprite can change it.
pub proof fn lemma_changed_frame_is_marked_dirty(
    cpu: Chip8,
    instruction: Instruction,
    opcode: OpCode,
    random: u8,
)
    requires
        cpu@.execute(instruction, opcode, random).video != cpu@.video,
    ensures
        cpu@.execute(instruction, opcode, random).update_display,
        instruction == Instruction::ClearScreen || instruction == Instruction::DrawSprite,
{
}

/// A step on a word that the table does not know moves the program counter
/// by 2 and changes nothing else.
pub proof fn lemma_unknown_opcode_does_nothing(cpu: Chip8, random: u8)
    requires
        cpu@.can_fetch(),
        cpu@.next_instruction() is None,
    ensures
        cpu@.can_run(),
        cpu@.run(random) == (Machine { pc: (cpu@.pc + 2) as u16, ..cpu@ }),
{
}

} // verus!
