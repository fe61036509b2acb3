//! A CHIP-8 interpreter core: the machine state, the opcode dispatch rule and
//! the semantics of every instruction, each with a machine-checked contract.
//!
//! * [`chip8`] holds the machine state, the fetch and the single step.
//! * [`instructions`] holds the dispatch table and one function per
//!   instruction.
//! * [`proofs`] states what holds of the instruction set as a whole.
//! * [`rom`], [`graphics`] and [`input`] are the core's side of the program
//!   loader, the renderer and the keyboard.

pub mod chip8;
pub mod graphics;
pub mod input;
pub mod instructions;
pub mod proofs;
pub mod rom;
