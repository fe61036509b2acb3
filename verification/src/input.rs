//! The keypad: which host key stands for which of the 16 keys, and what a
//! host event does to the key matrix.

use crate::chip8::{Chip8, Machine};
use vstd::prelude::*;

verus! {

/// The host keys that stand for the 16 keys of the machine, laid out as a
/// 4 by 4 block: the keypad digits 1 to 4 on top, then Q to R, A to F and
/// Z to V.
#[derive(Clone, Copy, Debug, PartialEq, Eq, Structural)]
pub enum HostKey {
    Kp1,
    Kp2,
    Kp3,
    Kp4,
    Q,
    W,
    E,
    R,
    A,
    S,
    D,
    F,
    Z,
    X,
    C,
    V,
}

/// What the host reported since the last poll.
#[derive(Clone, Copy, Debug, PartialEq, Eq, Structural)]
pub enum InputEvent {
    /// The user asked to leave.
    Quit,
    /// A key of the keypad block went down.
    KeyDown(HostKey),
    /// A key of the keypad block went up.
    KeyUp(HostKey),
    /// Anything else.
    Other,
}

/// The number, 0x0 to 0xF, of the machine key that a host key stands for.
pub open spec fn key_number(key: HostKey) -> int {
    match key {
        HostKey::Kp1 => 0x1,
        HostKey::Kp2 => 0x2,
        HostKey::Kp3 => 0x3,
        HostKey::Kp4 => 0xC,
        HostKey::Q => 0x4,
        HostKey::W => 0x5,
        HostKey::E => 0x6,
        HostKey::R => 0xD,
        HostKey::A => 0x7,
        HostKey::S => 0x8,
        HostKey::D => 0x9,
        HostKey::F => 0xE,
        HostKey::Z => 0xA,
        HostKey::X => 0x0,
        HostKey::C => 0xB,
        HostKey::V => 0xF,
    }
}

/// Looks up the machine key that a host key stands for.
pub fn key_index(key: HostKey) -> (index: usize)
    ensures
        index == key_number(key),
        index < 16,
{
    match key {
        HostKey::Kp1 => 0x1,
        HostKey::Kp2 => 0x2,
        HostKey::Kp3 => 0x3,
        HostKey::Kp4 => 0xC,
        HostKey::Q => 0x4,
        HostKey::W => 0x5,
        HostKey::E => 0x6,
        HostKey::R => 0xD,
        HostKey::A => 0x7,
        HostKey::S => 0x8,
        HostKey::D => 0x9,
        HostKey::F => 0xE,
        HostKey::Z => 0xA,
        HostKey::X => 0x0,
        HostKey::C => 0xB,
        HostKey::V => 0xF,
    }
}

impl Machine {
    /// The state after a polled event: a key going down or up sets or
    /// clears its entry of the key matrix, and nothing else changes.
    pub open spec fn capture(self, event: Option<InputEvent>) -> Machine {
        match event {
            Some(InputEvent::KeyDown(key)) => Machine {
                keys: self.keys.update(key_number(key), true),
                ..self
            },
            Some(InputEvent::KeyUp(key)) => Machine {
                keys: self.keys.update(key_number(key), false),
                ..self
            },
            _ => self,
        }
    }
}

/// Applies one polled host event, or none, to the key matrix of the
/// machine, and tells whether the user asked to leave.
pub fn capture(event: Option<InputEvent>, cpu: &mut Chip8) -> (quit: bool)
    ensures
        quit == (event == Some(InputEvent::Quit)),
        final(cpu)@ == old(cpu)@.capture(event),
{
    match event {
        Some(InputEvent::Quit) => {
            return true;
        },
        Some(InputEvent::KeyDown(key)) => {
            cpu.keys[key_index(key)] = true;
        },
        Some(InputEvent::KeyUp(key)) => {
            cpu.keys[key_index(key)] = false;
        },
        Some(InputEvent::Other) => {},
        None => {
            return false;
        },
    }
    false
}

} // verus!
