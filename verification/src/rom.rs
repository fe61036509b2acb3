//! Program images and their place in memory.

use vstd::prelude::*;

verus! {

/// Number of bytes between the load address and the end of memory: the
/// largest program image that fits.
pub const ROM_MEMORY: usize = 0xFFF - 0x200;

/// Why a program image was turned down.
#[derive(Clone, Copy, Debug, PartialEq, Eq, Structural)]
pub enum RomError {
    /// The image has more than [`ROM_MEMORY`] bytes.
    TooLarge,
}

/// A program image that fits in memory above the load address.
pub struct Rom {
    bytes: Vec<u8>,
}

impl View for Rom {
    type V = Seq<u8>;

    closed spec fn view(&self) -> Seq<u8> {
        self.bytes@
    }
}

impl Rom {
    #[verifier::type_invariant]
    spec fn fits(self) -> bool {
        self.bytes@.len() <= ROM_MEMORY
    }

    /// Accepts a raw program image if it fits in memory, and turns it down
    /// if it does not.
    pub fn new(bytes: Vec<u8>) -> (rom: Result<Rom, RomError>)
        ensures
            bytes@.len() <= ROM_MEMORY ==> rom is Ok && rom->Ok_0@ == bytes@,
            bytes@.len() > ROM_MEMORY ==> rom == Err::<Rom, RomError>(RomError::TooLarge),
    {
        if bytes.len() > ROM_MEMORY {
            Err(RomError::TooLarge)
        } else {
            Ok(Rom { bytes })
        }
    }

    /// The number of bytes of the image.
    pub fn len(&self) -> (len: usize)
        ensures
            len == self@.len(),
            len <= ROM_MEMORY,
    {
        proof {
            use_type_invariant(self);
        }
        self.bytes.len()
    }

    /// The memory that results from placing `image` at the load address of
    /// `memory`.
    pub open spec fn loaded(image: Seq<u8>, memory: Seq<u8>) -> Seq<u8> {
        Seq::new(
            0xFFF,
            |address: int| if 0x200 <= address < 0x200 + image.len() {
                image[address - 0x200]
            } else {
                memory[address]
            },
        )
    }

    /// Copies the image, unmodified, into memory from address 0x200 on.
    /// Every other byte of memory keeps its value.
    pub fn load_into_memory(&self, memory: &mut [u8; 0xFFF])
        ensures
            final(memory)@ == Rom::loaded(self@, old(memory)@),
    {
        proof {
            use_type_invariant(self);
        }
        let mut index: usize = 0;
        while index < self.bytes.len()
            invariant
                index <= self.bytes@.len() <= ROM_MEMORY,
                forall|address: int|
                    0 <= address < 0xFFF ==> memory@[address] == if 0x200 <= address < 0x200
                        + index {
                        self.bytes@[address - 0x200]
                    } else {
                        old(memory)@[address]
                    },
            decreases self.bytes@.len() - index,
        {
            memory[0x200 + index] = self.bytes[index];
            index += 1;
        }
        assert(memory@ =~= Rom::loaded(self@, old(memory)@));
    }
}

} // verus!
