//! The ways in which an emulation session can fail.

use vstd::prelude::*;

verus! {

/// A failure reported by the emulator core.
#[derive(Clone, Copy, PartialEq, Eq, Debug, Structural)]
pub enum EmulatorError {
    /// The byte fetched at `pc` is not the encoding of any documented
    /// instruction. The processor state is left as it was before the fetch.
    UnsupportedInstruction { opcode: u8, pc: u16 },
    /// A program image of zero bytes was offered for loading.
    EmptyImage,
    /// A program image would extend past the end of the address space.
    ImageTooLarge,
}

} // verus!
