use vstd::prelude::*;

verus! {

/// Fatal conditions the emulated machine surfaces to its caller instead of
/// tolerating silently: malformed images, accesses to undefined I/O
/// registers, and opcodes that do not exist on this CPU.
#[derive(Clone, Copy, Debug, PartialEq, Eq, Structural)]
pub enum EmuError {
    /// The boot ROM image is not exactly 0x100 bytes long.
    BootromSize,
    /// The cartridge image is not exactly 0x8000 bytes long.
    CartridgeSize,
    /// A read of an I/O address the bus does not define.
    UnknownIoRead(u16),
    /// A write to an I/O address the bus does not define.
    UnknownIoWrite(u16),
    /// A joypad write that drives both column select lines at once.
    JoypadSelect(u8),
    /// A fetched opcode with no instruction on this CPU.
    IllegalOpcode(u8),
}

} // verus!
