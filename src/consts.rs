//! ELF segment type codes and permission bits, as the ELF ABI fixes them.
use vstd::prelude::*;

verus! {

/// Unused entry.
pub const PT_NULL: u32 = 0;

/// Loadable segment.
pub const PT_LOAD: u32 = 1;

/// Dynamic linking information.
pub const PT_DYNAMIC: u32 = 2;

/// Path of the program interpreter.
pub const PT_INTERP: u32 = 3;

/// Auxiliary information.
pub const PT_NOTE: u32 = 4;

/// Reserved.
pub const PT_SHLIB: u32 = 5;

/// The program header table itself.
pub const PT_PHDR: u32 = 6;

/// Thread-local storage template.
pub const PT_TLS: u32 = 7;

/// Start of the range reserved for operating systems.
pub const PT_LOOS: u32 = 0x60000000;

/// End of the range reserved for operating systems.
pub const PT_HIOS: u32 = 0x6fffffff;

/// Start of the range reserved for processors.
pub const PT_LOPROC: u32 = 0x70000000;

/// End of the range reserved for processors.
pub const PT_HIPROC: u32 = 0x7fffffff;

/// GNU: location of the exception-handling frame header.
pub const PT_GNU_EH_FRAME: u32 = 0x6474e550;

/// GNU: read-only after relocation.
pub const PT_GNU_RELRO: u32 = 0x6474e552;

/// Segment is executable.
pub const PF_X: u32 = 1;

/// Segment is writable.
pub const PF_W: u32 = 2;

/// Segment is readable.
pub const PF_R: u32 = 4;

/// Bits reserved for processor-specific meanings.
pub const PF_MASKPROC: u32 = 0xf0000000;

} // verus!
