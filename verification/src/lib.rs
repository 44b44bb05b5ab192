//! A verified x86/x64 instruction decoder.
//!
//! The decoder turns a raw machine-code byte stream into a structured
//! `Instruction` value: it scans legacy/REX/VEX/XOP/EVEX prefixes, looks the
//! opcode up in a descriptor table, decodes ModRM/SIB/displacement memory
//! operands (including EVEX compressed displacements) and immediates, and
//! enforces the 15-byte architectural length limit.  The executable decoder
//! is proved equal to a functional model, and the key properties of that
//! model (length bounds, truncation behaviour, escape-byte disambiguation,
//! displacement scaling) are proved in `props`.

pub mod enums;
pub mod errors;
pub mod reader;
pub mod regs;
pub mod nums;
pub mod instruction;
pub mod prefix;
pub mod head;
pub mod options;
pub mod table;
pub mod operands;
pub mod decoder;
pub mod props;
