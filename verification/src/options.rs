//! Decoder options: a bitmask of independently toggled legacy/vendor
//! quirks, fixed for the lifetime of a decoder instance.  Each constant
//! names one quirk; the default (`NONE`) disables them all.

use vstd::prelude::*;

verus! {

/// The decoder-options bitmask values.
pub struct DecoderOptions;

impl DecoderOptions {
    /// No quirk enabled.
    pub const NONE: u32 = 0x0000_0000;
    /// Disable some invalid-instruction checks.
    pub const NO_INVALID_CHECK: u32 = 0x0000_0001;
    /// AMD-only behaviour.
    pub const AMD: u32 = 0x0000_0002;
    /// Decode the reserved-nop forms.
    pub const FORCE_RESERVEDNOP: u32 = 0x0000_0004;
    /// Decode the undocumented `umov` instructions.
    pub const UMOV: u32 = 0x0000_0008;
    /// Decode the undocumented `xbts`/`ibts` instructions.
    pub const XBTS: u32 = 0x0000_0010;
    /// Decode the 486A `cmpxchg` encoding.
    pub const CMPXCHG486A: u32 = 0x0000_0020;
    /// Decode old FPU encodings.
    pub const OLD_FPU: u32 = 0x0000_0040;
    /// Decode `pcommit`.
    pub const PCOMMIT: u32 = 0x0000_0080;
    /// Decode `loadall` (286 form).
    pub const LOADALL286: u32 = 0x0000_0100;
    /// Decode `loadall` (386 form).
    pub const LOADALL386: u32 = 0x0000_0200;
    /// Decode `cl1invmb`.
    pub const CL1INVMB: u32 = 0x0000_0400;
    /// Decode `mov` to/from test registers.
    pub const MOV_TR: u32 = 0x0000_0800;
    /// Decode `jmpe`.
    pub const JMPE: u32 = 0x0000_1000;
    /// Do not decode `pause`; decode `nop` instead.
    pub const NO_PAUSE: u32 = 0x0000_2000;
    /// Do not decode `wbnoinvd`.
    pub const NO_WBNOINVD: u32 = 0x0000_4000;
    /// Do not decode `lock mov cr`.
    pub const NO_LOCK_MOV_CR: u32 = 0x0000_8000;
    /// Do not use the mandatory prefix for `0F BC`.
    pub const NO_MPFX_0FBC: u32 = 0x0001_0000;
    /// Do not use the mandatory prefix for `0F BD`.
    pub const NO_MPFX_0FBD: u32 = 0x0002_0000;
    /// Do not decode `lahf`/`sahf` in 64-bit code.
    pub const NO_LAHF_SAHF_64: u32 = 0x0004_0000;
    /// Decode MPX instructions.
    pub const MPX: u32 = 0x0008_0000;
    /// Decode Cyrix instructions.
    pub const CYRIX: u32 = 0x0010_0000;
    /// Decode Cyrix `smint` at `0F 7E`.
    pub const CYRIX_SMINT_0F7E: u32 = 0x0020_0000;
    /// Decode Cyrix DMI instructions.
    pub const CYRIX_DMI: u32 = 0x0040_0000;
    /// Decode Cyrix `altinst`.
    pub const ALTINST: u32 = 0x0080_0000;
}

} // verus!
