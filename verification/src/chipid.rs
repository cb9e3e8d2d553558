//! Decoding of the CHIPID peripheral (chip identification registers).
use vstd::prelude::*;

verus! {

/// Embedded processor encoded in `CHIPID_CIDR.EPROC`.
#[derive(Clone, Copy, Debug, PartialEq, Eq, Structural)]
pub enum EmbeddedProcessor {
    Arm946Es,
    Arm7Tdmi,
    CortexM3,
    Arm920T,
    Arm926Ejs,
    CortexA5,
    CortexM4,
}

/// Product family of the chip.
#[derive(Clone, Copy, Debug, PartialEq, Eq, Structural)]
pub enum Family {
    AtSam4e,
    AtSam4n,
    AtSam4s,
}

/// Exact chip model.
#[derive(Clone, Copy, Debug, PartialEq, Eq, Structural)]
pub enum Model {
    AtSam4e8c,
    AtSam4e8e,
    AtSam4e16c,
    AtSam4e16e,
    AtSam4n8a,
    AtSam4n8b,
    AtSam4n8c,
    AtSam4n16b,
    AtSam4n16c,
    AtSam4s2a,
    AtSam4s2b,
    AtSam4s2c,
    AtSam4s4a,
    AtSam4s4b,
    AtSam4s4c,
    AtSam4s8b,
    AtSam4s8c,
    AtSam4s16b,
    AtSam4s16c,
    AtSam4sa16b,
    AtSam4sa16c,
    AtSam4sd16b,
    AtSam4sd16c,
    AtSam4sd32b,
    AtSam4sd32c,
}

/// Type of the non-volatile program memory.
#[derive(Clone, Copy, Debug, PartialEq, Eq, Structural)]
pub enum FlashMemoryType {
    Rom,
    Romless,
    Sram,
    Flash,
    /// flash1_byte_size = ROM size, flash2_byte_size = Flash size
    RomFlash,
}

/// Decoded chip identification.
#[derive(Debug)]
pub struct ChipId {
    version: u8,
    embedded_processor: Option<EmbeddedProcessor>,
    flash1_byte_size: Option<usize>,
    flash2_byte_size: Option<usize>,
    internal_sram_byte_size: Option<usize>,
    family: Option<Family>,
    model: Option<Model>,
    flash_memory_type: Option<FlashMemoryType>,
}

/// The decoded fields of a [`ChipId`].
pub struct ChipIdModel {
    pub version: u8,
    pub embedded_processor: Option<EmbeddedProcessor>,
    pub flash1_byte_size: Option<usize>,
    pub flash2_byte_size: Option<usize>,
    pub internal_sram_byte_size: Option<usize>,
    pub family: Option<Family>,
    pub model: Option<Model>,
    pub flash_memory_type: Option<FlashMemoryType>,
}

impl View for ChipId {
    type V = ChipIdModel;

    closed spec fn view(&self) -> ChipIdModel {
        ChipIdModel {
            version: self.version,
            embedded_processor: self.embedded_processor,
            flash1_byte_size: self.flash1_byte_size,
            flash2_byte_size: self.flash2_byte_size,
            internal_sram_byte_size: self.internal_sram_byte_size,
            family: self.family,
            model: self.model,
            flash_memory_type: self.flash_memory_type,
        }
    }
}

/// `CIDR.VERSION`, bits 0..=4.
pub open spec fn cidr_version(cidr: u32) -> u32 { cidr & 0x1f }
/// `CIDR.EPROC`, bits 5..=7.
pub open spec fn cidr_eproc(cidr: u32) -> u32 { (cidr >> 5) & 7 }
/// `CIDR.NVPSIZ`, bits 8..=11.
pub open spec fn cidr_nvpsiz(cidr: u32) -> u32 { (cidr >> 8) & 0xf }
/// `CIDR.NVPSIZ2`, bits 12..=15.
pub open spec fn cidr_nvpsiz2(cidr: u32) -> u32 { (cidr >> 12) & 0xf }
/// `CIDR.SRAMSIZ`, bits 16..=19.
pub open spec fn cidr_sramsiz(cidr: u32) -> u32 { (cidr >> 16) & 0xf }
/// `CIDR.NVPTYP`, bits 28..=30.
pub open spec fn cidr_nvptyp(cidr: u32) -> u32 { (cidr >> 28) & 7 }

/// The processor named by an `EPROC` code.
pub open spec fn spec_eproc(code: u32) -> Option<EmbeddedProcessor> {
    if code == 1 { Some(EmbeddedProcessor::Arm946Es) }
    else if code == 2 { Some(EmbeddedProcessor::Arm7Tdmi) }
    else if code == 3 { Some(EmbeddedProcessor::CortexM3) }
    else if code == 4 { Some(EmbeddedProcessor::Arm920T) }
    else if code == 5 { Some(EmbeddedProcessor::Arm926Ejs) }
    else if code == 6 { Some(EmbeddedProcessor::CortexA5) }
    else if code == 7 { Some(EmbeddedProcessor::CortexM4) }
    else { None }
}

/// Flash size in KiB named by an `NVPSIZ`/`NVPSIZ2` code (0 when the code names none).
pub open spec fn flash_kib(code: u32) -> nat {
    if code == 1 { 8 }
    else if code == 2 { 16 }
    else if code == 3 { 32 }
    else if code == 5 { 64 }
    else if code == 7 { 128 }
    else if code == 9 { 256 }
    else if code == 10 { 512 }
    else if code == 12 { 1024 }
    else if code == 14 { 2048 }
    else { 0 }
}

/// Flash size in bytes named by an `NVPSIZ` code.
pub open spec fn spec_flash_size(code: u32) -> Option<usize> {
    if flash_kib(code) == 0 { None } else { Some((flash_kib(code) * 1024) as usize) }
}

/// SRAM size in KiB named by a `SRAMSIZ` code (0 when the code names none).
pub open spec fn sram_kib(code: u32) -> nat {
    if code == 0 { 48 }
    else if code == 1 { 192 }
    else if code == 2 { 2 }
    else if code == 3 { 6 }
    else if code == 4 { 24 }
    else if code == 5 { 4 }
    else if code == 6 { 80 }
    else if code == 7 { 160 }
    else if code == 8 { 8 }
    else if code == 9 { 16 }
    else if code == 10 { 32 }
    else if code == 11 { 64 }
    else if code == 12 { 128 }
    else if code == 13 { 256 }
    else if code == 14 { 96 }
    else if code == 15 { 512 }
    else { 0 }
}

/// SRAM size in bytes named by a `SRAMSIZ` code.
pub open spec fn spec_sram_size(code: u32) -> Option<usize> {
    if sram_kib(code) == 0 { None } else { Some((sram_kib(code) * 1024) as usize) }
}

/// Memory type named by an `NVPTYP` code.
pub open spec fn spec_flash_type(code: u32) -> Option<FlashMemoryType> {
    if code == 0 { Some(FlashMemoryType::Rom) }
    else if code == 1 { Some(FlashMemoryType::Romless) }
    else if code == 2 { Some(FlashMemoryType::Flash) }
    else if code == 3 { Some(FlashMemoryType::RomFlash) }
    else if code == 4 { Some(FlashMemoryType::Sram) }
    else { None }
}

/// The SAM4E model named by the `EXID` register of a chip whose `CIDR` is `0xA3CC_0CE0`.
pub open spec fn spec_sam4e_model(exid: u32) -> Option<Model> {
    if exid == 0x0012_0209 { Some(Model::AtSam4e8c) }
    else if exid == 0x0012_0208 { Some(Model::AtSam4e8e) }
    else if exid == 0x0012_0201 { Some(Model::AtSam4e16c) }
    else if exid == 0x0012_0200 { Some(Model::AtSam4e16e) }
    else { None }
}

/// The SAM4S/SAM4N model named by a full `CIDR` value.
pub open spec fn spec_cidr_model(cidr: u32) -> Option<Model> {
    if cidr == 0x288B_07E0 { Some(Model::AtSam4s2a) }
    else if cidr == 0x289B_07E0 { Some(Model::AtSam4s2b) }
    else if cidr == 0x28AB_07E0 { Some(Model::AtSam4s2c) }
    else if cidr == 0x288B_09E0 { Some(Model::AtSam4s4a) }
    else if cidr == 0x289B_09E0 { Some(Model::AtSam4s4b) }
    else if cidr == 0x28AB_09E0 { Some(Model::AtSam4s4c) }
    else if cidr == 0x289C_0AE0 { Some(Model::AtSam4s8b) }
    else if cidr == 0x28AC_0AE0 { Some(Model::AtSam4s8c) }
    else if cidr == 0x289C_0CE0 { Some(Model::AtSam4s16b) }
    else if cidr == 0x28AC_0CE0 { Some(Model::AtSam4s16c) }
    else if cidr == 0x2897_0CE0 { Some(Model::AtSam4sa16b) }
    else if cidr == 0x28A7_0CE0 { Some(Model::AtSam4sa16c) }
    else if cidr == 0x2997_0CE0 { Some(Model::AtSam4sd16b) }
    else if cidr == 0x29A7_0CE0 { Some(Model::AtSam4sd16c) }
    else if cidr == 0x2997_0EE0 { Some(Model::AtSam4sd32b) }
    else if cidr == 0x29A7_0EE0 { Some(Model::AtSam4sd32c) }
    else if cidr == 0x293B_0AE0 { Some(Model::AtSam4n8a) }
    else if cidr == 0x294B_0AE0 { Some(Model::AtSam4n8b) }
    else if cidr == 0x295B_0AE0 { Some(Model::AtSam4n8c) }
    else if cidr == 0x2946_0CE0 { Some(Model::AtSam4n16b) }
    else if cidr == 0x2956_0CE0 { Some(Model::AtSam4n16c) }
    else { None }
}

/// The family a model belongs to.
pub open spec fn model_family(model: Model) -> Family {
    match model {
        Model::AtSam4e8c | Model::AtSam4e8e | Model::AtSam4e16c | Model::AtSam4e16e => Family::AtSam4e,
        Model::AtSam4n8a | Model::AtSam4n8b | Model::AtSam4n8c | Model::AtSam4n16b
        | Model::AtSam4n16c => Family::AtSam4n,
        _ => Family::AtSam4s,
    }
}

/// Family and model named by the `CIDR` and `EXID` registers.
pub open spec fn spec_family_and_model(cidr: u32, exid: u32) -> (Option<Family>, Option<Model>) {
    if cidr == 0xA3CC_0CE0 {
        (Some(Family::AtSam4e), spec_sam4e_model(exid))
    } else {
        match spec_cidr_model(cidr) {
            Some(m) => (Some(model_family(m)), Some(m)),
            None => (None, None),
        }
    }
}

impl ChipId {
    /// Decodes the chip identification from the raw `CHIPID_CIDR` and `CHIPID_EXID`
    /// register values.
    pub fn new(cidr: u32, exid: u32) -> (r: Self)
        ensures
            r@.version == cidr_version(cidr),
            r@.embedded_processor == spec_eproc(cidr_eproc(cidr)),
            r@.flash1_byte_size == spec_flash_size(cidr_nvpsiz(cidr)),
            r@.flash2_byte_size == spec_flash_size(cidr_nvpsiz2(cidr)),
            r@.internal_sram_byte_size == spec_sram_size(cidr_sramsiz(cidr)),
            (r@.family, r@.model) == spec_family_and_model(cidr, exid),
            r@.flash_memory_type == spec_flash_type(cidr_nvptyp(cidr)),
    {
        proof {
            assert((cidr >> 8) & 0xf < 16) by (bit_vector);
            assert((cidr >> 12) & 0xf < 16) by (bit_vector);
            assert(cidr & 0x1f < 32) by (bit_vector);
        }
        let version = (cidr & 0x1f) as u8;
        let eproc = (cidr >> 5) & 7;
        let embedded_processor = match eproc {
            1 => Some(EmbeddedProcessor::Arm946Es),
            2 => Some(EmbeddedProcessor::Arm7Tdmi),
            3 => Some(EmbeddedProcessor::CortexM3),
            4 => Some(EmbeddedProcessor::Arm920T),
            5 => Some(EmbeddedProcessor::Arm926Ejs),
            6 => Some(EmbeddedProcessor::CortexA5),
            7 => Some(EmbeddedProcessor::CortexM4),
            _ => None,
        };
        let flash1_byte_size = Self::decode_flash_size_from_register(((cidr >> 8) & 0xf) as u8);
        let flash2_byte_size = Self::decode_flash_size_from_register(((cidr >> 12) & 0xf) as u8);
        let sramsiz = (cidr >> 16) & 0xf;
        let internal_sram_byte_size = match sramsiz {
            0 => Some(48 * 1024),
            1 => Some(192 * 1024),
            2 => Some(2 * 1024),
            3 => Some(6 * 1024),
            4 => Some(24 * 1024),
            5 => Some(4 * 1024),
            6 => Some(80 * 1024),
            7 => Some(160 * 1024),
            8 => Some(8 * 1024),
            9 => Some(16 * 1024),
            10 => Some(32 * 1024),
            11 => Some(64 * 1024),
            12 => Some(128 * 1024),
            13 => Some(256 * 1024),
            14 => Some(96 * 1024),
            15 => Some(512 * 1024),
            _ => None,
        };
        let (family, model) = Self::decode_family_and_model(cidr, exid);
        let nvptyp = (cidr >> 28) & 7;
        let flash_memory_type = match nvptyp {
            0 => Some(FlashMemoryType::Rom),
            1 => Some(FlashMemoryType::Romless),
            2 => Some(FlashMemoryType::Flash),
            3 => Some(FlashMemoryType::RomFlash),
            4 => Some(FlashMemoryType::Sram),
            _ => None,
        };
        ChipId {
            version,
            embedded_processor,
            flash1_byte_size,
            flash2_byte_size,
            internal_sram_byte_size,
            family,
            model,
            flash_memory_type,
        }
    }

    /// Silicon version of the device.
    pub fn version(&self) -> (r: u8)
        ensures r == self@.version,
    {
        self.version
    }

    /// Embedded processor, if the code is a known one.
    pub fn embedded_processor(&self) -> (r: Option<EmbeddedProcessor>)
        ensures r == self@.embedded_processor,
    {
        self.embedded_processor
    }

    /// Size in bytes of the first non-volatile memory.
    pub fn flash1_byte_size(&self) -> (r: Option<usize>)
        ensures r == self@.flash1_byte_size,
    {
        self.flash1_byte_size
    }

    /// Size in bytes of the second non-volatile memory.
    pub fn flash2_byte_size(&self) -> (r: Option<usize>)
        ensures r == self@.flash2_byte_size,
    {
        self.flash2_byte_size
    }

    /// Size in bytes of the internal SRAM.
    pub fn internal_sram_size(&self) -> (r: Option<usize>)
        ensures r == self@.internal_sram_byte_size,
    {
        self.internal_sram_byte_size
    }

    /// Product family.
    pub fn family(&self) -> (r: Option<Family>)
        ensures r == self@.family,
    {
        self.family
    }

    /// Chip model.
    pub fn model(&self) -> (r: Option<Model>)
        ensures r == self@.model,
    {
        self.model
    }

    /// Non-volatile program memory type.
    pub fn flash_memory_type(&self) -> (r: Option<FlashMemoryType>)
        ensures r == self@.flash_memory_type,
    {
        self.flash_memory_type
    }

    fn decode_flash_size_from_register(register_value: u8) -> (r: Option<usize>)
        requires register_value < 16,
        ensures r == spec_flash_size(register_value as u32),
    {
        match register_value {
            1 => Some(8 * 1024),
            2 => Some(16 * 1024),
            3 => Some(32 * 1024),
            5 => Some(64 * 1024),
            7 => Some(128 * 1024),
            9 => Some(256 * 1024),
            10 => Some(512 * 1024),
            12 => Some(1024 * 1024),
            14 => Some(2048 * 1024),
            _ => None,
        }
    }

    fn decode_family_and_model(cidr: u32, exid: u32) -> (r: (Option<Family>, Option<Model>))
        ensures r == spec_family_and_model(cidr, exid),
    {
        match cidr {
            0x288B_07E0 => (Some(Family::AtSam4s), Some(Model::AtSam4s2a)),
            0x289B_07E0 => (Some(Family::AtSam4s), Some(Model::AtSam4s2b)),
            0x28AB_07E0 => (Some(Family::AtSam4s), Some(Model::AtSam4s2c)),
            0x288B_09E0 => (Some(Family::AtSam4s), Some(Model::AtSam4s4a)),
            0x289B_09E0 => (Some(Family::AtSam4s), Some(Model::AtSam4s4b)),
            0x28AB_09E0 => (Some(Family::AtSam4s), Some(Model::AtSam4s4c)),
            0x289C_0AE0 => (Some(Family::AtSam4s), Some(Model::AtSam4s8b)),
            0x28AC_0AE0 => (Some(Family::AtSam4s), Some(Model::AtSam4s8c)),
            0x289C_0CE0 => (Some(Family::AtSam4s), Some(Model::AtSam4s16b)),
            0x28AC_0CE0 => (Some(Family::AtSam4s), Some(Model::AtSam4s16c)),
            0x2897_0CE0 => (Some(Family::AtSam4s), Some(Model::AtSam4sa16b)),
            0x28A7_0CE0 => (Some(Family::AtSam4s), Some(Model::AtSam4sa16c)),
            0x2997_0CE0 => (Some(Family::AtSam4s), Some(Model::AtSam4sd16b)),
            0x29A7_0CE0 => (Some(Family::AtSam4s), Some(Model::AtSam4sd16c)),
            0x2997_0EE0 => (Some(Family::AtSam4s), Some(Model::AtSam4sd32b)),
            0x29A7_0EE0 => (Some(Family::AtSam4s), Some(Model::AtSam4sd32c)),
            0x293B_0AE0 => (Some(Family::AtSam4n), Some(Model::AtSam4n8a)),
            0x294B_0AE0 => (Some(Family::AtSam4n), Some(Model::AtSam4n8b)),
            0x295B_0AE0 => (Some(Family::AtSam4n), Some(Model::AtSam4n8c)),
            0x2946_0CE0 => (Some(Family::AtSam4n), Some(Model::AtSam4n16b)),
            0x2956_0CE0 => (Some(Family::AtSam4n), Some(Model::AtSam4n16c)),
            0xA3CC_0CE0 => match exid {
                0x0012_0209 => (Some(Family::AtSam4e), Some(Model::AtSam4e8c)),
                0x0012_0208 => (Some(Family::AtSam4e), Some(Model::AtSam4e8e)),
                0x0012_0201 => (Some(Family::AtSam4e), Some(Model::AtSam4e16c)),
                0x0012_0200 => (Some(Family::AtSam4e), Some(Model::AtSam4e16e)),
                _ => (Some(Family::AtSam4e), None),
            },
            _ => (None, None),
        }
    }
}

} // verus!
