use vstd::prelude::*;
use crate::elf::{BootImage, SectionHeader, Symbol};
use crate::error::ImageError;

verus! {

/// Image vector table: the boot ROM's entry structure. The word at offset 8
/// is reserved and not decoded.
#[derive(Clone, Copy, Debug, PartialEq, Eq, Structural)]
pub struct Ivt {
    pub magic_header: u32,
    pub interrupt_vector_table: u32,
    pub device_configuration_data: u32,
    pub boot_data: u32,
}

/// Flash configuration block: where it is linked, and how large it is.
#[derive(Clone, Copy, Debug, PartialEq, Eq, Structural)]
pub struct Fcb {
    pub address: u64,
    pub size: u64,
}

/// A section's run-time address and size.
#[derive(Clone, Copy, Debug, PartialEq, Eq, Structural)]
pub struct Section {
    pub address: u64,
    pub size: u64,
}

/// The little-endian 32-bit word at byte `at`.
pub open spec fn le_u32(bytes: Seq<u8>, at: int) -> int {
    bytes[at] + bytes[at + 1] * 0x100 + bytes[at + 2] * 0x1_0000 + bytes[at + 3] * 0x100_0000
}

/// The file offset of the IVT: the boot section's file offset plus the
/// distance of `__ivt` from the boot section's address.
pub open spec fn ivt_offset(ivt: Symbol, boot: SectionHeader) -> int {
    boot.offset + (ivt.address - boot.address)
}

/// Whether `__ivt` lies at or above the boot section, and the 20 bytes of
/// the IVT lie inside the image.
pub open spec fn ivt_in_bounds(bytes: Seq<u8>, ivt: Symbol, boot: SectionHeader) -> bool {
    ivt.address >= boot.address && ivt_offset(ivt, boot) + 20 <= bytes.len()
}

/// The IVT decoded from its four words at offsets 0, 4, 12 and 16.
pub open spec fn ivt_at(bytes: Seq<u8>, at: int) -> Ivt {
    Ivt {
        magic_header: le_u32(bytes, at) as u32,
        interrupt_vector_table: le_u32(bytes, at + 4) as u32,
        device_configuration_data: le_u32(bytes, at + 12) as u32,
        boot_data: le_u32(bytes, at + 16) as u32,
    }
}

/// Name of the image vector table symbol.
pub open spec fn ivt_symbol() -> Seq<char> {
    "__ivt"@
}

/// Name of the boot section.
pub open spec fn boot_section() -> Seq<char> {
    ".boot"@
}

/// Name of the flash configuration block symbol.
pub open spec fn fcb_symbol() -> Seq<char> {
    "FLEXSPI_CONFIGURATION_BLOCK"@
}

/// Name of the symbol whose value is the FlexRAM bank configuration.
pub open spec fn flexram_symbol() -> Seq<char> {
    "__flexram_config"@
}

/// Reads the little-endian 32-bit word at byte `at`.
pub fn read_u32(bytes: &[u8], at: usize) -> (r: u32)
    requires
        at + 4 <= bytes@.len(),
    ensures
        r == le_u32(bytes@, at as int),
{
    let b0 = bytes[at] as u32;
    let b1 = bytes[at + 1] as u32;
    let b2 = bytes[at + 2] as u32;
    let b3 = bytes[at + 3] as u32;
    b0 + b1 * 0x100 + b2 * 0x1_0000 + b3 * 0x100_0000
}

impl BootImage {
    /// The IVT that the image holds, where `__ivt` and `.boot` are present
    /// and the structure lies inside the bytes.
    pub open spec fn ivt_spec(&self) -> Option<Ivt> {
        match (self.symbol_spec(ivt_symbol()), self.section_spec(boot_section())) {
            (Some(ivt), Some(boot)) => if ivt_in_bounds(self.contents@, ivt, boot) {
                Some(ivt_at(self.contents@, ivt_offset(ivt, boot)))
            } else {
                None
            },
            _ => None,
        }
    }

    /// The section named `name`, as its address and size.
    pub fn section(&self, name: &str) -> (r: Result<Section, ImageError>)
        ensures
            r is Ok <==> self.section_spec(name@) is Some,
            r matches Ok(s) ==> s.address == self.section_spec(name@).unwrap().address
                && s.size == self.section_spec(name@).unwrap().size,
            r matches Err(e) ==> e.missing_section(name@),
    {
        match self.section_header(name) {
            Some(sh) => Ok(Section { address: sh.address, size: sh.size }),
            None => Err(ImageError::MissingSection(name.to_owned())),
        }
    }

    /// Decodes the image vector table that `__ivt` marks inside the `.boot`
    /// section.
    pub fn ivt(&self) -> (r: Result<Ivt, ImageError>)
        ensures
            r is Ok <==> self.ivt_spec() is Some,
            r matches Ok(v) ==> self.ivt_spec() == Some(v),
            self.symbol_spec(ivt_symbol()) is None ==> (r matches Err(e) && e.missing_symbol(
                ivt_symbol(),
            )),
            self.symbol_spec(ivt_symbol()) is Some && self.section_spec(boot_section()) is None
                ==> (r matches Err(e) && e.missing_section(boot_section())),
            (self.symbol_spec(ivt_symbol()) is Some && self.section_spec(boot_section()) is Some)
                ==> ({
                let ivt = self.symbol_spec(ivt_symbol()).unwrap();
                let boot = self.section_spec(boot_section()).unwrap();
                if ivt_in_bounds(self.contents@, ivt, boot) {
                    r == Ok::<Ivt, ImageError>(ivt_at(self.contents@, ivt_offset(ivt, boot)))
                } else {
                    (r matches Err(e) && e is MalformedBinary)
                }
            }),
    {
        let ivt = match self.symbol("__ivt") {
            Some(s) => s,
            None => return Err(ImageError::MissingSymbol("__ivt".to_owned())),
        };
        let boot = match self.section_header(".boot") {
            Some(s) => s,
            None => return Err(ImageError::MissingSection(".boot".to_owned())),
        };
        let len = self.contents.len() as u64;
        if ivt.address < boot.address || len < 20 || boot.offset > len - 20
            || ivt.address - boot.address > len - 20 - boot.offset {
            return Err(ImageError::MalformedBinary("IVT lies outside the image".to_owned()));
        }
        let at = (boot.offset + (ivt.address - boot.address)) as usize;
        let bytes = self.contents.as_slice();
        Ok(
            Ivt {
                magic_header: read_u32(bytes, at),
                interrupt_vector_table: read_u32(bytes, at + 4),
                device_configuration_data: read_u32(bytes, at + 12),
                boot_data: read_u32(bytes, at + 16),
            },
        )
    }

    /// The flash configuration block: the address and size of its symbol.
    pub fn fcb(&self) -> (r: Result<Fcb, ImageError>)
        ensures
            r is Ok <==> self.symbol_spec(fcb_symbol()) is Some,
            r matches Ok(f) ==> f.address == self.symbol_spec(fcb_symbol()).unwrap().address
                && f.size == self.symbol_spec(fcb_symbol()).unwrap().size,
            r matches Err(e) ==> e.missing_symbol(fcb_symbol()),
    {
        match self.symbol("FLEXSPI_CONFIGURATION_BLOCK") {
            Some(s) => Ok(Fcb { address: s.address, size: s.size }),
            None => Err(ImageError::MissingSymbol("FLEXSPI_CONFIGURATION_BLOCK".to_owned())),
        }
    }

    /// The FlexRAM bank configuration word. The linker encodes it as the value
    /// of `__flexram_config`; it is that value, not memory at that address.
    pub fn flexram_config(&self) -> (r: Result<u64, ImageError>)
        ensures
            r is Ok <==> self.symbol_spec(flexram_symbol()) is Some,
            r matches Ok(v) ==> v == self.symbol_spec(flexram_symbol()).unwrap().address,
            r matches Err(e) ==> e.missing_symbol(flexram_symbol()),
    {
        match self.symbol("__flexram_config") {
            Some(s) => Ok(s.address),
            None => Err(ImageError::MissingSymbol("__flexram_config".to_owned())),
        }
    }
}

} // verus!
