use vstd::prelude::*;
use crate::error::ImageError;

verus! {

/// A symbol table entry, with its name resolved through the string table
/// (`None` where the name offset does not resolve).
#[derive(Debug, PartialEq, Eq)]
pub struct ElfSymbol {
    pub name: Option<String>,
    pub value: u64,
    pub size: u64,
}

/// A section header, with its name resolved through the section name table.
#[derive(Debug, PartialEq, Eq)]
pub struct ElfSection {
    pub name: Option<String>,
    pub address: u64,
    pub size: u64,
    pub offset: u64,
    pub flags: u64,
}

/// A program header.
#[derive(Clone, Copy, Debug, PartialEq, Eq, Structural)]
pub struct ProgramHeader {
    pub kind: u32,
    pub offset: u64,
    pub file_size: u64,
    pub vaddr: u64,
    pub mem_size: u64,
    pub paddr: u64,
}

/// A symbol as a query returns it: its link-time value and its size.
#[derive(Clone, Copy, Debug, PartialEq, Eq, Structural)]
pub struct Symbol {
    pub address: u64,
    pub size: u64,
}

/// A section header as a query returns it.
#[derive(Clone, Copy, Debug, PartialEq, Eq, Structural)]
pub struct SectionHeader {
    pub address: u64,
    pub size: u64,
    pub offset: u64,
    pub flags: u64,
}

/// The program header type of a loadable segment.
pub const PT_LOAD: u32 = 1;

/// The symbol table of an ELF image, in table order; `None` when the bytes
/// are not an ELF image.
pub uninterp spec fn elf_symbol_table(bytes: Seq<u8>) -> Option<Seq<ElfSymbol>>;

/// The section header table of an ELF image, in table order.
pub uninterp spec fn elf_section_table(bytes: Seq<u8>) -> Option<Seq<ElfSection>>;

/// The program header table of an ELF image, in table order.
pub uninterp spec fn elf_program_table(bytes: Seq<u8>) -> Option<Seq<ProgramHeader>>;

/// Relies on goblin's `Elf::parse`, which fails on bytes that are not an
/// ELF image, and on `Strtab::get_at` to resolve each symbol's name.
#[verifier::external_body]
fn read_symbol_table(bytes: &[u8]) -> (r: Result<Vec<ElfSymbol>, String>)
    ensures
        r is Ok <==> elf_symbol_table(bytes@) is Some,
        r matches Ok(t) ==> t@ == elf_symbol_table(bytes@).unwrap(),
{
    let elf = goblin::elf::Elf::parse(bytes).map_err(|e| e.to_string())?;
    Ok(elf.syms.iter().map(|s| ElfSymbol {
        name: elf.strtab.get_at(s.st_name).map(|n| n.to_string()),
        value: s.st_value,
        size: s.st_size,
    }).collect())
}

/// Relies on goblin's `Elf::parse` for the section headers, and on
/// `Strtab::get_at` to resolve each section's name.
#[verifier::external_body]
fn read_section_table(bytes: &[u8]) -> (r: Option<Vec<ElfSection>>)
    ensures
        r is Some <==> elf_section_table(bytes@) is Some,
        r matches Some(t) ==> t@ == elf_section_table(bytes@).unwrap(),
{
    let elf = goblin::elf::Elf::parse(bytes).ok()?;
    Some(elf.section_headers.iter().map(|h| ElfSection {
        name: elf.shdr_strtab.get_at(h.sh_name).map(|n| n.to_string()),
        address: h.sh_addr,
        size: h.sh_size,
        offset: h.sh_offset,
        flags: h.sh_flags,
    }).collect())
}

/// Relies on goblin's `Elf::parse` for the program headers.
#[verifier::external_body]
fn read_program_table(bytes: &[u8]) -> (r: Option<Vec<ProgramHeader>>)
    ensures
        r is Some <==> elf_program_table(bytes@) is Some,
        r matches Some(t) ==> t@ == elf_program_table(bytes@).unwrap(),
{
    let elf = goblin::elf::Elf::parse(bytes).ok()?;
    Some(elf.program_headers.iter().map(|p| ProgramHeader {
        kind: p.p_type,
        offset: p.p_offset,
        file_size: p.p_filesz,
        vaddr: p.p_vaddr,
        mem_size: p.p_memsz,
        paddr: p.p_paddr,
    }).collect())
}

/// A parsed boot image: the raw bytes and the three tables read from them.
pub struct BootImage {
    pub contents: Vec<u8>,
    pub symbols: Vec<ElfSymbol>,
    pub sections: Vec<ElfSection>,
    pub segments: Vec<ProgramHeader>,
}

/// Whether a symbol entry's resolved name is `name`.
pub open spec fn symbol_named(s: ElfSymbol, name: Seq<char>) -> bool {
    s.name matches Some(n) && n@ == name
}

/// Whether a section entry's resolved name is `name`.
pub open spec fn section_named(s: ElfSection, name: Seq<char>) -> bool {
    s.name matches Some(n) && n@ == name
}

/// The first symbol named `name` at index `k` or later.
pub open spec fn symbol_from(syms: Seq<ElfSymbol>, name: Seq<char>, k: int) -> Option<Symbol>
    decreases syms.len() - k,
{
    if k < 0 || k >= syms.len() {
        None
    } else if symbol_named(syms[k], name) {
        Some(Symbol { address: syms[k].value, size: syms[k].size })
    } else {
        symbol_from(syms, name, k + 1)
    }
}

/// The first section named `name` at index `k` or later.
pub open spec fn section_from(secs: Seq<ElfSection>, name: Seq<char>, k: int) -> Option<
    SectionHeader,
>
    decreases secs.len() - k,
{
    if k < 0 || k >= secs.len() {
        None
    } else if section_named(secs[k], name) {
        Some(
            SectionHeader {
                address: secs[k].address,
                size: secs[k].size,
                offset: secs[k].offset,
                flags: secs[k].flags,
            },
        )
    } else {
        section_from(secs, name, k + 1)
    }
}

impl BootImage {
    /// The symbol that a lookup of `name` finds: the first one so named.
    pub open spec fn symbol_spec(&self, name: Seq<char>) -> Option<Symbol> {
        symbol_from(self.symbols@, name, 0)
    }

    /// The section header that a lookup of `name` finds: the first one so named.
    pub open spec fn section_spec(&self, name: Seq<char>) -> Option<SectionHeader> {
        section_from(self.sections@, name, 0)
    }

    /// Indexes an ELF image. Fails with `MalformedBinary` exactly when the
    /// bytes are not an ELF image.
    pub fn parse(bytes: Vec<u8>) -> (r: Result<BootImage, ImageError>)
        ensures
            r is Ok <==> (elf_symbol_table(bytes@) is Some && elf_section_table(bytes@) is Some
                && elf_program_table(bytes@) is Some),
            r matches Ok(img) ==> img.contents@ == bytes@ && img.symbols@ == elf_symbol_table(
                bytes@,
            ).unwrap() && img.sections@ == elf_section_table(bytes@).unwrap()
                && img.segments@ == elf_program_table(bytes@).unwrap(),
            r matches Err(e) ==> e is MalformedBinary,
    {
        let symbols = match read_symbol_table(bytes.as_slice()) {
            Ok(t) => t,
            Err(reason) => return Err(ImageError::MalformedBinary(reason)),
        };
        let sections = match read_section_table(bytes.as_slice()) {
            Some(t) => t,
            None => return Err(ImageError::MalformedBinary(String::from_str("no section headers"))),
        };
        let segments = match read_program_table(bytes.as_slice()) {
            Some(t) => t,
            None => return Err(ImageError::MalformedBinary(String::from_str("no program headers"))),
        };
        Ok(BootImage::from_tables(bytes, symbols, sections, segments))
    }

    /// An image over the given bytes and tables, as `parse` reads them.
    pub fn from_tables(
        contents: Vec<u8>,
        symbols: Vec<ElfSymbol>,
        sections: Vec<ElfSection>,
        segments: Vec<ProgramHeader>,
    ) -> (r: BootImage)
        ensures
            r.contents@ == contents@,
            r.symbols@ == symbols@,
            r.sections@ == sections@,
            r.segments@ == segments@,
    {
        BootImage { contents, symbols, sections, segments }
    }

    /// Looks a symbol up by name; the first entry so named wins.
    pub fn symbol(&self, name: &str) -> (r: Option<Symbol>)
        ensures
            r == self.symbol_spec(name@),
    {
        let target = name.to_owned();
        let mut i: usize = 0;
        while i < self.symbols.len()
            invariant
                0 <= i <= self.symbols@.len(),
                target@ == name@,
                symbol_from(self.symbols@, name@, 0) == symbol_from(self.symbols@, name@, i as int),
            decreases self.symbols@.len() - i,
        {
            let s = &self.symbols[i];
            let hit = match &s.name {
                Some(n) => *n == target,
                None => false,
            };
            if hit {
                return Some(Symbol { address: s.value, size: s.size });
            }
            i = i + 1;
        }
        None
    }

    /// The link-time value of the symbol named `name`, if there is one.
    pub fn symbol_value(&self, name: &str) -> (r: Option<u64>)
        ensures
            r == (match self.symbol_spec(name@) {
                Some(s) => Some(s.address),
                None => None,
            }),
    {
        match self.symbol(name) {
            Some(s) => Some(s.address),
            None => None,
        }
    }

    /// Looks a section header up by name; the first entry so named wins.
    pub fn section_header(&self, name: &str) -> (r: Option<SectionHeader>)
        ensures
            r == self.section_spec(name@),
    {
        let target = name.to_owned();
        let mut i: usize = 0;
        while i < self.sections.len()
            invariant
                0 <= i <= self.sections@.len(),
                target@ == name@,
                section_from(self.sections@, name@, 0) == section_from(self.sections@, name@, i as int),
            decreases self.sections@.len() - i,
        {
            let s = &self.sections[i];
            let hit = match &s.name {
                Some(n) => *n == target,
                None => false,
            };
            if hit {
                return Some(
                    SectionHeader { address: s.address, size: s.size, offset: s.offset, flags: s.flags },
                );
            }
            i = i + 1;
        }
        None
    }
}

} // verus!
