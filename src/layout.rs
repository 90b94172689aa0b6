use vstd::prelude::*;
use crate::address::load_address_spec;
use crate::boot::{ivt_symbol, Ivt};
use crate::elf::{BootImage, SectionHeader};
use crate::error::ImageError;

verus! {

/// `value` rounded up to the next multiple of `alignment`.
pub open spec fn round_up(value: int, alignment: int) -> int {
    if value % alignment == 0 {
        value
    } else {
        value + (alignment - value % alignment)
    }
}

/// Rounds `value` up to a multiple of `alignment`; `None` where that does not
/// fit in 64 bits.
pub fn aligned(value: u64, alignment: u64) -> (r: Option<u64>)
    requires
        alignment > 0,
    ensures
        round_up(value as int, alignment as int) <= u64::MAX ==> r == Some(
            round_up(value as int, alignment as int) as u64,
        ),
        round_up(value as int, alignment as int) > u64::MAX ==> r is None,
{
    let rem = value % alignment;
    if rem == 0 {
        Some(value)
    } else if value <= u64::MAX - (alignment - rem) {
        Some(value + (alignment - rem))
    } else {
        None
    }
}

/// Sections laid out one after another in one memory region: the first
/// starts at `base`, each next one at the end of the one before, rounded up
/// to 4 bytes.
#[derive(Debug, PartialEq, Eq)]
pub struct Chain {
    pub base: u64,
    pub sections: Vec<String>,
}

/// What a board's image must look like.
#[derive(Debug, PartialEq, Eq)]
pub struct Profile {
    /// Size of `.stack`.
    pub stack_size: u64,
    /// Size of `.heap`.
    pub heap_size: u64,
    /// Run-time (VMA) chains, one for each memory region.
    pub chains: Vec<Chain>,
    /// Load address of the first section of `load_chain`.
    pub load_base: u64,
    /// Sections resident in flash, in load order: each loads no lower than
    /// the end of the one before, rounded up to 4 bytes.
    pub load_chain: Vec<String>,
    /// Sections without file content, which must load where they run.
    pub no_load: Vec<String>,
    /// Whether the image boots by itself, and so carries an IVT.
    pub boot: bool,
}

/// Stack size of a build that does not override it: 8 KiB.
pub const DEFAULT_STACK_SIZE: u64 = 8192;

/// Heap size of a build that does not override it: 1 KiB.
pub const DEFAULT_HEAP_SIZE: u64 = 1024;

/// Base of DTCM, the data tightly-coupled memory.
pub const DTCM: u64 = 0x2000_0000;

/// Base of ITCM, the instruction tightly-coupled memory.
pub const ITCM: u64 = 0x0000_0000;

/// Where the Teensy 4's flash image places the vector table.
pub const TEENSY4_VECTOR_TABLE_LOAD: u64 = 0x6000_2000;

/// The names as owned strings, in order.
pub fn names(list: &[&str]) -> (r: Vec<String>)
    ensures
        r@.len() == list@.len(),
        forall|i: int| 0 <= i < list@.len() ==> (#[trigger] r@[i])@ == list@[i]@,
{
    let mut r: Vec<String> = Vec::new();
    let mut i: usize = 0;
    while i < list.len()
        invariant
            0 <= i <= list@.len(),
            r@.len() == i,
            forall|k: int| 0 <= k < i ==> (#[trigger] r@[k])@ == list@[k]@,
        decreases list@.len() - i,
    {
        r.push(list[i].to_owned());
        i = i + 1;
    }
    r
}

/// The flash-resident sections in load order: vector table, trampoline,
/// code, read-only data, then the initial values of data.
pub open spec fn standard_load_chain(v: Seq<String>) -> bool {
    &&& v.len() == 5
    &&& v[0]@ == ".vector_table"@
    &&& v[1]@ == ".xip"@
    &&& v[2]@ == ".text"@
    &&& v[3]@ == ".rodata"@
    &&& v[4]@ == ".data"@
}

/// The sections without file content: stack, zeroed and uninitialized data,
/// heap.
pub open spec fn standard_no_load(v: Seq<String>) -> bool {
    &&& v.len() == 4
    &&& v[0]@ == ".stack"@
    &&& v[1]@ == ".bss"@
    &&& v[2]@ == ".uninit"@
    &&& v[3]@ == ".heap"@
}

/// Base of the i.MX RT1010's OCRAM.
pub const IMXRT1010_OCRAM: u64 = 0x2020_0000;

/// Base of the i.MX RT1170's OCRAM.
pub const IMXRT1170_OCRAM: u64 = 0x2024_0000;

/// Where the i.MX RT1010 EVK's flash image places the vector table.
pub const IMXRT1010_VECTOR_TABLE_LOAD: u64 = 0x6000_2000;

/// Where the i.MX RT1170 EVK's boot image places the vector table.
pub const IMXRT1170_VECTOR_TABLE_LOAD: u64 = 0x3000_2000;

/// Where the i.MX RT1170 EVK's non-boot image places the vector table: 16 KiB
/// into flash.
pub const IMXRT1170_NONBOOT_VECTOR_TABLE_LOAD: u64 = 0x3000_4000;

fn standard_profile(
    stack_size: u64,
    heap_size: u64,
    chains: Vec<Chain>,
    load_base: u64,
    boot: bool,
) -> (r: Profile)
    ensures
        r.stack_size == stack_size,
        r.heap_size == heap_size,
        r.chains@ == chains@,
        r.load_base == load_base,
        r.boot == boot,
        standard_load_chain(r.load_chain@),
        standard_no_load(r.no_load@),
{
    Profile {
        stack_size,
        heap_size,
        chains,
        load_base,
        load_chain: names(&[".vector_table", ".xip", ".text", ".rodata", ".data"]),
        no_load: names(&[".stack", ".bss", ".uninit", ".heap"]),
        boot,
    }
}

impl Profile {
    /// The Teensy 4 layout: stack, vector table, read-only data, data, zeroed
    /// and uninitialized data and heap one after another in DTCM; the
    /// standard flash order from `0x6000_2000`; the IVT present.
    pub fn teensy4(stack_size: u64, heap_size: u64) -> (r: Profile)
        ensures
            r.stack_size == stack_size,
            r.heap_size == heap_size,
            r.boot,
            r.load_base == TEENSY4_VECTOR_TABLE_LOAD,
            r.chains@.len() == 1,
            r.chains@[0].base == DTCM,
            r.chains@[0].sections@.len() == 7,
            r.chains@[0].sections@[0]@ == ".stack"@,
            r.chains@[0].sections@[1]@ == ".vector_table"@,
            r.chains@[0].sections@[2]@ == ".rodata"@,
            r.chains@[0].sections@[3]@ == ".data"@,
            r.chains@[0].sections@[4]@ == ".bss"@,
            r.chains@[0].sections@[5]@ == ".uninit"@,
            r.chains@[0].sections@[6]@ == ".heap"@,
            standard_load_chain(r.load_chain@),
            standard_no_load(r.no_load@),
    {
        let dtcm = names(
            &[".stack", ".vector_table", ".rodata", ".data", ".bss", ".uninit", ".heap"],
        );
        let mut chains: Vec<Chain> = Vec::new();
        chains.push(Chain { base: DTCM, sections: dtcm });
        standard_profile(stack_size, heap_size, chains, TEENSY4_VECTOR_TABLE_LOAD, true)
    }

    /// The i.MX RT1010 EVK layout: stack, vector table and heap in DTCM; data,
    /// zeroed and uninitialized data in OCRAM; code in ITCM; the standard
    /// flash order from `0x6000_2000`; the IVT present.
    pub fn imxrt1010evk(stack_size: u64, heap_size: u64) -> (r: Profile)
        ensures
            r.stack_size == stack_size,
            r.heap_size == heap_size,
            r.boot,
            r.load_base == IMXRT1010_VECTOR_TABLE_LOAD,
            r.chains@.len() == 3,
            r.chains@[0].base == DTCM,
            r.chains@[0].sections@.len() == 3,
            r.chains@[0].sections@[0]@ == ".stack"@,
            r.chains@[0].sections@[1]@ == ".vector_table"@,
            r.chains@[0].sections@[2]@ == ".heap"@,
            r.chains@[1].base == IMXRT1010_OCRAM,
            r.chains@[1].sections@.len() == 3,
            r.chains@[1].sections@[0]@ == ".data"@,
            r.chains@[1].sections@[1]@ == ".bss"@,
            r.chains@[1].sections@[2]@ == ".uninit"@,
            r.chains@[2].base == ITCM,
            r.chains@[2].sections@.len() == 1,
            r.chains@[2].sections@[0]@ == ".text"@,
            standard_load_chain(r.load_chain@),
            standard_no_load(r.no_load@),
    {
        let mut chains: Vec<Chain> = Vec::new();
        chains.push(Chain { base: DTCM, sections: names(&[".stack", ".vector_table", ".heap"]) });
        chains.push(
            Chain { base: IMXRT1010_OCRAM, sections: names(&[".data", ".bss", ".uninit"]) },
        );
        chains.push(Chain { base: ITCM, sections: names(&[".text"]) });
        standard_profile(stack_size, heap_size, chains, IMXRT1010_VECTOR_TABLE_LOAD, true)
    }

    /// The i.MX RT1170 EVK (Cortex-M7) layout: stack, vector table, read-only
    /// data and heap in DTCM; data, zeroed and uninitialized data in OCRAM;
    /// code in ITCM. A boot image loads from `0x3000_2000` and holds the IVT;
    /// a non-boot image loads from `0x3000_4000` and holds none.
    pub fn imxrt1170evk_cm7(stack_size: u64, heap_size: u64, boot: bool) -> (r: Profile)
        ensures
            r.stack_size == stack_size,
            r.heap_size == heap_size,
            r.boot == boot,
            r.load_base == (if boot {
                IMXRT1170_VECTOR_TABLE_LOAD
            } else {
                IMXRT1170_NONBOOT_VECTOR_TABLE_LOAD
            }),
            r.chains@.len() == 3,
            r.chains@[0].base == DTCM,
            r.chains@[0].sections@.len() == 4,
            r.chains@[0].sections@[0]@ == ".stack"@,
            r.chains@[0].sections@[1]@ == ".vector_table"@,
            r.chains@[0].sections@[2]@ == ".rodata"@,
            r.chains@[0].sections@[3]@ == ".heap"@,
            r.chains@[1].base == IMXRT1170_OCRAM,
            r.chains@[1].sections@.len() == 3,
            r.chains@[1].sections@[0]@ == ".data"@,
            r.chains@[1].sections@[1]@ == ".bss"@,
            r.chains@[1].sections@[2]@ == ".uninit"@,
            r.chains@[2].base == ITCM,
            r.chains@[2].sections@.len() == 1,
            r.chains@[2].sections@[0]@ == ".text"@,
            standard_load_chain(r.load_chain@),
            standard_no_load(r.no_load@),
    {
        let mut chains: Vec<Chain> = Vec::new();
        chains.push(
            Chain { base: DTCM, sections: names(&[".stack", ".vector_table", ".rodata", ".heap"]) },
        );
        chains.push(
            Chain { base: IMXRT1170_OCRAM, sections: names(&[".data", ".bss", ".uninit"]) },
        );
        chains.push(Chain { base: ITCM, sections: names(&[".text"]) });
        let load_base = if boot {
            IMXRT1170_VECTOR_TABLE_LOAD
        } else {
            IMXRT1170_NONBOOT_VECTOR_TABLE_LOAD
        };
        standard_profile(stack_size, heap_size, chains, load_base, boot)
    }
}

/// Where the section after `prev` in a chain starts.
pub open spec fn next_start(prev: SectionHeader) -> int {
    round_up(prev.address + prev.size, 4)
}

/// The section named by a name of the profile.
pub open spec fn sec(img: &BootImage, name: String) -> Option<SectionHeader> {
    img.section_spec(name@)
}

/// The load address of a section named by the profile.
pub open spec fn lma(img: &BootImage, name: String) -> int {
    load_address_spec(img, sec(img, name).unwrap()) as int
}

/// The first `n` sections of a chain are present and placed as it says.
pub open spec fn chain_prefix_holds(img: &BootImage, chain: &Chain, n: int) -> bool {
    let names = chain.sections@;
    &&& forall|j: int| 0 <= j < n ==> (#[trigger] sec(img, names[j])) is Some
    &&& n > 0 ==> sec(img, names[0]).unwrap().address == chain.base
    &&& forall|j: int| 1 <= j < n ==> #[trigger] chain_link_holds(img, names, j)
}

/// Section `j` of a chain starts at the end of section `j - 1`, rounded up
/// to 4 bytes.
pub open spec fn chain_link_holds(img: &BootImage, names: Seq<String>, j: int) -> bool {
    sec(img, names[j]).unwrap().address == next_start(sec(img, names[j - 1]).unwrap())
}

/// Every section of a chain is present and placed as the chain says.
pub open spec fn chain_holds(img: &BootImage, chain: &Chain) -> bool {
    chain_prefix_holds(img, chain, chain.sections@.len() as int)
}

/// The first `n` sections of the load chain are present and load in order,
/// the first at `base`.
pub open spec fn load_prefix_holds(img: &BootImage, names: Seq<String>, base: u64, n: int) -> bool {
    &&& forall|j: int| 0 <= j < n ==> (#[trigger] sec(img, names[j])) is Some
    &&& n > 0 ==> lma(img, names[0]) == base
    &&& forall|j: int| 1 <= j < n ==> #[trigger] load_link_holds(img, names, j)
}

/// Section `j` of the load chain loads no lower than the end of section
/// `j - 1`, rounded up to 4 bytes.
pub open spec fn load_link_holds(img: &BootImage, names: Seq<String>, j: int) -> bool {
    lma(img, names[j]) >= round_up(lma(img, names[j - 1]) + sec(img, names[j - 1]).unwrap().size, 4)
}

/// The first `n` no-load sections are present and load where they run.
pub open spec fn no_load_prefix_holds(img: &BootImage, names: Seq<String>, n: int) -> bool {
    forall|j: int|
        0 <= j < n ==> (#[trigger] sec(img, names[j])) is Some && lma(img, names[j]) == sec(
            img,
            names[j],
        ).unwrap().address
}

/// Name of the stack section.
pub open spec fn stack_section() -> Seq<char> {
    ".stack"@
}

/// Name of the ARM vector table section.
pub open spec fn vector_table_section() -> Seq<char> {
    ".vector_table"@
}

/// Name of the heap section.
pub open spec fn heap_section() -> Seq<char> {
    ".heap"@
}

/// Name of the device configuration data block symbol.
pub open spec fn dcd_block_symbol() -> Seq<char> {
    "DEVICE_CONFIGURATION_DATA"@
}

/// Name of the symbol that marks the start of the linked DCD.
pub open spec fn dcd_start_symbol() -> Seq<char> {
    "__dcd_start"@
}

/// The stack has the profile's size, and the vector table starts right
/// behind it, on a 1024-byte boundary.
pub open spec fn stack_and_vectors_hold(img: &BootImage, p: &Profile) -> bool {
    match (img.section_spec(stack_section()), img.section_spec(vector_table_section())) {
        (Some(st), Some(vt)) => {
            &&& st.size == p.stack_size
            &&& vt.address == st.address + st.size
            &&& vt.address % 1024 == 0
        },
        _ => false,
    }
}

/// The heap has the profile's size.
pub open spec fn heap_holds(img: &BootImage, p: &Profile) -> bool {
    img.section_spec(heap_section()) matches Some(h) && h.size == p.heap_size
}

/// The IVT's DCD pointer is 0 where no DCD block is linked; otherwise the
/// block is a whole number of 32-bit words and the pointer is `__dcd_start`.
pub open spec fn dcd_holds(img: &BootImage, ivt: Ivt) -> bool {
    match img.symbol_spec(dcd_block_symbol()) {
        None => ivt.device_configuration_data == 0,
        Some(block) => {
            &&& block.size % 4 == 0
            &&& img.symbol_spec(dcd_start_symbol()) is Some
            &&& ivt.device_configuration_data as int == img.symbol_spec(
                dcd_start_symbol(),
            ).unwrap().address as int
        },
    }
}

/// A booting image has an IVT whose boot data pointer is `__ivt + 32` and
/// whose DCD pointer matches the linked DCD.
pub open spec fn boot_holds(img: &BootImage, p: &Profile) -> bool {
    p.boot ==> match img.ivt_spec() {
        Some(ivt) => {
            &&& ivt.boot_data as int == img.symbol_spec(ivt_symbol()).unwrap().address + 32
            &&& dcd_holds(img, ivt)
        },
        None => false,
    }
}

/// Every chain of the profile holds.
pub open spec fn chains_hold(img: &BootImage, p: &Profile, n: int) -> bool {
    forall|c: int| 0 <= c < n ==> chain_holds(img, &#[trigger] p.chains@[c])
}

/// The image is laid out as the profile says.
pub open spec fn layout_holds(img: &BootImage, p: &Profile) -> bool {
    &&& stack_and_vectors_hold(img, p)
    &&& heap_holds(img, p)
    &&& chains_hold(img, p, p.chains@.len() as int)
    &&& load_prefix_holds(img, p.load_chain@, p.load_base, p.load_chain@.len() as int)
    &&& no_load_prefix_holds(img, p.no_load@, p.no_load@.len() as int)
    &&& boot_holds(img, p)
}

fn violation(section: &String, expected: u64, actual: u64) -> (r: ImageError)
    ensures
        r == (ImageError::LayoutViolation { section: *section, expected, actual }),
{
    ImageError::LayoutViolation { section: section.clone(), expected, actual }
}

/// The end of `prev` rounded up to 4 bytes, where that fits in 64 bits.
fn next_start_of(prev: &SectionHeader) -> (r: Option<u64>)
    ensures
        next_start(*prev) <= u64::MAX ==> r == Some(next_start(*prev) as u64),
        next_start(*prev) > u64::MAX ==> r is None,
{
    match prev.address.checked_add(prev.size) {
        Some(end) => aligned(end, 4),
        None => None,
    }
}

/// The load address `size` bytes after `at`, rounded up to 4 bytes, where
/// that fits in 64 bits.
fn next_load_of(at: u64, size: u64) -> (r: Option<u64>)
    ensures
        round_up(at + size, 4) <= u64::MAX ==> r == Some(round_up(at + size, 4) as u64),
        round_up(at + size, 4) > u64::MAX ==> r is None,
{
    match at.checked_add(size) {
        Some(end) => aligned(end, 4),
        None => None,
    }
}

impl BootImage {
    /// Checks one run-time chain, adding a finding to `out` for each section
    /// that is missing or misplaced; adds none exactly when the chain holds.
    pub fn check_chain(&self, chain: &Chain, out: &mut Vec<ImageError>)
        ensures
            final(out)@.len() >= old(out)@.len(),
            (final(out)@.len() == old(out)@.len()) <==> chain_holds(self, chain),
    {
        let ghost start = old(out)@.len();
        let names = &chain.sections;
        let mut prev: Option<SectionHeader> = None;
        let mut j: usize = 0;
        while j < names.len()
            invariant
                0 <= j <= names@.len(),
                out@.len() >= start,
                (out@.len() == start) <==> chain_prefix_holds(self, chain, j as int),
                j > 0 ==> prev == sec(self, names@[j - 1]),
                names == chain.sections,
            decreases names@.len() - j,
        {
            let name = &names[j];
            let cur = self.section_header(name.as_str());
            match cur {
                None => out.push(ImageError::MissingSection(name.clone())),
                Some(sh) => {
                    if j == 0 {
                        if sh.address != chain.base {
                            out.push(violation(name, chain.base, sh.address));
                        }
                    } else {
                        match prev {
                            None => {},
                            Some(p) => match next_start_of(&p) {
                                Some(e) => {
                                    if sh.address != e {
                                        out.push(violation(name, e, sh.address));
                                    }
                                },
                                None => out.push(violation(name, u64::MAX, sh.address)),
                            },
                        }
                    }
                },
            }
            proof {
                let jj = j as int;
                assert(sec(self, names@[jj]) == cur);
                if chain_prefix_holds(self, chain, jj + 1) {
                    assert(sec(self, names@[jj]) is Some);
                    if jj > 0 {
                        assert(chain_link_holds(self, names@, jj));
                    }
                    assert forall|k: int| 0 <= k < jj implies (#[trigger] sec(
                        self,
                        names@[k],
                    )) is Some by {}
                    assert forall|k: int| 1 <= k < jj implies #[trigger] chain_link_holds(
                        self,
                        names@,
                        k,
                    ) by {}
                    assert(chain_prefix_holds(self, chain, jj));
                }
                if out@.len() == start {
                    assert(chain_prefix_holds(self, chain, jj));
                    assert forall|k: int| 0 <= k < jj + 1 implies (#[trigger] sec(
                        self,
                        names@[k],
                    )) is Some by {}
                    assert forall|k: int| 1 <= k < jj + 1 implies #[trigger] chain_link_holds(
                        self,
                        names@,
                        k,
                    ) by {}
                }
            }
            prev = cur;
            j = j + 1;
        }
    }

    /// Checks that the flash-resident sections load in order from
    /// `base`; adds no finding exactly when they do.
    pub fn check_load_chain(&self, names: &Vec<String>, base: u64, out: &mut Vec<ImageError>)
        ensures
            final(out)@.len() >= old(out)@.len(),
            (final(out)@.len() == old(out)@.len()) <==> load_prefix_holds(
                self,
                names@,
                base,
                names@.len() as int,
            ),
    {
        let ghost start = old(out)@.len();
        let mut prev: Option<(SectionHeader, u64)> = None;
        let mut j: usize = 0;
        while j < names.len()
            invariant
                0 <= j <= names@.len(),
                out@.len() >= start,
                (out@.len() == start) <==> load_prefix_holds(self, names@, base, j as int),
                j > 0 ==> (prev is Some <==> sec(self, names@[j - 1]) is Some),
                j > 0 ==> (prev matches Some(p) ==> p.0 == sec(self, names@[j - 1]).unwrap()
                    && p.1 == lma(self, names@[j - 1])),
            decreases names@.len() - j,
        {
            let name = &names[j];
            let cur = self.section_header(name.as_str());
            let mut next: Option<(SectionHeader, u64)> = None;
            match cur {
                None => out.push(ImageError::MissingSection(name.clone())),
                Some(sh) => {
                    let at = self.load_address(&sh);
                    next = Some((sh, at));
                    if j == 0 {
                        if at != base {
                            out.push(violation(name, base, at));
                        }
                    } else {
                        match prev {
                            None => {},
                            Some(p) => {
                                match next_load_of(p.1, p.0.size) {
                                    Some(e) => {
                                        if at < e {
                                            out.push(violation(name, e, at));
                                        }
                                    },
                                    None => out.push(violation(name, u64::MAX, at)),
                                }
                            },
                        }
                    }
                },
            }
            proof {
                let jj = j as int;
                assert(sec(self, names@[jj]) == cur);
                if load_prefix_holds(self, names@, base, jj + 1) {
                    assert(sec(self, names@[jj]) is Some);
                    if jj > 0 {
                        assert(load_link_holds(self, names@, jj));
                    }
                    assert forall|k: int| 0 <= k < jj implies (#[trigger] sec(
                        self,
                        names@[k],
                    )) is Some by {}
                    assert forall|k: int| 1 <= k < jj implies #[trigger] load_link_holds(
                        self,
                        names@,
                        k,
                    ) by {}
                    assert(load_prefix_holds(self, names@, base, jj));
                }
                if out@.len() == start {
                    assert(load_prefix_holds(self, names@, base, jj));
                    assert forall|k: int| 0 <= k < jj + 1 implies (#[trigger] sec(
                        self,
                        names@[k],
                    )) is Some by {}
                    assert forall|k: int| 1 <= k < jj + 1 implies #[trigger] load_link_holds(
                        self,
                        names@,
                        k,
                    ) by {}
                }
            }
            prev = next;
            j = j + 1;
        }
    }

    /// Checks that each no-load section loads where it runs; adds no
    /// finding exactly when they all do.
    pub fn check_no_load(&self, names: &Vec<String>, out: &mut Vec<ImageError>)
        ensures
            final(out)@.len() >= old(out)@.len(),
            (final(out)@.len() == old(out)@.len()) <==> no_load_prefix_holds(
                self,
                names@,
                names@.len() as int,
            ),
    {
        let ghost start = old(out)@.len();
        let mut j: usize = 0;
        while j < names.len()
            invariant
                0 <= j <= names@.len(),
                out@.len() >= start,
                (out@.len() == start) <==> no_load_prefix_holds(self, names@, j as int),
            decreases names@.len() - j,
        {
            let name = &names[j];
            let cur = self.section_header(name.as_str());
            match cur {
                None => out.push(ImageError::MissingSection(name.clone())),
                Some(sh) => {
                    let at = self.load_address(&sh);
                    if at != sh.address {
                        out.push(violation(name, sh.address, at));
                    }
                },
            }
            proof {
                assert(sec(self, names@[j as int]) == cur);
                if out@.len() == start {
                    assert forall|k: int| 0 <= k < j + 1 implies (#[trigger] sec(
                        self,
                        names@[k],
                    )) is Some && lma(self, names@[k]) == sec(self, names@[k]).unwrap().address by {
                        if k < j {
                            assert(no_load_prefix_holds(self, names@, j as int));
                        }
                    }
                }
            }
            j = j + 1;
        }
    }

    /// Checks the stack's size and the vector table's placement.
    pub fn check_stack_and_vectors(&self, p: &Profile, out: &mut Vec<ImageError>)
        ensures
            final(out)@.len() >= old(out)@.len(),
            (final(out)@.len() == old(out)@.len()) <==> stack_and_vectors_hold(self, p),
    {
        let stack_name = ".stack".to_owned();
        let vt_name = ".vector_table".to_owned();
        let stack = self.section_header(".stack");
        let vt = self.section_header(".vector_table");
        match stack {
            None => out.push(ImageError::MissingSection(stack_name.clone())),
            Some(st) => {
                if st.size != p.stack_size {
                    out.push(violation(&stack_name, p.stack_size, st.size));
                }
            },
        }
        match vt {
            None => out.push(ImageError::MissingSection(vt_name.clone())),
            Some(v) => {
                if v.address % 1024 != 0 {
                    out.push(violation(&vt_name, v.address - v.address % 1024, v.address));
                }
                match stack {
                    None => {},
                    Some(st) => {
                        if st.address > u64::MAX - st.size {
                            out.push(violation(&vt_name, u64::MAX, v.address));
                        } else if v.address != st.address + st.size {
                            out.push(violation(&vt_name, st.address + st.size, v.address));
                        }
                    },
                }
            },
        }
    }

    /// Checks the heap's size.
    pub fn check_heap(&self, p: &Profile, out: &mut Vec<ImageError>)
        ensures
            final(out)@.len() >= old(out)@.len(),
            (final(out)@.len() == old(out)@.len()) <==> heap_holds(self, p),
    {
        let name = ".heap".to_owned();
        match self.section_header(".heap") {
            None => out.push(ImageError::MissingSection(name)),
            Some(h) => {
                if h.size != p.heap_size {
                    out.push(violation(&name, p.heap_size, h.size));
                }
            },
        }
    }

    /// Checks the IVT's DCD pointer against the linked DCD, if any.
    pub fn check_dcd(&self, ivt: &Ivt, out: &mut Vec<ImageError>)
        ensures
            final(out)@.len() >= old(out)@.len(),
            (final(out)@.len() == old(out)@.len()) <==> dcd_holds(self, *ivt),
    {
        let name = "DEVICE_CONFIGURATION_DATA".to_owned();
        let dcd = ivt.device_configuration_data as u64;
        match self.symbol("DEVICE_CONFIGURATION_DATA") {
            None => {
                if dcd != 0 {
                    out.push(violation(&name, 0, dcd));
                }
            },
            Some(block) => {
                if block.size % 4 != 0 {
                    out.push(violation(&name, block.size - block.size % 4, block.size));
                }
                match self.symbol_value("__dcd_start") {
                    None => out.push(ImageError::MissingSymbol("__dcd_start".to_owned())),
                    Some(start) => {
                        if dcd != start {
                            out.push(violation(&name, start, dcd));
                        }
                    },
                }
            },
        }
    }

    /// Checks the boot pointers of the IVT, where the profile boots.
    pub fn check_boot(&self, p: &Profile, out: &mut Vec<ImageError>)
        ensures
            final(out)@.len() >= old(out)@.len(),
            (final(out)@.len() == old(out)@.len()) <==> boot_holds(self, p),
    {
        if !p.boot {
            return;
        }
        match self.ivt() {
            Err(e) => out.push(e),
            Ok(ivt) => {
                let name = "__ivt".to_owned();
                let boot_data = ivt.boot_data as u64;
                match self.symbol_value("__ivt") {
                    None => out.push(ImageError::MissingSymbol(name)),
                    Some(at) => {
                        if at > u64::MAX - 32 {
                            out.push(violation(&name, u64::MAX, boot_data));
                        } else if boot_data != at + 32 {
                            out.push(violation(&name, at + 32, boot_data));
                        }
                    },
                }
                self.check_dcd(&ivt, out);
            },
        }
    }

    /// Checks every run-time chain of the profile.
    pub fn check_chains(&self, p: &Profile, out: &mut Vec<ImageError>)
        ensures
            final(out)@.len() >= old(out)@.len(),
            (final(out)@.len() == old(out)@.len()) <==> chains_hold(
                self,
                p,
                p.chains@.len() as int,
            ),
    {
        let ghost start = old(out)@.len();
        let mut c: usize = 0;
        while c < p.chains.len()
            invariant
                0 <= c <= p.chains@.len(),
                out@.len() >= start,
                (out@.len() == start) <==> chains_hold(self, p, c as int),
            decreases p.chains@.len() - c,
        {
            self.check_chain(&p.chains[c], out);
            proof {
                if chains_hold(self, p, c + 1) {
                    assert(chain_holds(self, &p.chains@[c as int]));
                }
            }
            c = c + 1;
        }
    }

    /// Checks the image against the profile: `Ok` exactly when the layout
    /// holds, and otherwise every finding, missing items included.
    pub fn check(&self, p: &Profile) -> (r: Result<(), Vec<ImageError>>)
        ensures
            r is Ok <==> layout_holds(self, p),
            r matches Err(v) ==> v@.len() > 0,
    {
        let mut out: Vec<ImageError> = Vec::new();
        self.check_stack_and_vectors(p, &mut out);
        self.check_heap(p, &mut out);
        self.check_chains(p, &mut out);
        self.check_load_chain(&p.load_chain, p.load_base, &mut out);
        self.check_no_load(&p.no_load, &mut out);
        self.check_boot(p, &mut out);
        if out.len() == 0 {
            Ok(())
        } else {
            Err(out)
        }
    }
}

/// In an image that passes the check, each section of a chain after the
/// first starts at the end of the one before, rounded up to 4 bytes, and the
/// vector table starts on a 1024-byte boundary.
pub proof fn lemma_chain_links(img: &BootImage, p: &Profile, c: int, j: int)
    requires
        layout_holds(img, p),
        0 <= c < p.chains@.len(),
        1 <= j < p.chains@[c].sections@.len(),
    ensures
        sec(img, p.chains@[c].sections@[j]) is Some,
        sec(img, p.chains@[c].sections@[j - 1]) is Some,
        sec(img, p.chains@[c].sections@[j]).unwrap().address == round_up(
            sec(img, p.chains@[c].sections@[j - 1]).unwrap().address + sec(
                img,
                p.chains@[c].sections@[j - 1],
            ).unwrap().size,
            4,
        ),
        img.section_spec(vector_table_section()) is Some,
        img.section_spec(vector_table_section()).unwrap().address % 1024 == 0,
{
    let chain = &p.chains@[c];
    assert(chain_holds(img, chain));
    assert(chain_link_holds(img, chain.sections@, j));
    assert(sec(img, chain.sections@[j - 1]) is Some);
    assert(sec(img, chain.sections@[j]) is Some);
}

/// In a booting image that passes the check, the IVT's boot data pointer is
/// the address of `__ivt` plus 32.
pub proof fn lemma_boot_data_pointer(img: &BootImage, p: &Profile)
    requires
        layout_holds(img, p),
        p.boot,
    ensures
        img.ivt_spec() is Some,
        img.symbol_spec(ivt_symbol()) is Some,
        img.ivt_spec().unwrap().boot_data as int == img.symbol_spec(ivt_symbol()).unwrap().address
            + 32,
{
}

/// In a booting image that passes the check, the IVT's DCD pointer is 0 when
/// no DCD block is linked, and the address of `__dcd_start` when one is.
pub proof fn lemma_dcd_pointer(img: &BootImage, p: &Profile)
    requires
        layout_holds(img, p),
        p.boot,
    ensures
        img.ivt_spec() is Some,
        img.symbol_spec(dcd_block_symbol()) is None ==> img.ivt_spec().unwrap().device_configuration_data
            == 0,
        img.symbol_spec(dcd_block_symbol()) is Some ==> (img.symbol_spec(dcd_start_symbol()) is Some
            && img.ivt_spec().unwrap().device_configuration_data as int == img.symbol_spec(
            dcd_start_symbol(),
        ).unwrap().address as int),
{
}

/// A booting image that links a DCD block whose length is not a whole number
/// of 32-bit words never passes the check.
pub proof fn lemma_missized_dcd_rejected(img: &BootImage, p: &Profile)
    requires
        p.boot,
        img.symbol_spec(dcd_block_symbol()) is Some,
        img.symbol_spec(dcd_block_symbol()).unwrap().size % 4 != 0,
    ensures
        !layout_holds(img, p),
{
}

} // verus!
