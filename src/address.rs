use vstd::prelude::*;
use crate::elf::{BootImage, ProgramHeader, SectionHeader, PT_LOAD};
use crate::error::ImageError;

verus! {

/// Whether a loadable segment holds the section: the section's file range
/// lies inside the segment's file range, and its address range inside the
/// segment's memory range.
pub open spec fn segment_contains(ph: ProgramHeader, sh: SectionHeader) -> bool {
    &&& ph.kind == PT_LOAD
    &&& sh.offset >= ph.offset
    &&& (sh.offset - ph.offset) + sh.size <= ph.file_size
    &&& sh.address >= ph.vaddr
    &&& (sh.address - ph.vaddr) + sh.size <= ph.mem_size
}

/// `vma + paddr - vaddr` for a section inside the segment, taken modulo 2^64.
pub open spec fn translated(ph: ProgramHeader, sh: SectionHeader) -> u64 {
    let sum = (sh.address - ph.vaddr) + ph.paddr;
    if sum <= u64::MAX {
        sum as u64
    } else {
        (sum - 0x1_0000_0000_0000_0000) as u64
    }
}

/// The load address of the section, found by the segments from index `k` on:
/// the first containing segment translates it, and with none it is the VMA.
pub open spec fn load_from(segs: Seq<ProgramHeader>, sh: SectionHeader, k: int) -> u64
    decreases segs.len() - k,
{
    if k < 0 || k >= segs.len() {
        sh.address
    } else if segment_contains(segs[k], sh) {
        translated(segs[k], sh)
    } else {
        load_from(segs, sh, k + 1)
    }
}

/// The load address of a section of the image.
pub open spec fn load_address_spec(img: &BootImage, sh: SectionHeader) -> u64 {
    load_from(img.segments@, sh, 0)
}

/// A section that no loadable segment contains loads where it runs.
pub proof fn lemma_uncontained_loads_at_vma(img: &BootImage, sh: SectionHeader)
    requires
        forall|k: int| 0 <= k < img.segments@.len() ==> !segment_contains(img.segments@[k], sh),
    ensures
        load_address_spec(img, sh) == sh.address,
{
    lemma_load_from_uncontained(img.segments@, sh, 0);
}

proof fn lemma_load_from_uncontained(segs: Seq<ProgramHeader>, sh: SectionHeader, k: int)
    requires
        0 <= k <= segs.len(),
        forall|j: int| k <= j < segs.len() ==> !segment_contains(segs[j], sh),
    ensures
        load_from(segs, sh, k) == sh.address,
    decreases segs.len() - k,
{
    if k < segs.len() {
        lemma_load_from_uncontained(segs, sh, k + 1);
    }
}

fn contains(ph: &ProgramHeader, sh: &SectionHeader) -> (r: bool)
    ensures
        r == segment_contains(*ph, *sh),
{
    ph.kind == PT_LOAD && sh.offset >= ph.offset && sh.offset - ph.offset <= ph.file_size
        && sh.size <= ph.file_size - (sh.offset - ph.offset) && sh.address >= ph.vaddr
        && sh.address - ph.vaddr <= ph.mem_size && sh.size <= ph.mem_size - (sh.address
        - ph.vaddr)
}

impl BootImage {
    /// The load address of a section: translated by the first loadable
    /// segment that contains it, or its VMA where none does.
    pub fn load_address(&self, sh: &SectionHeader) -> (r: u64)
        ensures
            r == load_address_spec(self, *sh),
    {
        let mut i: usize = 0;
        while i < self.segments.len()
            invariant
                0 <= i <= self.segments@.len(),
                load_from(self.segments@, *sh, 0) == load_from(self.segments@, *sh, i as int),
            decreases self.segments@.len() - i,
        {
            let ph = &self.segments[i];
            if contains(ph, sh) {
                let off = sh.address - ph.vaddr;
                if off <= u64::MAX - ph.paddr {
                    return off + ph.paddr;
                } else {
                    return off - (u64::MAX - ph.paddr) - 1;
                }
            }
            i = i + 1;
        }
        sh.address
    }

    /// The load address of the section named `name`.
    pub fn section_lma(&self, name: &str) -> (r: Result<u64, ImageError>)
        ensures
            r is Ok <==> self.section_spec(name@) is Some,
            r matches Ok(a) ==> a == load_address_spec(self, self.section_spec(name@).unwrap()),
            r matches Err(e) ==> e.missing_section(name@),
    {
        match self.section_header(name) {
            Some(sh) => Ok(self.load_address(&sh)),
            None => Err(ImageError::MissingSection(name.to_owned())),
        }
    }
}

} // verus!
