use imxrt_image::boot::{Fcb, Ivt, Section};
use imxrt_image::elf::{BootImage, ElfSection, ElfSymbol, ProgramHeader, PT_LOAD};
use imxrt_image::error::ImageError;
use imxrt_image::layout::{Profile, DEFAULT_HEAP_SIZE, DEFAULT_STACK_SIZE, DTCM};

const IVT_AT: u64 = 0x6000_1000;
const IVT_FILE_OFFSET: usize = 0x2000;

fn sym(name: &str, value: u64, size: u64) -> ElfSymbol {
    ElfSymbol { name: Some(name.to_string()), value, size }
}

fn sec(name: &str, address: u64, size: u64, offset: u64) -> ElfSection {
    ElfSection { name: Some(name.to_string()), address, size, offset, flags: 0 }
}

fn load(offset: u64, size: u64, vaddr: u64, paddr: u64) -> ProgramHeader {
    ProgramHeader { kind: PT_LOAD, offset, file_size: size, vaddr, mem_size: size, paddr }
}

fn put_u32(bytes: &mut [u8], at: usize, v: u32) {
    bytes[at..at + 4].copy_from_slice(&v.to_le_bytes());
}

fn contents(dcd: u32, boot_data: u32) -> Vec<u8> {
    let mut bytes = vec![0u8; 0x3700];
    put_u32(&mut bytes, IVT_FILE_OFFSET, 0x402000D1);
    put_u32(&mut bytes, IVT_FILE_OFFSET + 4, 0x6000_2000);
    put_u32(&mut bytes, IVT_FILE_OFFSET + 8, 0xDEAD_BEEF);
    put_u32(&mut bytes, IVT_FILE_OFFSET + 12, dcd);
    put_u32(&mut bytes, IVT_FILE_OFFSET + 16, boot_data);
    bytes
}

fn symbols() -> Vec<ElfSymbol> {
    vec![
        ElfSymbol { name: None, value: 7, size: 0 },
        sym("__ivt", IVT_AT, 32),
        sym("FLEXSPI_CONFIGURATION_BLOCK", 0x6000_0000, 512),
        sym("__flexram_config", 0b11111111_101010101010101010101010, 0),
        sym("__dcd_start", 0x6000_1030, 0),
        sym("__dcd_end", 0x6000_1030, 0),
        sym("__dcd", 0, 0),
        sym("increment_data", 0x6000_2500, 16),
    ]
}

fn sections(stack: u64, heap: u64) -> Vec<ElfSection> {
    let vt = DTCM + stack;
    vec![
        ElfSection { name: None, address: 0, size: 0, offset: 0, flags: 0 },
        sec(".boot", 0x6000_0000, 0x2000, 0x1000),
        sec(".stack", DTCM, stack, 0x3700),
        sec(".vector_table", vt, 1024, 0x3000),
        sec(".xip", 0x6000_2400, 16, 0x3400),
        sec(".text", 0x6000_2410, 0x200, 0x3410),
        sec(".rodata", vt + 0x400, 100, 0x3610),
        sec(".data", vt + 0x464, 4, 0x3674),
        sec(".bss", vt + 0x468, 8, 0x3678),
        sec(".uninit", vt + 0x470, 0, 0x3678),
        sec(".heap", vt + 0x470, heap, 0x3678),
    ]
}

fn segments(stack: u64) -> Vec<ProgramHeader> {
    let vt = DTCM + stack;
    vec![
        ProgramHeader { kind: 6, offset: 0, file_size: 0x10000, vaddr: 0, mem_size: 0xFFFF_FFFF, paddr: 0 },
        load(0x1000, 0x2000, 0x6000_0000, 0x6000_0000),
        load(0x3000, 1024, vt, 0x6000_2000),
        load(0x3400, 0x210, 0x6000_2400, 0x6000_2400),
        load(0x3610, 100, vt + 0x400, 0x6000_2610),
        load(0x3674, 4, vt + 0x464, 0x6000_2674),
    ]
}

fn teensy4_image(stack: u64, heap: u64) -> BootImage {
    BootImage::from_tables(contents(0, (IVT_AT + 32) as u32), symbols(), sections(stack, heap), segments(stack))
}

fn layout_findings(img: &BootImage, p: &Profile) -> Vec<ImageError> {
    match img.check(p) {
        Ok(()) => Vec::new(),
        Err(v) => v,
    }
}

#[test]
fn reference_board_default_layout_passes() {
    let img = teensy4_image(DEFAULT_STACK_SIZE, DEFAULT_HEAP_SIZE);
    let p = Profile::teensy4(DEFAULT_STACK_SIZE, DEFAULT_HEAP_SIZE);
    assert!(img.check(&p).is_ok());
    assert_eq!(img.section(".stack").unwrap(), Section { address: DTCM, size: 8 * 1024 });
    assert_eq!(img.section(".heap").unwrap().size, 1024);
    assert_eq!(img.flexram_config().unwrap(), 0b11111111_101010101010101010101010);
    assert_eq!(img.fcb().unwrap(), Fcb { address: 0x6000_0000, size: 512 });
    assert_eq!(img.symbol_value("__dcd_start"), img.symbol_value("__dcd_end"));
    assert_eq!(img.symbol_value("__dcd"), Some(0));
    assert!(img.symbol("DEVICE_CONFIGURATION_DATA").is_none());
}

#[test]
fn ivt_words_skip_the_reserved_field() {
    let img = teensy4_image(DEFAULT_STACK_SIZE, DEFAULT_HEAP_SIZE);
    let ivt = img.ivt().unwrap();
    assert_eq!(
        ivt,
        Ivt {
            magic_header: 0x402000D1,
            interrupt_vector_table: 0x6000_2000,
            device_configuration_data: 0,
            boot_data: 0x6000_1020,
        }
    );
    assert_eq!(ivt.boot_data as u64, img.symbol_value("__ivt").unwrap() + 32);
}

#[test]
fn ivt_needs_its_symbol_and_section() {
    let mut syms = symbols();
    syms.remove(1);
    let img = BootImage::from_tables(contents(0, 0), syms, sections(8192, 1024), segments(8192));
    assert!(matches!(img.ivt(), Err(ImageError::MissingSymbol(n)) if n == "__ivt"));
    let mut secs = sections(8192, 1024);
    secs.remove(1);
    let img = BootImage::from_tables(contents(0, 0), symbols(), secs, segments(8192));
    assert!(matches!(img.ivt(), Err(ImageError::MissingSection(n)) if n == ".boot"));
    assert!(matches!(img.section(".boot"), Err(ImageError::MissingSection(_))));
}

#[test]
fn ivt_outside_the_bytes_is_malformed() {
    let img = BootImage::from_tables(vec![0u8; 0x2010], symbols(), sections(8192, 1024), segments(8192));
    assert!(matches!(img.ivt(), Err(ImageError::MalformedBinary(_))));
}

#[test]
fn missing_fcb_and_flexram_symbols() {
    let img = BootImage::from_tables(Vec::new(), Vec::new(), Vec::new(), Vec::new());
    assert!(matches!(img.fcb(), Err(ImageError::MissingSymbol(n)) if n == "FLEXSPI_CONFIGURATION_BLOCK"));
    assert!(matches!(img.flexram_config(), Err(ImageError::MissingSymbol(n)) if n == "__flexram_config"));
    assert_eq!(img.symbol_value("__dcd"), None);
}

#[test]
fn load_addresses_follow_the_first_containing_segment() {
    let img = teensy4_image(8192, 1024);
    assert_eq!(img.section_lma(".vector_table").unwrap(), 0x6000_2000);
    assert_eq!(img.section_lma(".text").unwrap(), 0x6000_2410);
    assert_eq!(img.section_lma(".rodata").unwrap(), 0x6000_2610);
    assert_eq!(img.section_lma(".data").unwrap(), 0x6000_2674);
    assert!(matches!(img.section_lma(".nothing"), Err(ImageError::MissingSection(n)) if n == ".nothing"));
}

#[test]
fn uncontained_sections_load_at_their_vma() {
    let img = teensy4_image(8192, 1024);
    for name in [".stack", ".bss", ".uninit", ".heap"] {
        let sh = img.section_header(name).unwrap();
        assert_eq!(img.load_address(&sh), sh.address);
    }
}

#[test]
fn first_matching_segment_wins() {
    let mut segs = segments(8192);
    segs.push(load(0x3000, 1024, DTCM + 8192, 0x7000_0000));
    let img = BootImage::from_tables(Vec::new(), Vec::new(), sections(8192, 1024), segs);
    assert_eq!(img.section_lma(".vector_table").unwrap(), 0x6000_2000);
}

#[test]
fn load_address_wraps_at_64_bits() {
    let sh = imxrt_image::elf::SectionHeader { address: 0x10, size: 4, offset: 0x10, flags: 0 };
    let img = BootImage::from_tables(Vec::new(), Vec::new(), Vec::new(), vec![load(0, 0x100, 0, u64::MAX)]);
    assert_eq!(img.load_address(&sh), 0xF);
}

#[test]
fn other_stack_and_heap_sizes() {
    let img = teensy4_image(4096, 8192);
    assert!(img.check(&Profile::teensy4(4096, 8192)).is_ok());
    let findings = layout_findings(&img, &Profile::teensy4(8192, 1024));
    assert_eq!(findings.len(), 2);
    assert!(matches!(&findings[0], ImageError::LayoutViolation { section, expected: 8192, actual: 4096 } if section == ".stack"));
    assert!(matches!(&findings[1], ImageError::LayoutViolation { section, expected: 1024, actual: 8192 } if section == ".heap"));
}

#[test]
fn misplaced_data_is_reported() {
    let mut secs = sections(8192, 1024);
    secs[7].address += 4;
    let img = BootImage::from_tables(contents(0, (IVT_AT + 32) as u32), symbols(), secs, segments(8192));
    let findings = layout_findings(&img, &Profile::teensy4(8192, 1024));
    assert!(findings.iter().any(|f| matches!(f, ImageError::LayoutViolation { section, expected: 0x2000_2464, actual: 0x2000_2468 } if section == ".data")));
}

#[test]
fn unaligned_vector_table_is_reported() {
    let img = teensy4_image(8192 + 4, 1024);
    let findings = layout_findings(&img, &Profile::teensy4(8192 + 4, 1024));
    assert!(findings.iter().any(|f| matches!(f, ImageError::LayoutViolation { section, .. } if section == ".vector_table")));
}

#[test]
fn missing_section_is_reported() {
    let mut secs = sections(8192, 1024);
    secs.remove(8);
    let img = BootImage::from_tables(contents(0, (IVT_AT + 32) as u32), symbols(), secs, segments(8192));
    let findings = layout_findings(&img, &Profile::teensy4(8192, 1024));
    assert!(findings.iter().any(|f| matches!(f, ImageError::MissingSection(n) if n == ".bss")));
}

#[test]
fn loaded_noload_section_is_reported() {
    let mut segs = segments(8192);
    segs.push(load(0x3678, 8, DTCM + 8192 + 0x468, 0x6000_2678));
    let img = BootImage::from_tables(contents(0, (IVT_AT + 32) as u32), symbols(), sections(8192, 1024), segs);
    let findings = layout_findings(&img, &Profile::teensy4(8192, 1024));
    assert!(findings.iter().any(|f| matches!(f, ImageError::LayoutViolation { section, actual: 0x6000_2678, .. } if section == ".bss")));
}

#[test]
fn wrong_boot_data_pointer_is_reported() {
    let img = BootImage::from_tables(contents(0, IVT_AT as u32), symbols(), sections(8192, 1024), segments(8192));
    let findings = layout_findings(&img, &Profile::teensy4(8192, 1024));
    assert_eq!(findings.len(), 1);
    assert!(matches!(&findings[0], ImageError::LayoutViolation { section, expected: 0x6000_1020, actual: 0x6000_1000 } if section == "__ivt"));
}

#[test]
fn nonzero_dcd_pointer_without_block_is_reported() {
    let img = BootImage::from_tables(contents(0x6000_1030, (IVT_AT + 32) as u32), symbols(), sections(8192, 1024), segments(8192));
    assert!(img.check(&Profile::teensy4(8192, 1024)).is_err());
}

#[test]
fn linked_dcd_block_sets_the_pointer() {
    let mut syms = symbols();
    syms.push(sym("DEVICE_CONFIGURATION_DATA", 0x6000_1030, 8));
    let img = BootImage::from_tables(contents(0x6000_1030, (IVT_AT + 32) as u32), syms, sections(8192, 1024), segments(8192));
    assert!(img.check(&Profile::teensy4(8192, 1024)).is_ok());
    let block = img.symbol("DEVICE_CONFIGURATION_DATA").unwrap();
    assert_eq!(block.size % 4, 0);
}

#[test]
fn missized_dcd_block_is_rejected() {
    let mut syms = symbols();
    syms.push(sym("DEVICE_CONFIGURATION_DATA", 0x6000_1030, 7));
    let img = BootImage::from_tables(contents(0x6000_1030, (IVT_AT + 32) as u32), syms, sections(8192, 1024), segments(8192));
    let findings = layout_findings(&img, &Profile::teensy4(8192, 1024));
    assert!(matches!(&findings[..], [ImageError::LayoutViolation { section, expected: 4, actual: 7 }] if section == "DEVICE_CONFIGURATION_DATA"));
}

#[test]
fn nonboot_profile_needs_no_ivt() {
    let mut secs = sections(8192, 1024);
    secs.remove(1);
    let img = BootImage::from_tables(Vec::new(), Vec::new(), secs, segments(8192));
    let mut p = Profile::teensy4(8192, 1024);
    assert!(img.check(&p).is_err());
    p.boot = false;
    assert!(img.check(&p).is_ok());
}

#[test]
fn first_symbol_of_a_name_wins() {
    let mut syms = symbols();
    syms.push(sym("__ivt", 1, 1));
    let img = BootImage::from_tables(Vec::new(), syms, Vec::new(), Vec::new());
    assert_eq!(img.symbol_value("__ivt"), Some(IVT_AT));
    assert_eq!(img.symbol_value("increment_data"), Some(0x6000_2500));
}

fn imxrt1010_sections() -> Vec<ElfSection> {
    vec![
        sec(".boot", 0x6000_0000, 0x2000, 0x1000),
        sec(".stack", DTCM, 8192, 0x3700),
        sec(".vector_table", 0x2000_2000, 1024, 0x3000),
        sec(".heap", 0x2000_2400, 1024, 0x3700),
        sec(".xip", 0x6000_2400, 16, 0x3400),
        sec(".text", 0, 0x200, 0x3410),
        sec(".rodata", 0x6000_2610, 100, 0x3610),
        sec(".data", 0x2020_0000, 4, 0x3674),
        sec(".bss", 0x2020_0004, 8, 0x3678),
        sec(".uninit", 0x2020_000C, 0, 0x3678),
    ]
}

fn imxrt1010_segments() -> Vec<ProgramHeader> {
    vec![
        load(0x1000, 0x2000, 0x6000_0000, 0x6000_0000),
        load(0x3000, 1024, 0x2000_2000, 0x6000_2000),
        load(0x3400, 16, 0x6000_2400, 0x6000_2400),
        load(0x3410, 0x200, 0, 0x6000_2410),
        load(0x3610, 100, 0x6000_2610, 0x6000_2610),
        load(0x3674, 4, 0x2020_0000, 0x6000_2674),
    ]
}

#[test]
fn imxrt1010_style_layout_passes() {
    let img = BootImage::from_tables(
        contents(0, (IVT_AT + 32) as u32),
        symbols(),
        imxrt1010_sections(),
        imxrt1010_segments(),
    );
    assert!(img.check(&Profile::imxrt1010evk(8192, 1024)).is_ok());
    assert_eq!(img.section_lma(".text").unwrap(), 0x6000_2410);
    assert_eq!(img.section_lma(".rodata").unwrap(), img.section(".rodata").unwrap().address);
    let findings = layout_findings(&img, &Profile::teensy4(8192, 1024));
    assert!(findings.iter().any(|f| matches!(f, ImageError::LayoutViolation { section, .. } if section == ".rodata")));
}

#[test]
fn imxrt1170_nonboot_profile() {
    let p = Profile::imxrt1170evk_cm7(8192, 0, false);
    assert!(!p.boot);
    assert_eq!(p.load_base, 0x3000_4000);
    assert_eq!(p.chains[1].base, 0x2024_0000);
    assert_eq!(p.chains[0].sections, vec![".stack", ".vector_table", ".rodata", ".heap"]);
    assert_eq!(Profile::imxrt1170evk_cm7(8192, 0, true).load_base, 0x3000_2000);
}
