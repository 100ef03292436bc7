use elf_loader::decode::DecodeError;
use elf_loader::elf_handler::{ElfHeader, ProgramHeader64, EIOSABI, ETYPE, PTYPE, SHTYPE};
use elf_loader::loader::{
    initial_contents, plan_segment, stack_pointer, MappingBacking, MappingRequest, STACK_SIZE,
};
use elf_loader::parse::{
    get_file_header, parse_elf_header, parse_program_headers, parse_section_headers,
    scan_signature,
};

fn push_u16(v: &mut Vec<u8>, x: u16) {
    v.extend_from_slice(&x.to_le_bytes());
}

fn push_u32(v: &mut Vec<u8>, x: u32) {
    v.extend_from_slice(&x.to_le_bytes());
}

fn push_u64(v: &mut Vec<u8>, x: u64) {
    v.extend_from_slice(&x.to_le_bytes());
}

/// A complete 64-bit-class little-endian ELF header with one program header
/// declared at offset 64.
fn minimal_header64(entry: u64, phnum: u16) -> Vec<u8> {
    let mut v: Vec<u8> = Vec::new();
    v.extend_from_slice(&[0x7f, 0x45, 0x4c, 0x46]);
    v.push(2); // class: 64-bit
    v.push(1); // version
    v.push(1); // data: little-endian
    v.push(0); // OS ABI: System V
    v.push(0); // ABI version
    v.extend_from_slice(&[0u8; 7]);
    push_u16(&mut v, 2); // e_type: ET_EXEC
    push_u16(&mut v, 0x3e); // e_machine
    push_u32(&mut v, 1); // e_version
    push_u64(&mut v, entry);
    push_u64(&mut v, 64); // e_phoff
    push_u64(&mut v, 0); // e_shoff
    push_u32(&mut v, 0); // e_flags
    push_u16(&mut v, 64); // e_ehsize
    push_u16(&mut v, 56); // e_phentsize
    push_u16(&mut v, phnum);
    push_u16(&mut v, 64); // e_shentsize
    push_u16(&mut v, 0); // e_shnum
    push_u16(&mut v, 0); // e_shstrndx
    assert_eq!(v.len(), 64);
    v
}

fn push_phdr(v: &mut Vec<u8>, p_type: u32, flags: u32, offset: u64, vaddr: u64, filesz: u64, memsz: u64, align: u64) {
    push_u32(v, p_type);
    push_u32(v, flags);
    push_u64(v, offset);
    push_u64(v, vaddr);
    push_u64(v, vaddr); // p_paddr
    push_u64(v, filesz);
    push_u64(v, memsz);
    push_u64(v, align);
}

#[test]
fn convert64_widens_64bit_fields() {
    let h = ElfHeader {
        magic: [0x7f, 0x45, 0x4c, 0x46],
        ei_class: 2,
        ei_version: 1,
        ei_data: 1,
        ei_osabi: EIOSABI::Linux,
        ei_abiversion: 0,
        ei_pad: [0; 7],
        e_type: ETYPE::ET_EXEC,
        e_machine: 0x3e,
        e_version: 1,
        e_entry: vec![0x01, 0x02, 0x03, 0x04, 0x05, 0x06, 0x07, 0x08],
        e_phoff: vec![0x40, 0, 0, 0, 0, 0, 0, 0],
        e_shoff: vec![0xff, 0xff, 0xff, 0xff, 0xff, 0xff, 0xff, 0xff],
        e_flags: 7,
        e_ehsize: 64,
        e_phentsize: 56,
        e_phnum: 3,
        e_shentsize: 64,
        e_shnum: 5,
        e_shstrndx: 4,
    };
    let c = h.convert64().unwrap();
    assert_eq!(c.e_entry, 0x0807060504030201);
    assert_eq!(c.e_phoff, 0x40);
    assert_eq!(c.e_shoff, u64::MAX);
    assert_eq!(c.ei_class, 2);
    assert_eq!(c.ei_osabi, EIOSABI::Linux);
    assert_eq!(c.e_type, ETYPE::ET_EXEC);
    assert_eq!(c.e_machine, 0x3e);
    assert_eq!(c.e_phnum, 3);
    assert_eq!(c.e_shnum, 5);
    assert_eq!(c.e_shstrndx, 4);
}

#[test]
fn convert64_zero_extends_32bit_fields() {
    let h = ElfHeader {
        magic: [0x7f, 0x45, 0x4c, 0x46],
        ei_class: 1,
        ei_version: 1,
        ei_data: 1,
        ei_osabi: EIOSABI::SystemV,
        ei_abiversion: 0,
        ei_pad: [0; 7],
        e_type: ETYPE::ET_DYN,
        e_machine: 3,
        e_version: 1,
        e_entry: vec![0x78, 0x56, 0x34, 0x12],
        e_phoff: vec![0x34, 0x00, 0x00, 0x00],
        e_shoff: vec![0xff, 0xff, 0xff, 0xff],
        e_flags: 0,
        e_ehsize: 52,
        e_phentsize: 32,
        e_phnum: 1,
        e_shentsize: 40,
        e_shnum: 0,
        e_shstrndx: 0,
    };
    let c = h.convert64().unwrap();
    assert_eq!(c.e_entry, 0x12345678);
    assert_eq!(c.e_phoff, 0x34);
    // Zero-extension: no high-byte garbage above bit 31.
    assert_eq!(c.e_shoff, 0xffff_ffff);
    assert!(c.e_entry < 0x1_0000_0000);
}

#[test]
fn scanner_finds_signature_at_offset_4() {
    let mut v: Vec<u8> = vec![1, 2, 3, 4];
    v.extend_from_slice(&[0x7f, 0x45, 0x4c, 0x46]);
    v.extend_from_slice(&[0; 16]);
    assert_eq!(scan_signature(&v), Some(4));
}

#[test]
fn scanner_reads_four_bytes_at_a_time() {
    // The signature starts at offset 2, which a 4-byte-chunk scan never
    // visits, so the scan runs off the end without a match.
    let v: Vec<u8> = vec![0, 0, 0x7f, 0x45, 0x4c, 0x46, 0, 0];
    assert_eq!(scan_signature(&v), None);
}

#[test]
fn scanner_fails_on_signature_free_stream() {
    assert_eq!(scan_signature(&[0u8; 64]), None);
    assert_eq!(scan_signature(&[]), None);
    assert_eq!(scan_signature(&[0x7f, 0x45, 0x4c]), None);
}

#[test]
fn parse_header_reads_every_field() {
    let data = minimal_header64(0x400000, 1);
    let h = parse_elf_header(&data, 0).unwrap();
    assert_eq!(h.magic, [0x7f, 0x45, 0x4c, 0x46]);
    assert_eq!(h.ei_class, 2);
    assert_eq!(h.ei_version, 1);
    assert_eq!(h.ei_data, 1);
    assert_eq!(h.ei_osabi, EIOSABI::SystemV);
    assert_eq!(h.ei_abiversion, 0);
    assert_eq!(h.ei_pad, [0; 7]);
    assert_eq!(h.e_type, ETYPE::ET_EXEC);
    assert_eq!(h.e_machine, 0x3e);
    assert_eq!(h.e_version, 1);
    assert_eq!(h.e_entry, vec![0, 0, 0x40, 0, 0, 0, 0, 0]);
    assert_eq!(h.e_phoff, vec![0x40, 0, 0, 0, 0, 0, 0, 0]);
    assert_eq!(h.e_shoff, vec![0; 8]);
    assert_eq!(h.e_flags, 0);
    assert_eq!(h.e_ehsize, 64);
    assert_eq!(h.e_phentsize, 56);
    assert_eq!(h.e_phnum, 1);
    assert_eq!(h.e_shentsize, 64);
    assert_eq!(h.e_shnum, 0);
    assert_eq!(h.e_shstrndx, 0);
}

#[test]
fn parse_header_rejects_only_short_buffers() {
    let data = minimal_header64(0, 0);
    assert!(matches!(parse_elf_header(&data[..63], 0), Err(DecodeError::Insufficient)));
    assert!(matches!(parse_elf_header(&data, 41), Err(DecodeError::Insufficient)));
    assert!(matches!(parse_elf_header(&[], 0), Err(DecodeError::Insufficient)));
    assert!(parse_elf_header(&data, 0).is_ok());
}

#[test]
fn unrecognized_os_abi_decodes_without_error() {
    assert_eq!(EIOSABI::from_u8(0xbf), EIOSABI::Unrecognized(0xbf));
    assert_eq!(EIOSABI::from_u8(0x42), EIOSABI::Unrecognized(0x42));
    assert_eq!(EIOSABI::from_u8(3), EIOSABI::Linux);
    assert_eq!(EIOSABI::from_u8(9), EIOSABI::Tru64);
    let mut data = minimal_header64(0, 0);
    data[7] = 0xbf; // OS-ABI byte
    let h = parse_elf_header(&data, 0).unwrap();
    assert_eq!(h.ei_osabi, EIOSABI::Unrecognized(0xbf));
}

#[test]
fn unrecognized_section_type_decodes_without_error() {
    assert_eq!(SHTYPE::from_u32(3), SHTYPE::SHT_STRTAB);
    assert_eq!(SHTYPE::from_u32(0x6fff_fff6), SHTYPE::SHT_GNU_HASH);
    assert_eq!(SHTYPE::from_u32(0xdead_beef), SHTYPE::Unrecognized(0xdead_beef));
    assert_eq!(SHTYPE::from_u32(18), SHTYPE::Unrecognized(18));
}

#[test]
fn unrecognized_segment_and_object_types_decode_without_error() {
    assert_eq!(PTYPE::from_u32(1), PTYPE::PT_LOAD);
    assert_eq!(PTYPE::from_u32(0x6474e551), PTYPE::PT_GNU_STACK);
    assert_eq!(PTYPE::from_u32(0x12345678), PTYPE::Unrecognized(0x12345678));
    assert_eq!(ETYPE::from_u16(3), ETYPE::ET_DYN);
    assert_eq!(ETYPE::from_u16(0xFE00), ETYPE::ET_HIOS);
    assert_eq!(ETYPE::from_u16(0x1234), ETYPE::Unrecognized(0x1234));
}

#[test]
fn program_header_table_reads_consecutive_records() {
    let mut data = minimal_header64(0x400000, 2);
    push_phdr(&mut data, 1, 5, 0x1000, 0x400000, 0x1000, 0x1000, 0x1000);
    push_phdr(&mut data, 0x6474e551, 6, 0, 0, 0, 0, 16);
    let phs = parse_program_headers(&data, 64, 2);
    assert_eq!(phs.len(), 2);
    assert_eq!(phs[0].p_type, PTYPE::PT_LOAD);
    assert_eq!(phs[0].p_flags, 5);
    assert_eq!(phs[0].p_offset, 0x1000);
    assert_eq!(phs[0].p_vaddr, 0x400000);
    assert_eq!(phs[0].p_paddr, 0x400000);
    assert_eq!(phs[0].p_filesz, 0x1000);
    assert_eq!(phs[0].p_memsz, 0x1000);
    assert_eq!(phs[0].p_align, 0x1000);
    assert_eq!(phs[1].p_type, PTYPE::PT_GNU_STACK);
    assert_eq!(phs[1].p_align, 16);
}

#[test]
fn program_header_table_returns_at_most_phnum_entries() {
    let mut data = minimal_header64(0x400000, 1);
    push_phdr(&mut data, 1, 5, 0, 0x400000, 64, 64, 16);
    push_phdr(&mut data, 1, 6, 64, 0x600000, 64, 64, 16);
    // Fewer than declared: only one is returned.
    let phs = parse_program_headers(&data, 64, 1);
    assert_eq!(phs.len(), 1);
    assert_eq!(phs[0].p_vaddr, 0x400000);
}

#[test]
fn program_header_table_skips_incomplete_records() {
    let mut data = minimal_header64(0x400000, 3);
    push_phdr(&mut data, 1, 5, 0, 0x400000, 64, 64, 16);
    data.extend_from_slice(&[0u8; 20]); // a truncated second record
    let phs = parse_program_headers(&data, 64, 3);
    assert_eq!(phs.len(), 1);
    // A table whose offset lies past the end of the buffer yields nothing.
    let phs = parse_program_headers(&data, 1 << 40, 3);
    assert_eq!(phs.len(), 0);
}

#[test]
fn section_header_table_reads_records_and_open_types() {
    let mut data = vec![0u8; 128];
    let mut rec: Vec<u8> = Vec::new();
    push_u32(&mut rec, 1); // sh_name
    push_u32(&mut rec, 0xdead_beef); // sh_type: unknown number
    push_u64(&mut rec, 2); // sh_flags
    push_u64(&mut rec, 0x400000); // sh_addr
    push_u64(&mut rec, 0x200); // sh_offset
    push_u64(&mut rec, 0x80); // sh_size
    push_u32(&mut rec, 0); // sh_link
    push_u32(&mut rec, 0); // sh_info
    push_u64(&mut rec, 8); // sh_addralign
    push_u64(&mut rec, 0); // sh_entsize
    data.extend_from_slice(&rec);
    let shs = parse_section_headers(&data, 128, 1);
    assert_eq!(shs.len(), 1);
    assert_eq!(shs[0].sh_name, 1);
    assert_eq!(shs[0].sh_type, SHTYPE::Unrecognized(0xdead_beef));
    assert_eq!(shs[0].sh_flags, 2);
    assert_eq!(shs[0].sh_addr, 0x400000);
    assert_eq!(shs[0].sh_offset, 0x200);
    assert_eq!(shs[0].sh_size, 0x80);
    assert_eq!(shs[0].sh_addralign, 8);
    let none = parse_section_headers(&data, 129, 1);
    assert_eq!(none.len(), 0);
}

#[test]
fn plan_load_with_equal_sizes_is_file_backed() {
    let ph = ProgramHeader64 {
        p_type: PTYPE::PT_LOAD,
        p_flags: 5, // read + execute
        p_offset: 0x1000,
        p_vaddr: 0x400000,
        p_paddr: 0x400000,
        p_filesz: 4096,
        p_memsz: 4096,
        p_align: 0x1000,
    };
    let req = plan_segment(&ph).unwrap();
    assert_eq!(
        req,
        MappingRequest {
            addr: 0x400000,
            length: 4096,
            prot_read: true,
            prot_write: false,
            prot_exec: true,
            backing: MappingBacking::FileBacked { file_offset: 0x1000 },
        }
    );
}

#[test]
fn plan_phdr_with_equal_sizes_is_file_backed() {
    let ph = ProgramHeader64 {
        p_type: PTYPE::PT_PHDR,
        p_flags: 4,
        p_offset: 64,
        p_vaddr: 0x400040,
        p_paddr: 0x400040,
        p_filesz: 56,
        p_memsz: 56,
        p_align: 8,
    };
    let req = plan_segment(&ph).unwrap();
    assert_eq!(req.length, 56);
    assert!(matches!(req.backing, MappingBacking::FileBacked { file_offset: 64 }));
    assert!(req.prot_read && !req.prot_write && !req.prot_exec);
}

#[test]
fn plan_load_with_bss_tail_is_anonymous_and_doubled() {
    let ph = ProgramHeader64 {
        p_type: PTYPE::PT_LOAD,
        p_flags: 6, // read + write
        p_offset: 0x2000,
        p_vaddr: 0x600000,
        p_paddr: 0x600000,
        p_filesz: 0x300,
        p_memsz: 0x1000,
        p_align: 0x1000,
    };
    let req = plan_segment(&ph).unwrap();
    assert_eq!(req.addr, 0x600000);
    assert_eq!(req.length, 0x2000); // twice the memory size
    assert!(req.prot_read && req.prot_write && !req.prot_exec);
    assert_eq!(
        req.backing,
        MappingBacking::AnonymousZero { file_offset: 0x2000, copy_len: 0x300 }
    );
}

#[test]
fn bss_tail_reads_back_as_zero() {
    // filesz = 3, memsz = 8: exactly 3 file bytes are copied and every byte
    // from there to the end of the doubled mapping reads back as zero.
    let ph = ProgramHeader64 {
        p_type: PTYPE::PT_LOAD,
        p_flags: 6,
        p_offset: 4,
        p_vaddr: 0x600000,
        p_paddr: 0x600000,
        p_filesz: 3,
        p_memsz: 8,
        p_align: 8,
    };
    let req = plan_segment(&ph).unwrap();
    assert_eq!(req.length, 16);
    let file: Vec<u8> = (1u8..=32).collect();
    let img = initial_contents(&req, &file);
    assert_eq!(img.len(), 16);
    assert_eq!(&img[..3], &file[4..7]);
    for i in 3..16 {
        assert_eq!(img[i], 0);
    }
}

#[test]
fn file_backed_mapping_shows_the_file_bytes() {
    let ph = ProgramHeader64 {
        p_type: PTYPE::PT_LOAD,
        p_flags: 5,
        p_offset: 8,
        p_vaddr: 0x400000,
        p_paddr: 0x400000,
        p_filesz: 16,
        p_memsz: 16,
        p_align: 8,
    };
    let req = plan_segment(&ph).unwrap();
    let file: Vec<u8> = (1u8..=32).collect();
    let img = initial_contents(&req, &file);
    assert_eq!(&img[..], &file[8..24]);
}

#[test]
fn plan_ignores_other_segment_types() {
    let mut ph = ProgramHeader64 {
        p_type: PTYPE::PT_NOTE,
        p_flags: 4,
        p_offset: 0,
        p_vaddr: 0,
        p_paddr: 0,
        p_filesz: 8,
        p_memsz: 8,
        p_align: 4,
    };
    assert_eq!(plan_segment(&ph), None);
    ph.p_type = PTYPE::PT_INTERP;
    assert_eq!(plan_segment(&ph), None);
    ph.p_type = PTYPE::Unrecognized(0x7000_0001);
    assert_eq!(plan_segment(&ph), None);
}

#[test]
fn plan_gnu_stack_reserves_fixed_stack() {
    let ph = ProgramHeader64 {
        p_type: PTYPE::PT_GNU_STACK,
        p_flags: 6,
        p_offset: 0,
        p_vaddr: 0,
        p_paddr: 0,
        p_filesz: 0,
        p_memsz: 0,
        p_align: 16,
    };
    let req = plan_segment(&ph).unwrap();
    assert_eq!(req.length, STACK_SIZE);
    assert_eq!(req.backing, MappingBacking::Stack);
    assert!(req.prot_read && req.prot_write && !req.prot_exec);
}

#[test]
fn stack_pointer_is_top_minus_reserve_aligned_down() {
    // top of the mapping minus the 100-byte reserve, rounded down to 16
    let base: u64 = 0x10000;
    let unaligned = base + STACK_SIZE - 100;
    assert_eq!(stack_pointer(base, 16), unaligned - unaligned % 16);
    assert_eq!(stack_pointer(base, 16) % 16, 0);
    // alignments of 0 and 1 round nothing
    assert_eq!(stack_pointer(base, 0), unaligned);
    assert_eq!(stack_pointer(base, 1), unaligned);
    assert_eq!(stack_pointer(0, 4096), (STACK_SIZE - 100) & !0xfff);
}

#[test]
fn get_file_header_reads_a_minimal_elf() {
    let mut data = minimal_header64(0x400000, 1);
    push_phdr(&mut data, 1, 5, 0, 0x400000, 4096, 4096, 0x1000);
    let h = get_file_header(&data).unwrap();
    assert_eq!(h.e_entry, 0x400000);
    assert_eq!(h.e_phoff, 64);
    assert_eq!(h.e_phnum, 1);
    assert_eq!(h.ei_class, 2);
}

#[test]
fn get_file_header_skips_leading_junk() {
    let mut data = vec![0u8; 8];
    data.extend_from_slice(&minimal_header64(0x400000, 0));
    let h = get_file_header(&data).unwrap();
    assert_eq!(h.e_entry, 0x400000);
    assert_eq!(h.e_phnum, 0);
}

#[test]
fn get_file_header_reports_each_failure() {
    assert!(matches!(get_file_header(&[]), Err(DecodeError::NoSignature)));
    assert!(matches!(get_file_header(&[0u8; 32]), Err(DecodeError::NoSignature)));
    // Signature present but the header is cut short.
    assert!(matches!(get_file_header(&[0x7f, 0x45, 0x4c, 0x46, 2, 1]), Err(DecodeError::Insufficient)));
    // A class byte that names neither defined class.
    let mut data = minimal_header64(0, 0);
    data[4] = 3;
    data.extend_from_slice(&[0u8; 64]);
    assert!(matches!(get_file_header(&data), Err(DecodeError::UnsupportedClass)));
}

#[test]
fn minimal_load_segment_end_to_end() {
    // A minimal valid 64-bit little-endian ELF with one LOAD segment whose
    // file and memory sizes agree: the plan must map exactly those bytes at
    // the segment's address and the transfer target is the entry point.
    let mut data = minimal_header64(0x400000, 1);
    push_phdr(&mut data, 1, 5, 0, 0x400000, 4096, 4096, 0x1000);
    data.resize(4096, 0);
    data[120] = 0xc3; // an immediate-return instruction in the image

    let header = get_file_header(&data).unwrap();
    let phs = parse_program_headers(&data, header.e_phoff, header.e_phnum);
    assert_eq!(phs.len(), 1);
    let req = plan_segment(&phs[0]).unwrap();
    assert_eq!(req.addr, 0x400000);
    assert_eq!(req.length, 4096);
    assert!(req.prot_read && req.prot_exec && !req.prot_write);
    assert_eq!(req.backing, MappingBacking::FileBacked { file_offset: 0 });
    assert_eq!(header.e_entry, 0x400000);
    // The mapped bytes are the file's bytes: offset 0, length 4096 covers
    // the whole buffer, return instruction included.
    assert_eq!(data[120], 0xc3);
}
