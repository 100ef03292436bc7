//! Decoding ELF structures out of an in-memory byte buffer: the signature
//! scanner, the raw header parser, and the program- and section-header
//! table readers.

use vstd::prelude::*;

use crate::decode::{copy_bytes, le_val, read_u16, read_u32, read_u64, DecodeError};
use crate::elf_handler::{
    ElfHeader, ElfHeader64, ProgramHeader64, SectionHeader64, EIOSABI, ETYPE, PTYPE, SHTYPE,
};

verus! {

/// The 4-byte ELF signature `0x7f 'E' 'L' 'F'` stands at offset `i`.
pub open spec fn is_elf_magic(s: Seq<u8>, i: int) -> bool {
    &&& 0 <= i
    &&& i + 4 <= s.len()
    &&& s[i] == 0x7f
    &&& s[i + 1] == 0x45
    &&& s[i + 2] == 0x4c
    &&& s[i + 3] == 0x46
}

/// `i` is where a 4-bytes-at-a-time scan stops: the first offset the scan
/// visits that holds the signature.
pub open spec fn spec_scan_hit(data: Seq<u8>, i: int) -> bool {
    &&& i % 4 == 0
    &&& is_elf_magic(data, i)
    &&& forall|j: int| 0 <= j < i && j % 4 == 0 ==> !is_elf_magic(data, j)
}

/// A scan can stop at one offset only.
pub proof fn lemma_scan_hit_unique(data: Seq<u8>, i: int, j: int)
    requires
        spec_scan_hit(data, i),
        spec_scan_hit(data, j),
    ensures
        i == j,
{
    if i < j {
        assert(!is_elf_magic(data, i));
    } else if j < i {
        assert(!is_elf_magic(data, j));
    }
}

/// Whenever the first 4-byte chunk of a stream is not the signature but the
/// second one is, the scan stops exactly at offset 4, so the header read
/// that follows starts there.
pub proof fn lemma_scan_stops_at_second_chunk(data: Seq<u8>)
    requires
        !is_elf_magic(data, 0),
        is_elf_magic(data, 4),
    ensures
        spec_scan_hit(data, 4),
        forall|i: int| spec_scan_hit(data, i) ==> i == 4,
{
    assert forall|i: int| spec_scan_hit(data, i) implies i == 4 by {
        lemma_scan_hit_unique(data, i, 4);
    }
}

/// Scans the buffer four bytes at a time, as a stream read in 4-byte chunks
/// would, and returns the offset of the first chunk that is the ELF
/// signature; the header read then starts exactly there.
pub fn scan_signature(data: &[u8]) -> (r: Option<usize>)
    ensures
        match r {
            Some(i) => spec_scan_hit(data@, i as int),
            None => forall|j: int| j % 4 == 0 ==> !is_elf_magic(data@, j),
        },
{
    let dlen: usize = data.len();
    if dlen < 4 {
        return None;
    }
    let mut i: usize = 0;
    while i <= dlen - 4
        invariant
            dlen == data@.len(),
            dlen >= 4,
            i % 4 == 0,
            i <= dlen,
            forall|j: int| 0 <= j < i && j % 4 == 0 ==> !is_elf_magic(data@, j),
        decreases dlen - i,
    {
        if data[i] == 0x7f && data[i + 1] == 0x45 && data[i + 2] == 0x4c && data[i + 3] == 0x46 {
            return Some(i);
        }
        i = i + 4;
    }
    proof {
        assert forall|j: int| j % 4 == 0 implies !is_elf_magic(data@, j) by {
            if 0 <= j < i {
            } else if j >= i {
                assert(j + 4 > dlen);
            }
        }
    }
    None
}

/// Width of the class-dependent fields, as the class byte at `pos + 4`
/// dictates.
pub open spec fn header_width(data: Seq<u8>, pos: int) -> int {
    4 * data[pos + 4] as int
}

/// The buffer holds a complete raw header at `pos`.
pub open spec fn header_fits(data: Seq<u8>, pos: int) -> bool {
    &&& pos + 24 <= data.len()
    &&& pos + 40 + 3 * header_width(data, pos) <= data.len()
}

/// `h` is exactly the raw header encoded at `pos`: fixed-width fields read
/// little-endian, the three class-dependent fields kept as raw bytes.
pub open spec fn spec_header_ok(data: Seq<u8>, pos: int, h: ElfHeader) -> bool {
    let w = header_width(data, pos);
    let b = pos + 24 + 3 * w;
    &&& h.magic@ == data.subrange(pos, pos + 4)
    &&& h.ei_class == data[pos + 4]
    &&& h.ei_version == data[pos + 5]
    &&& h.ei_data == data[pos + 6]
    &&& h.ei_osabi == EIOSABI::spec_from_u8(data[pos + 7])
    &&& h.ei_abiversion == data[pos + 8]
    &&& h.ei_pad@ == data.subrange(pos + 9, pos + 16)
    &&& h.e_type == ETYPE::spec_from_u16(le_val(data.subrange(pos + 16, pos + 18)) as u16)
    &&& h.e_machine as nat == le_val(data.subrange(pos + 18, pos + 20))
    &&& h.e_version as nat == le_val(data.subrange(pos + 20, pos + 24))
    &&& h.e_entry@ == data.subrange(pos + 24, pos + 24 + w)
    &&& h.e_phoff@ == data.subrange(pos + 24 + w, pos + 24 + 2 * w)
    &&& h.e_shoff@ == data.subrange(pos + 24 + 2 * w, pos + 24 + 3 * w)
    &&& h.e_flags as nat == le_val(data.subrange(b, b + 4))
    &&& h.e_ehsize as nat == le_val(data.subrange(b + 4, b + 6))
    &&& h.e_phentsize as nat == le_val(data.subrange(b + 6, b + 8))
    &&& h.e_phnum as nat == le_val(data.subrange(b + 8, b + 10))
    &&& h.e_shentsize as nat == le_val(data.subrange(b + 10, b + 12))
    &&& h.e_shnum as nat == le_val(data.subrange(b + 12, b + 14))
    &&& h.e_shstrndx as nat == le_val(data.subrange(b + 14, b + 16))
}

/// Parses the raw header at `pos`. Two-phase: the class byte is read first
/// and fixes the width of the entry and table-offset fields; nothing about
/// the field values is rejected, only a buffer too short to hold the header
/// is an error.
pub fn parse_elf_header(data: &[u8], pos: usize) -> (r: Result<ElfHeader, DecodeError>)
    ensures
        r is Ok <==> header_fits(data@, pos as int),
        r is Err ==> r == Err::<ElfHeader, DecodeError>(DecodeError::Insufficient),
        r matches Ok(h) ==> spec_header_ok(data@, pos as int, h),
        r matches Ok(h) ==> ((h.ei_class == 1 || h.ei_class == 2) ==> h.wf()),
{
    let dlen: usize = data.len();
    if dlen < 24 || pos > dlen - 24 {
        return Err(DecodeError::Insufficient);
    }
    let ei_class = data[pos + 4];
    let w: usize = (ei_class as usize) * 4;
    let rem: usize = dlen - (pos + 24);
    if rem < 16 + 3 * w {
        return Err(DecodeError::Insufficient);
    }
    let magic: [u8; 4] = [data[pos], data[pos + 1], data[pos + 2], data[pos + 3]];
    let ei_pad: [u8; 7] = [
        data[pos + 9],
        data[pos + 10],
        data[pos + 11],
        data[pos + 12],
        data[pos + 13],
        data[pos + 14],
        data[pos + 15],
    ];
    let b: usize = pos + 24 + 3 * w;
    let h = ElfHeader {
        magic,
        ei_class,
        ei_version: data[pos + 5],
        ei_data: data[pos + 6],
        ei_osabi: EIOSABI::from_u8(data[pos + 7]),
        ei_abiversion: data[pos + 8],
        ei_pad,
        e_type: ETYPE::from_u16(read_u16(data, pos + 16)),
        e_machine: read_u16(data, pos + 18),
        e_version: read_u32(data, pos + 20),
        e_entry: copy_bytes(data, pos + 24, w),
        e_phoff: copy_bytes(data, pos + 24 + w, w),
        e_shoff: copy_bytes(data, pos + 24 + 2 * w, w),
        e_flags: read_u32(data, b),
        e_ehsize: read_u16(data, b + 4),
        e_phentsize: read_u16(data, b + 6),
        e_phnum: read_u16(data, b + 8),
        e_shentsize: read_u16(data, b + 10),
        e_shnum: read_u16(data, b + 12),
        e_shstrndx: read_u16(data, b + 14),
    };
    proof {
        assert(h.magic@ =~= data@.subrange(pos as int, pos as int + 4));
        assert(h.ei_pad@ =~= data@.subrange(pos as int + 9, pos as int + 16));
    }
    Ok(h)
}

/// `h` is the normalized form of the raw header encoded at `pos`: the three
/// class-dependent fields read little-endian and widened to 64 bits, every
/// other field as the raw header holds it.
pub open spec fn spec_header64_ok(data: Seq<u8>, pos: int, h: ElfHeader64) -> bool {
    let w = header_width(data, pos);
    let b = pos + 24 + 3 * w;
    &&& h.magic@ == data.subrange(pos, pos + 4)
    &&& h.ei_class == data[pos + 4]
    &&& h.ei_version == data[pos + 5]
    &&& h.ei_data == data[pos + 6]
    &&& h.ei_osabi == EIOSABI::spec_from_u8(data[pos + 7])
    &&& h.ei_abiversion == data[pos + 8]
    &&& h.ei_pad@ == data.subrange(pos + 9, pos + 16)
    &&& h.e_type == ETYPE::spec_from_u16(le_val(data.subrange(pos + 16, pos + 18)) as u16)
    &&& h.e_machine as nat == le_val(data.subrange(pos + 18, pos + 20))
    &&& h.e_version as nat == le_val(data.subrange(pos + 20, pos + 24))
    &&& h.e_entry as nat == le_val(data.subrange(pos + 24, pos + 24 + w))
    &&& h.e_phoff as nat == le_val(data.subrange(pos + 24 + w, pos + 24 + 2 * w))
    &&& h.e_shoff as nat == le_val(data.subrange(pos + 24 + 2 * w, pos + 24 + 3 * w))
    &&& h.e_flags as nat == le_val(data.subrange(b, b + 4))
    &&& h.e_ehsize as nat == le_val(data.subrange(b + 4, b + 6))
    &&& h.e_phentsize as nat == le_val(data.subrange(b + 6, b + 8))
    &&& h.e_phnum as nat == le_val(data.subrange(b + 8, b + 10))
    &&& h.e_shentsize as nat == le_val(data.subrange(b + 10, b + 12))
    &&& h.e_shnum as nat == le_val(data.subrange(b + 12, b + 14))
    &&& h.e_shstrndx as nat == le_val(data.subrange(b + 14, b + 16))
}

/// Finds the signature, parses the raw header there, and normalizes it:
/// the whole header-reading step of a launch, on an in-memory buffer.
/// Succeeds exactly when the scan finds the signature, the buffer holds
/// the whole header, and the class byte is one of the two defined classes;
/// each failure reports which of the three was missing.
pub fn get_file_header(data: &[u8]) -> (r: Result<ElfHeader64, DecodeError>)
    ensures
        r matches Ok(h) ==> exists|i: int|
            #[trigger] spec_scan_hit(data@, i) && header_fits(data@, i) && (data@[i + 4] == 1
                || data@[i + 4] == 2) && spec_header64_ok(data@, i, h),
        r == Err::<ElfHeader64, DecodeError>(DecodeError::NoSignature) <==> (forall|j: int|
            j % 4 == 0 ==> !is_elf_magic(data@, j)),
        r == Err::<ElfHeader64, DecodeError>(DecodeError::Insufficient) <==> exists|i: int|
            #[trigger] spec_scan_hit(data@, i) && !header_fits(data@, i),
        r == Err::<ElfHeader64, DecodeError>(DecodeError::UnsupportedClass) <==> exists|i: int|
            #[trigger] spec_scan_hit(data@, i) && header_fits(data@, i) && !(data@[i + 4] == 1
                || data@[i + 4] == 2),
{
    let pos = match scan_signature(data) {
        Some(pos) => pos,
        None => {
            return Err(DecodeError::NoSignature);
        },
    };
    proof {
        assert forall|i: int| #[trigger] spec_scan_hit(data@, i) implies i == pos as int by {
            lemma_scan_hit_unique(data@, i, pos as int);
        }
    }
    let raw = match parse_elf_header(data, pos) {
        Ok(raw) => raw,
        Err(_) => {
            return Err(DecodeError::Insufficient);
        },
    };
    if !(raw.ei_class == 1 || raw.ei_class == 2) {
        return Err(DecodeError::UnsupportedClass);
    }
    match raw.convert64() {
        Ok(h) => Ok(h),
        Err(_) => Err(DecodeError::Insufficient),
    }
}

/// Size in bytes of one 64-bit-class program-header record.
pub open spec fn ph_record_size() -> int {
    56
}

/// The buffer holds the `i`-th program-header record of a table at `off`.
pub open spec fn ph_entry_fits(len: int, off: int, i: int) -> bool {
    off + ph_record_size() * i + ph_record_size() <= len
}

/// The program-header record encoded at `off`.
pub open spec fn spec_parse_ph(data: Seq<u8>, off: int) -> ProgramHeader64 {
    ProgramHeader64 {
        p_type: PTYPE::spec_from_u32(le_val(data.subrange(off, off + 4)) as u32),
        p_flags: le_val(data.subrange(off + 4, off + 8)) as u32 as i32,
        p_offset: le_val(data.subrange(off + 8, off + 16)) as u64,
        p_vaddr: le_val(data.subrange(off + 16, off + 24)) as u64,
        p_paddr: le_val(data.subrange(off + 24, off + 32)) as u64,
        p_filesz: le_val(data.subrange(off + 32, off + 40)) as u64,
        p_memsz: le_val(data.subrange(off + 40, off + 48)) as u64,
        p_align: le_val(data.subrange(off + 48, off + 56)) as u64,
    }
}

/// Reads one program-header record at byte offset `base`.
fn parse_ph_at(data: &[u8], base: usize) -> (r: ProgramHeader64)
    requires
        base + 56 <= data@.len(),
    ensures
        r == spec_parse_ph(data@, base as int),
{
    // Binding the length shows the solver that every offset below fits in
    // a machine word.
    let dlen: usize = data.len();
    ProgramHeader64 {
        p_type: PTYPE::from_u32(read_u32(data, base)),
        p_flags: #[verifier::truncate] (read_u32(data, base + 4) as i32),
        p_offset: read_u64(data, base + 8),
        p_vaddr: read_u64(data, base + 16),
        p_paddr: read_u64(data, base + 24),
        p_filesz: read_u64(data, base + 32),
        p_memsz: read_u64(data, base + 40),
        p_align: read_u64(data, base + 48),
    }
}

/// Reads the program-header table: at most `e_phnum` records, each exactly
/// one record size after the previous one, starting at `e_phoff`. A record
/// the buffer cannot hold is skipped and enumeration goes on at the next
/// nominal record offset, so the result is the longest prefix of complete
/// records.
pub fn parse_program_headers(data: &[u8], e_phoff: u64, e_phnum: u16) -> (r: Vec<
    ProgramHeader64,
>)
    ensures
        r@.len() <= e_phnum,
        forall|i: int|
            0 <= i < r@.len() ==> ph_entry_fits(data@.len() as int, e_phoff as int, i) && r@[i]
                == spec_parse_ph(data@, e_phoff as int + ph_record_size() * i),
        r@.len() < e_phnum ==> !ph_entry_fits(data@.len() as int, e_phoff as int, r@.len() as int),
{
    let dlen: usize = data.len();
    let mut out: Vec<ProgramHeader64> = Vec::new();
    let mut i: usize = 0;
    while i < e_phnum as usize
        invariant
            dlen == data@.len(),
            i <= e_phnum,
            out@.len() <= i,
            forall|j: int|
                0 <= j < out@.len() ==> ph_entry_fits(dlen as int, e_phoff as int, j) && out@[j]
                    == spec_parse_ph(data@, e_phoff as int + ph_record_size() * j),
            out@.len() < i ==> !ph_entry_fits(dlen as int, e_phoff as int, out@.len() as int),
        decreases e_phnum as int - i,
    {
        let fits = e_phoff <= dlen as u64 && (i as u64) * 56 + 56 <= dlen as u64 - e_phoff;
        if fits {
            proof {
                if out@.len() < i {
                    assert(ph_entry_fits(dlen as int, e_phoff as int, out@.len() as int));
                }
            }
            let base: usize = (e_phoff as usize) + i * 56;
            let ph = parse_ph_at(data, base);
            out.push(ph);
        }
        i = i + 1;
    }
    out
}

/// Size in bytes of one 64-bit-class section-header record.
pub open spec fn sh_record_size() -> int {
    64
}

/// The buffer holds the `i`-th section-header record of a table at `off`.
pub open spec fn sh_entry_fits(len: int, off: int, i: int) -> bool {
    off + sh_record_size() * i + sh_record_size() <= len
}

/// The section-header record encoded at `off`.
pub open spec fn spec_parse_sh(data: Seq<u8>, off: int) -> SectionHeader64 {
    SectionHeader64 {
        sh_name: le_val(data.subrange(off, off + 4)) as u32,
        sh_type: SHTYPE::spec_from_u32(le_val(data.subrange(off + 4, off + 8)) as u32),
        sh_flags: le_val(data.subrange(off + 8, off + 16)) as u64,
        sh_addr: le_val(data.subrange(off + 16, off + 24)) as u64,
        sh_offset: le_val(data.subrange(off + 24, off + 32)) as u64,
        sh_size: le_val(data.subrange(off + 32, off + 40)) as u64,
        sh_link: le_val(data.subrange(off + 40, off + 44)) as u32,
        sh_info: le_val(data.subrange(off + 44, off + 48)) as u32,
        sh_addralign: le_val(data.subrange(off + 48, off + 56)) as u64,
        sh_entsize: le_val(data.subrange(off + 56, off + 64)) as u64,
    }
}

/// Reads one section-header record at byte offset `base`.
fn parse_sh_at(data: &[u8], base: usize) -> (r: SectionHeader64)
    requires
        base + 64 <= data@.len(),
    ensures
        r == spec_parse_sh(data@, base as int),
{
    // Binding the length shows the solver that every offset below fits in
    // a machine word.
    let dlen: usize = data.len();
    SectionHeader64 {
        sh_name: read_u32(data, base),
        sh_type: SHTYPE::from_u32(read_u32(data, base + 4)),
        sh_flags: read_u64(data, base + 8),
        sh_addr: read_u64(data, base + 16),
        sh_offset: read_u64(data, base + 24),
        sh_size: read_u64(data, base + 32),
        sh_link: read_u32(data, base + 40),
        sh_info: read_u32(data, base + 44),
        sh_addralign: read_u64(data, base + 48),
        sh_entsize: read_u64(data, base + 56),
    }
}

/// Reads the section-header table: at most `e_shnum` records, spaced one
/// record size apart from `e_shoff`; records the buffer cannot hold are
/// skipped.
pub fn parse_section_headers(data: &[u8], e_shoff: u64, e_shnum: u16) -> (r: Vec<
    SectionHeader64,
>)
    ensures
        r@.len() <= e_shnum,
        forall|i: int|
            0 <= i < r@.len() ==> sh_entry_fits(data@.len() as int, e_shoff as int, i) && r@[i]
                == spec_parse_sh(data@, e_shoff as int + sh_record_size() * i),
        r@.len() < e_shnum ==> !sh_entry_fits(data@.len() as int, e_shoff as int, r@.len() as int),
{
    let dlen: usize = data.len();
    let mut out: Vec<SectionHeader64> = Vec::new();
    let mut i: usize = 0;
    while i < e_shnum as usize
        invariant
            dlen == data@.len(),
            i <= e_shnum,
            out@.len() <= i,
            forall|j: int|
                0 <= j < out@.len() ==> sh_entry_fits(dlen as int, e_shoff as int, j) && out@[j]
                    == spec_parse_sh(data@, e_shoff as int + sh_record_size() * j),
            out@.len() < i ==> !sh_entry_fits(dlen as int, e_shoff as int, out@.len() as int),
        decreases e_shnum as int - i,
    {
        let fits = e_shoff <= dlen as u64 && (i as u64) * 64 + 64 <= dlen as u64 - e_shoff;
        if fits {
            proof {
                if out@.len() < i {
                    assert(sh_entry_fits(dlen as int, e_shoff as int, out@.len() as int));
                }
            }
            let base: usize = (e_shoff as usize) + i * 64;
            let sh = parse_sh_at(data, base);
            out.push(sh);
        }
        i = i + 1;
    }
    out
}

} // verus!
