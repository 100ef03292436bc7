//! The ELF data model: symbolic field enumerations, the raw class-ambiguous
//! header, the normalized 64-bit-wide header, and the record types for
//! program and section headers.
//!
//! Every enumeration over an ABI-defined symbol set is open: a numeric value
//! outside the known set decodes to an explicit `Unrecognized` variant that
//! carries the raw number, never to an error.

use vstd::prelude::*;

use crate::decode::{le_val, lemma_le_val_bound, lemma_pow256_values, read_le, DecodeError};

verus! {

/// Section type. Open set: unknown numbers become `Unrecognized`.
#[allow(non_camel_case_types)]
#[derive(Clone, Copy, Debug, PartialEq, Eq, Structural)]
pub enum SHTYPE {
    SHT_NULL,
    SHT_PROGBITS,
    SHT_SYMTAB,
    SHT_STRTAB,
    SHT_RELA,
    SHT_HASH,
    SHT_DYNAMIC,
    SHT_NOTE,
    SHT_NOBITS,
    SHT_REL,
    SHT_SHLIB,
    SHT_DYNSYM,
    SHT_INIT_ARRAY,
    SHT_FINI_ARRAY,
    SHT_PREINIT_ARRAY,
    SHT_GROUP,
    SHT_SYMTAB_SHNDX,
    SHT_NUM,
    SHT_LOOS,
    SHT_GNU_HASH,
    VERSYM,
    VERNEED,
    Unrecognized(u32),
}

impl SHTYPE {
    /// The section type a raw 32-bit field value stands for.
    pub open spec fn spec_from_u32(v: u32) -> SHTYPE {
        if v == 0 {
            SHTYPE::SHT_NULL
        } else if v == 1 {
            SHTYPE::SHT_PROGBITS
        } else if v == 2 {
            SHTYPE::SHT_SYMTAB
        } else if v == 3 {
            SHTYPE::SHT_STRTAB
        } else if v == 4 {
            SHTYPE::SHT_RELA
        } else if v == 5 {
            SHTYPE::SHT_HASH
        } else if v == 6 {
            SHTYPE::SHT_DYNAMIC
        } else if v == 7 {
            SHTYPE::SHT_NOTE
        } else if v == 8 {
            SHTYPE::SHT_NOBITS
        } else if v == 9 {
            SHTYPE::SHT_REL
        } else if v == 10 {
            SHTYPE::SHT_SHLIB
        } else if v == 11 {
            SHTYPE::SHT_DYNSYM
        } else if v == 12 {
            SHTYPE::SHT_INIT_ARRAY
        } else if v == 13 {
            SHTYPE::SHT_FINI_ARRAY
        } else if v == 14 {
            SHTYPE::SHT_PREINIT_ARRAY
        } else if v == 15 {
            SHTYPE::SHT_GROUP
        } else if v == 16 {
            SHTYPE::SHT_SYMTAB_SHNDX
        } else if v == 17 {
            SHTYPE::SHT_NUM
        } else if v == 0x60000000 {
            SHTYPE::SHT_LOOS
        } else if v == 0x6fff_fff6 {
            SHTYPE::SHT_GNU_HASH
        } else if v == 0x6fffffff {
            SHTYPE::VERSYM
        } else if v == 0x6ffffffe {
            SHTYPE::VERNEED
        } else {
            SHTYPE::Unrecognized(v)
        }
    }

    /// Decodes a raw section-type number. Total: never an error.
    pub fn from_u32(v: u32) -> (r: SHTYPE)
        ensures
            r == SHTYPE::spec_from_u32(v),
    {
        match v {
            0 => SHTYPE::SHT_NULL,
            1 => SHTYPE::SHT_PROGBITS,
            2 => SHTYPE::SHT_SYMTAB,
            3 => SHTYPE::SHT_STRTAB,
            4 => SHTYPE::SHT_RELA,
            5 => SHTYPE::SHT_HASH,
            6 => SHTYPE::SHT_DYNAMIC,
            7 => SHTYPE::SHT_NOTE,
            8 => SHTYPE::SHT_NOBITS,
            9 => SHTYPE::SHT_REL,
            10 => SHTYPE::SHT_SHLIB,
            11 => SHTYPE::SHT_DYNSYM,
            12 => SHTYPE::SHT_INIT_ARRAY,
            13 => SHTYPE::SHT_FINI_ARRAY,
            14 => SHTYPE::SHT_PREINIT_ARRAY,
            15 => SHTYPE::SHT_GROUP,
            16 => SHTYPE::SHT_SYMTAB_SHNDX,
            17 => SHTYPE::SHT_NUM,
            0x60000000 => SHTYPE::SHT_LOOS,
            0x6fff_fff6 => SHTYPE::SHT_GNU_HASH,
            0x6fffffff => SHTYPE::VERSYM,
            0x6ffffffe => SHTYPE::VERNEED,
            _ => SHTYPE::Unrecognized(v),
        }
    }
}

/// Program-header (segment) type. Open set.
#[allow(non_camel_case_types)]
#[derive(Clone, Copy, Debug, PartialEq, Eq, Structural)]
pub enum PTYPE {
    PT_NULL,
    PT_LOAD,
    PT_DYNAMIC,
    PT_INTERP,
    PT_NOTE,
    PT_SHLIB,
    PT_PHDR,
    PT_TLS,
    PT_LOOS,
    PT_HIOS,
    PT_LOPROC,
    PT_HIPROC,
    PT_GNU_EH_FRAME,
    PT_GNU_STACK,
    PT_GNU_RELRO,
    Unrecognized(u32),
}

impl PTYPE {
    /// The segment type a raw 32-bit field value stands for.
    pub open spec fn spec_from_u32(v: u32) -> PTYPE {
        if v == 0 {
            PTYPE::PT_NULL
        } else if v == 1 {
            PTYPE::PT_LOAD
        } else if v == 2 {
            PTYPE::PT_DYNAMIC
        } else if v == 3 {
            PTYPE::PT_INTERP
        } else if v == 4 {
            PTYPE::PT_NOTE
        } else if v == 5 {
            PTYPE::PT_SHLIB
        } else if v == 6 {
            PTYPE::PT_PHDR
        } else if v == 7 {
            PTYPE::PT_TLS
        } else if v == 0x60000000 {
            PTYPE::PT_LOOS
        } else if v == 0x6FFFFFFF {
            PTYPE::PT_HIOS
        } else if v == 0x70000000 {
            PTYPE::PT_LOPROC
        } else if v == 0x7FFFFFFF {
            PTYPE::PT_HIPROC
        } else if v == 0x6474e550 {
            PTYPE::PT_GNU_EH_FRAME
        } else if v == 0x6474e551 {
            PTYPE::PT_GNU_STACK
        } else if v == 0x6474e552 {
            PTYPE::PT_GNU_RELRO
        } else {
            PTYPE::Unrecognized(v)
        }
    }

    /// Decodes a raw segment-type number. Total: never an error.
    pub fn from_u32(v: u32) -> (r: PTYPE)
        ensures
            r == PTYPE::spec_from_u32(v),
    {
        match v {
            0 => PTYPE::PT_NULL,
            1 => PTYPE::PT_LOAD,
            2 => PTYPE::PT_DYNAMIC,
            3 => PTYPE::PT_INTERP,
            4 => PTYPE::PT_NOTE,
            5 => PTYPE::PT_SHLIB,
            6 => PTYPE::PT_PHDR,
            7 => PTYPE::PT_TLS,
            0x60000000 => PTYPE::PT_LOOS,
            0x6FFFFFFF => PTYPE::PT_HIOS,
            0x70000000 => PTYPE::PT_LOPROC,
            0x7FFFFFFF => PTYPE::PT_HIPROC,
            0x6474e550 => PTYPE::PT_GNU_EH_FRAME,
            0x6474e551 => PTYPE::PT_GNU_STACK,
            0x6474e552 => PTYPE::PT_GNU_RELRO,
            _ => PTYPE::Unrecognized(v),
        }
    }
}

/// Object-file type. Open set.
#[allow(non_camel_case_types)]
#[derive(Clone, Copy, Debug, PartialEq, Eq, Structural)]
pub enum ETYPE {
    ET_NONE,
    ET_REL,
    ET_EXEC,
    ET_DYN,
    ET_CORE,
    ET_LOOS,
    ET_HIOS,
    ET_LOPROC,
    ET_HIPROC,
    Unrecognized(u16),
}

impl ETYPE {
    /// The object-file type a raw 16-bit field value stands for.
    pub open spec fn spec_from_u16(v: u16) -> ETYPE {
        if v == 0 {
            ETYPE::ET_NONE
        } else if v == 1 {
            ETYPE::ET_REL
        } else if v == 2 {
            ETYPE::ET_EXEC
        } else if v == 3 {
            ETYPE::ET_DYN
        } else if v == 4 {
            ETYPE::ET_CORE
        } else if v == 5 {
            ETYPE::ET_LOOS
        } else if v == 0xFE00 {
            ETYPE::ET_HIOS
        } else if v == 0xFF00 {
            ETYPE::ET_LOPROC
        } else if v == 0xFFFF {
            ETYPE::ET_HIPROC
        } else {
            ETYPE::Unrecognized(v)
        }
    }

    /// Decodes a raw object-file-type number. Total: never an error.
    pub fn from_u16(v: u16) -> (r: ETYPE)
        ensures
            r == ETYPE::spec_from_u16(v),
    {
        match v {
            0 => ETYPE::ET_NONE,
            1 => ETYPE::ET_REL,
            2 => ETYPE::ET_EXEC,
            3 => ETYPE::ET_DYN,
            4 => ETYPE::ET_CORE,
            5 => ETYPE::ET_LOOS,
            0xFE00 => ETYPE::ET_HIOS,
            0xFF00 => ETYPE::ET_LOPROC,
            0xFFFF => ETYPE::ET_HIPROC,
            _ => ETYPE::Unrecognized(v),
        }
    }
}

/// OS ABI identification. Open set.
#[allow(non_camel_case_types)]
#[derive(Clone, Copy, Debug, PartialEq, Eq, Structural)]
pub enum EIOSABI {
    SystemV,
    HPUX,
    NetBSD,
    Linux,
    GNUHurd,
    Solaris,
    AIX,
    IRIX,
    FreeBSD,
    Tru64,
    NovellModesto,
    OpenBSD,
    OpenVMS,
    NonStopKernel,
    AROS,
    FenixOS,
    NuxiCloudABI,
    StratusTechnologiesOpenVOS,
    Unrecognized(u8),
}

impl EIOSABI {
    /// The OS ABI a raw byte value stands for.
    pub open spec fn spec_from_u8(v: u8) -> EIOSABI {
        if v == 0 {
            EIOSABI::SystemV
        } else if v == 1 {
            EIOSABI::HPUX
        } else if v == 2 {
            EIOSABI::NetBSD
        } else if v == 3 {
            EIOSABI::Linux
        } else if v == 4 {
            EIOSABI::GNUHurd
        } else if v == 5 {
            EIOSABI::Solaris
        } else if v == 6 {
            EIOSABI::AIX
        } else if v == 7 {
            EIOSABI::IRIX
        } else if v == 8 {
            EIOSABI::FreeBSD
        } else if v == 9 {
            EIOSABI::Tru64
        } else if v == 10 {
            EIOSABI::NovellModesto
        } else if v == 11 {
            EIOSABI::OpenBSD
        } else if v == 12 {
            EIOSABI::OpenVMS
        } else if v == 13 {
            EIOSABI::NonStopKernel
        } else if v == 14 {
            EIOSABI::AROS
        } else if v == 15 {
            EIOSABI::FenixOS
        } else if v == 16 {
            EIOSABI::NuxiCloudABI
        } else if v == 17 {
            EIOSABI::StratusTechnologiesOpenVOS
        } else {
            EIOSABI::Unrecognized(v)
        }
    }

    /// Decodes a raw OS-ABI byte. Total: never an error.
    pub fn from_u8(v: u8) -> (r: EIOSABI)
        ensures
            r == EIOSABI::spec_from_u8(v),
    {
        match v {
            0 => EIOSABI::SystemV,
            1 => EIOSABI::HPUX,
            2 => EIOSABI::NetBSD,
            3 => EIOSABI::Linux,
            4 => EIOSABI::GNUHurd,
            5 => EIOSABI::Solaris,
            6 => EIOSABI::AIX,
            7 => EIOSABI::IRIX,
            8 => EIOSABI::FreeBSD,
            9 => EIOSABI::Tru64,
            10 => EIOSABI::NovellModesto,
            11 => EIOSABI::OpenBSD,
            12 => EIOSABI::OpenVMS,
            13 => EIOSABI::NonStopKernel,
            14 => EIOSABI::AROS,
            15 => EIOSABI::FenixOS,
            16 => EIOSABI::NuxiCloudABI,
            17 => EIOSABI::StratusTechnologiesOpenVOS,
            _ => EIOSABI::Unrecognized(v),
        }
    }
}

/// The header as read from the file: the entry point and the two table
/// offsets are kept as raw byte sequences whose width the class byte fixed
/// (4 bytes for class 1, 8 bytes for class 2).
#[derive(Debug)]
pub struct ElfHeader {
    pub magic: [u8; 4],
    pub ei_class: u8,
    pub ei_version: u8,
    pub ei_data: u8,
    pub ei_osabi: EIOSABI,
    pub ei_abiversion: u8,
    pub ei_pad: [u8; 7],
    pub e_type: ETYPE,
    pub e_machine: u16,
    pub e_version: u32,
    pub e_entry: Vec<u8>,
    pub e_phoff: Vec<u8>,
    pub e_shoff: Vec<u8>,
    pub e_flags: u32,
    pub e_ehsize: u16,
    pub e_phentsize: u16,
    pub e_phnum: u16,
    pub e_shentsize: u16,
    pub e_shnum: u16,
    pub e_shstrndx: u16,
}

/// The normalized header: every class-dependent field widened to 64 bits.
#[derive(Clone, Copy, Debug)]
pub struct ElfHeader64 {
    pub magic: [u8; 4],
    pub ei_class: u8,
    pub ei_version: u8,
    pub ei_data: u8,
    pub ei_osabi: EIOSABI,
    pub ei_abiversion: u8,
    pub ei_pad: [u8; 7],
    pub e_type: ETYPE,
    pub e_machine: u16,
    pub e_version: u32,
    pub e_entry: u64,
    pub e_phoff: u64,
    pub e_shoff: u64,
    pub e_flags: u32,
    pub e_ehsize: u16,
    pub e_phentsize: u16,
    pub e_phnum: u16,
    pub e_shentsize: u16,
    pub e_shnum: u16,
    pub e_shstrndx: u16,
}

/// One program-header (segment) record of a 64-bit-class file.
#[derive(Clone, Copy, Debug, PartialEq, Eq, Structural)]
pub struct ProgramHeader64 {
    pub p_type: PTYPE,
    pub p_flags: i32,
    pub p_offset: u64,
    pub p_vaddr: u64,
    pub p_paddr: u64,
    pub p_filesz: u64,
    pub p_memsz: u64,
    pub p_align: u64,
}

/// One section-header record of a 64-bit-class file.
#[derive(Clone, Copy, Debug, PartialEq, Eq, Structural)]
pub struct SectionHeader64 {
    pub sh_name: u32,
    pub sh_type: SHTYPE,
    pub sh_flags: u64,
    pub sh_addr: u64,
    pub sh_offset: u64,
    pub sh_size: u64,
    pub sh_link: u32,
    pub sh_info: u32,
    pub sh_addralign: u64,
    pub sh_entsize: u64,
}

/// One section-header record of a 32-bit-class file.
#[derive(Clone, Copy, Debug, PartialEq, Eq, Structural)]
pub struct SectionHeader32 {
    pub sh_name: u32,
    pub sh_type: SHTYPE,
    pub sh_flags: u32,
    pub sh_addr: u32,
    pub sh_size: u32,
    pub sh_link: u32,
    pub sh_info: u32,
    pub sh_addralign: u32,
    pub sh_entsize: u32,
}

impl ElfHeader {
    /// Bytes each class-dependent field occupies: 4 under class 1, 8 under
    /// class 2.
    pub open spec fn class_width(self) -> int {
        4 * self.ei_class as int
    }

    /// A fully decoded raw header: the class is one of the two defined
    /// values and each variable-width field holds exactly the bytes that
    /// class dictates.
    pub open spec fn wf(self) -> bool {
        &&& (self.ei_class == 1 || self.ei_class == 2)
        &&& self.e_entry@.len() == self.class_width()
        &&& self.e_phoff@.len() == self.class_width()
        &&& self.e_shoff@.len() == self.class_width()
    }

    /// Normalizes the raw header: each variable-width byte sequence is read
    /// as an unsigned little-endian integer and widened to 64 bits (for
    /// class 1 that is a zero-extension of the 32-bit value); every other
    /// field copies through unchanged.
    pub fn convert64(&self) -> (r: Result<ElfHeader64, DecodeError>)
        requires
            self.wf(),
        ensures
            r is Ok,
            r matches Ok(h) ==> {
                &&& h.e_entry as nat == le_val(self.e_entry@)
                &&& h.e_phoff as nat == le_val(self.e_phoff@)
                &&& h.e_shoff as nat == le_val(self.e_shoff@)
                &&& (self.ei_class == 1 ==> h.e_entry < 0x1_0000_0000 && h.e_phoff
                    < 0x1_0000_0000 && h.e_shoff < 0x1_0000_0000)
                &&& h.magic@ == self.magic@
                &&& h.ei_class == self.ei_class
                &&& h.ei_version == self.ei_version
                &&& h.ei_data == self.ei_data
                &&& h.ei_osabi == self.ei_osabi
                &&& h.ei_abiversion == self.ei_abiversion
                &&& h.ei_pad@ == self.ei_pad@
                &&& h.e_type == self.e_type
                &&& h.e_machine == self.e_machine
                &&& h.e_version == self.e_version
                &&& h.e_flags == self.e_flags
                &&& h.e_ehsize == self.e_ehsize
                &&& h.e_phentsize == self.e_phentsize
                &&& h.e_phnum == self.e_phnum
                &&& h.e_shentsize == self.e_shentsize
                &&& h.e_shnum == self.e_shnum
                &&& h.e_shstrndx == self.e_shstrndx
            },
    {
        let entry: u64 = self.read_wide_field(&self.e_entry);
        let e_phoff: u64 = self.read_wide_field(&self.e_phoff);
        let e_shoff: u64 = self.read_wide_field(&self.e_shoff);
        let header: ElfHeader64 = ElfHeader64 {
            magic: self.magic,
            ei_class: self.ei_class,
            ei_version: self.ei_version,
            ei_data: self.ei_data,
            ei_osabi: self.ei_osabi,
            ei_abiversion: self.ei_abiversion,
            ei_pad: self.ei_pad,
            e_type: self.e_type,
            e_machine: self.e_machine,
            e_version: self.e_version,
            e_entry: entry,
            e_phoff: e_phoff,
            e_shoff: e_shoff,
            e_flags: self.e_flags,
            e_ehsize: self.e_ehsize,
            e_phentsize: self.e_phentsize,
            e_phnum: self.e_phnum,
            e_shentsize: self.e_shentsize,
            e_shnum: self.e_shnum,
            e_shstrndx: self.e_shstrndx,
        };
        Ok(header)
    }

    /// Reads one variable-width field of this header as a little-endian
    /// integer, widened to 64 bits.
    fn read_wide_field(&self, field: &Vec<u8>) -> (r: u64)
        requires
            self.wf(),
            field@.len() == self.class_width(),
        ensures
            r as nat == le_val(field@),
            self.ei_class == 1 ==> r < 0x1_0000_0000,
    {
        let n: usize = field.len();
        let r: u64 = read_le(field.as_slice(), 0, n);
        proof {
            assert(field@.subrange(0, n as int) =~= field@);
            lemma_le_val_bound(field@);
            lemma_pow256_values();
        }
        r
    }
}

} // verus!
