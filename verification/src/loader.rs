//! Turning program-header entries into mapping requests.
//!
//! The functions here decide, for each entry of the program-header table,
//! what memory mapping a launch asks for: its address, length, access
//! rights and backing. Performing the mappings, building the stack and
//! jumping to the entry point are operating-system actions that consume
//! these plans outside the library.

use vstd::arithmetic::div_mod::{lemma_fundamental_div_mod, lemma_mod_multiples_basic};
use vstd::prelude::*;

use crate::decode::copy_bytes;
use crate::elf_handler::{ProgramHeader64, PTYPE};

verus! {

/// Bytes reserved for the synthesized stack mapping.
pub const STACK_SIZE: u64 = 81920;

/// Safety reserve kept between the top of the stack mapping and the
/// initial stack pointer.
pub const STACK_RESERVE: u64 = 100;

/// What backs a requested mapping.
#[derive(Clone, Copy, Debug, PartialEq, Eq, Structural)]
pub enum MappingBacking {
    /// Private copy-on-write view of the file from `file_offset` on.
    FileBacked { file_offset: u64 },
    /// Anonymous zero-filled memory into which the first `copy_len` bytes
    /// of the file, starting at `file_offset`, are copied.
    AnonymousZero { file_offset: u64, copy_len: u64 },
    /// Anonymous zero-filled, growable stack memory; the address is a hint
    /// the system may ignore.
    Stack,
}

/// One memory mapping a launch asks for.
#[derive(Clone, Copy, Debug, PartialEq, Eq, Structural)]
pub struct MappingRequest {
    pub addr: u64,
    pub length: u64,
    pub prot_read: bool,
    pub prot_write: bool,
    pub prot_exec: bool,
    pub backing: MappingBacking,
}

/// The segment's permission field grants read access.
pub open spec fn flag_read(f: i32) -> bool {
    (f as u32) & 4 != 0
}

/// The segment's permission field grants write access.
pub open spec fn flag_write(f: i32) -> bool {
    (f as u32) & 2 != 0
}

/// The segment's permission field grants execute access.
pub open spec fn flag_exec(f: i32) -> bool {
    (f as u32) & 1 != 0
}

/// The mapping one program-header entry calls for:
/// - `PT_LOAD` or `PT_PHDR` with `filesz == memsz`: a private file-backed
///   mapping at the segment's address of exactly `memsz` bytes;
/// - `PT_LOAD` with a BSS tail (`filesz != memsz`): an anonymous
///   zero-filled mapping at the segment's address of twice `memsz` bytes,
///   with the `filesz`-byte file prefix copied in;
/// - `PT_GNU_STACK`: an anonymous read/write stack of `STACK_SIZE` bytes;
/// - anything else: no mapping.
pub open spec fn spec_plan(ph: ProgramHeader64) -> Option<MappingRequest> {
    if (ph.p_type == PTYPE::PT_LOAD || ph.p_type == PTYPE::PT_PHDR) && ph.p_filesz
        == ph.p_memsz {
        Some(
            MappingRequest {
                addr: ph.p_vaddr,
                length: ph.p_memsz,
                prot_read: flag_read(ph.p_flags),
                prot_write: flag_write(ph.p_flags),
                prot_exec: flag_exec(ph.p_flags),
                backing: MappingBacking::FileBacked { file_offset: ph.p_offset },
            },
        )
    } else if ph.p_type == PTYPE::PT_LOAD {
        Some(
            MappingRequest {
                addr: ph.p_vaddr,
                length: (2 * ph.p_memsz) as u64,
                prot_read: flag_read(ph.p_flags),
                prot_write: flag_write(ph.p_flags),
                prot_exec: flag_exec(ph.p_flags),
                backing: MappingBacking::AnonymousZero {
                    file_offset: ph.p_offset,
                    copy_len: ph.p_filesz,
                },
            },
        )
    } else if ph.p_type == PTYPE::PT_GNU_STACK {
        Some(
            MappingRequest {
                addr: 0,
                length: STACK_SIZE,
                prot_read: true,
                prot_write: true,
                prot_exec: false,
                backing: MappingBacking::Stack,
            },
        )
    } else {
        None
    }
}

/// Decides the mapping for one program-header entry, in the sense of
/// `spec_plan`. Entries of any other type ask for nothing and are never an
/// error.
pub fn plan_segment(ph: &ProgramHeader64) -> (r: Option<MappingRequest>)
    requires
        ph.p_type == PTYPE::PT_LOAD && ph.p_filesz != ph.p_memsz ==> ph.p_memsz <= u64::MAX / 2,
    ensures
        r == spec_plan(*ph),
{
    let f: i32 = ph.p_flags;
    let prot_read = #[verifier::truncate] (f as u32) & 4 != 0;
    let prot_write = #[verifier::truncate] (f as u32) & 2 != 0;
    let prot_exec = #[verifier::truncate] (f as u32) & 1 != 0;
    if (ph.p_type == PTYPE::PT_LOAD || ph.p_type == PTYPE::PT_PHDR) && ph.p_filesz
        == ph.p_memsz {
        Some(
            MappingRequest {
                addr: ph.p_vaddr,
                length: ph.p_memsz,
                prot_read,
                prot_write,
                prot_exec,
                backing: MappingBacking::FileBacked { file_offset: ph.p_offset },
            },
        )
    } else if ph.p_type == PTYPE::PT_LOAD {
        Some(
            MappingRequest {
                addr: ph.p_vaddr,
                length: 2 * ph.p_memsz,
                prot_read,
                prot_write,
                prot_exec,
                backing: MappingBacking::AnonymousZero {
                    file_offset: ph.p_offset,
                    copy_len: ph.p_filesz,
                },
            },
        )
    } else if ph.p_type == PTYPE::PT_GNU_STACK {
        Some(
            MappingRequest {
                addr: 0,
                length: STACK_SIZE,
                prot_read: true,
                prot_write: true,
                prot_exec: false,
                backing: MappingBacking::Stack,
            },
        )
    } else {
        None
    }
}

/// `a` rounded down to a multiple of `align`; alignments of 0 or 1 round
/// nothing.
pub open spec fn align_down(a: int, align: int) -> int {
    if align <= 1 {
        a
    } else {
        a - (a % align)
    }
}

/// The initial stack pointer for a stack mapping that came back at `base`:
/// the mapping's top minus the safety reserve, rounded down to the
/// segment's declared alignment.
pub open spec fn spec_stack_pointer(base: u64, align: u64) -> int {
    align_down(base + STACK_SIZE - STACK_RESERVE, align as int)
}

/// Computes the initial stack pointer from the address the stack mapping
/// actually came back at and the declared alignment.
pub fn stack_pointer(base: u64, align: u64) -> (r: u64)
    requires
        base + STACK_SIZE <= u64::MAX,
    ensures
        r == spec_stack_pointer(base, align),
        align > 1 ==> r % align == 0,
        r <= base + STACK_SIZE - STACK_RESERVE,
{
    let top_off: u64 = base + (STACK_SIZE - STACK_RESERVE);
    if align <= 1 {
        top_off
    } else {
        let m: u64 = top_off % align;
        proof {
            let q = top_off as int / align as int;
            lemma_fundamental_div_mod(top_off as int, align as int);
            lemma_mod_multiples_basic(q, align as int);
            assert(top_off as int - m as int == q * (align as int));
            assert((q * (align as int)) % (align as int) == 0);
        }
        top_off - m
    }
}

/// The bytes a mapped region holds right after it is set up, as a function
/// of the request and the file's bytes: a file-backed mapping shows the
/// file, an anonymous mapping shows the copied file prefix followed by
/// zeros, a stack mapping is all zeros.
pub open spec fn spec_initial_contents(req: MappingRequest, file: Seq<u8>) -> Seq<u8> {
    match req.backing {
        MappingBacking::FileBacked { file_offset } => file.subrange(
            file_offset as int,
            file_offset + req.length,
        ),
        MappingBacking::AnonymousZero { file_offset, copy_len } => file.subrange(
            file_offset as int,
            file_offset + copy_len,
        ) + Seq::new((req.length - copy_len) as nat, |i: int| 0u8),
        MappingBacking::Stack => Seq::new(req.length as nat, |i: int| 0u8),
    }
}

/// Builds the bytes a mapped region holds right after it is set up, in the
/// sense of `spec_initial_contents`: what a launch's memory image starts
/// from, without performing any mapping.
pub fn initial_contents(req: &MappingRequest, file: &[u8]) -> (r: Vec<u8>)
    requires
        match req.backing {
            MappingBacking::FileBacked { file_offset } => file_offset + req.length
                <= file@.len(),
            MappingBacking::AnonymousZero { file_offset, copy_len } => file_offset + copy_len
                <= file@.len() && copy_len <= req.length,
            MappingBacking::Stack => true,
        },
        req.length <= usize::MAX,
    ensures
        r@ == spec_initial_contents(*req, file@),
{
    // Binding the length shows the solver that the offsets below fit in a
    // machine word.
    let flen: usize = file.len();
    let length: usize = req.length as usize;
    match req.backing {
        MappingBacking::FileBacked { file_offset } => {
            copy_bytes(file, file_offset as usize, length)
        },
        MappingBacking::AnonymousZero { file_offset, copy_len } => {
            let mut r = copy_bytes(file, file_offset as usize, copy_len as usize);
            zero_fill(&mut r, length);
            proof {
                assert(r@ =~= spec_initial_contents(*req, file@));
            }
            r
        },
        MappingBacking::Stack => {
            let mut r: Vec<u8> = Vec::new();
            zero_fill(&mut r, length);
            proof {
                assert(r@ =~= spec_initial_contents(*req, file@));
            }
            r
        },
    }
}

/// Appends zero bytes until `v` holds `length` bytes.
fn zero_fill(v: &mut Vec<u8>, length: usize)
    requires
        old(v)@.len() <= length,
    ensures
        final(v)@.len() == length,
        final(v)@.subrange(0, old(v)@.len() as int) == old(v)@,
        forall|i: int| old(v)@.len() <= i < length ==> final(v)@[i] == 0,
{
    while v.len() < length
        invariant
            old(v)@.len() <= v@.len() <= length,
            v@.subrange(0, old(v)@.len() as int) == old(v)@,
            forall|i: int| old(v)@.len() <= i < v@.len() ==> v@[i] == 0,
        decreases length - v@.len(),
    {
        v.push(0);
        proof {
            assert(v@.subrange(0, old(v)@.len() as int) =~= old(v)@);
        }
    }
}

/// For a loadable segment with a BSS tail (`filesz < memsz`), the plan asks
/// for an anonymous mapping of twice `memsz` bytes whose initial contents
/// are exactly the `filesz`-byte file prefix followed by zeros: every byte
/// from `filesz` up to the end of the mapping — in particular the whole of
/// `[filesz, memsz)` — starts as zero, with no explicit zeroing step.
pub proof fn lemma_load_tail_zero(ph: ProgramHeader64, file: Seq<u8>)
    requires
        ph.p_type == PTYPE::PT_LOAD,
        ph.p_filesz < ph.p_memsz,
        ph.p_memsz <= u64::MAX / 2,
        ph.p_offset + ph.p_filesz <= file.len(),
    ensures
        spec_plan(ph) matches Some(req) && {
            let contents = spec_initial_contents(req, file);
            &&& req.length == 2 * ph.p_memsz
            &&& contents.len() == req.length
            &&& forall|i: int| ph.p_filesz <= i < req.length ==> contents[i] == 0
            &&& forall|i: int|
                0 <= i < ph.p_filesz ==> contents[i] == file[ph.p_offset + i]
        },
{
    let req = spec_plan(ph).unwrap();
    let contents = spec_initial_contents(req, file);
    assert(contents.len() == req.length);
    let tail = Seq::new((req.length - ph.p_filesz) as nat, |j: int| 0u8);
    assert forall|i: int| ph.p_filesz <= i < req.length implies contents[i] == 0 by {
        assert(contents[i] == tail[i - ph.p_filesz]);
    }
}

} // verus!
