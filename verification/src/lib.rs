//! A minimal ELF program loader, verified.
//!
//! The library decodes ELF headers and program-header tables from in-memory
//! bytes, normalizes the class-dependent fields to one 64-bit-wide
//! representation, and turns loadable segments into mapping requests.
//! Everything that touches the operating system (file reads, `mmap`, process
//! creation, the final jump to the entry point) lives outside the library and
//! consumes the plans computed here.

pub mod decode;
pub mod elf_handler;
pub mod loader;
pub mod parse;
