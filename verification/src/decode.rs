//! Little-endian byte decoding: the mathematical meaning of a byte sequence
//! and an executable reader proved against it.

use vstd::prelude::*;

verus! {

/// Why a decode could not be completed. Decoding never rejects a field
/// value; only the shape of the input can fail it.
#[derive(Clone, Copy, Debug, PartialEq, Eq, Structural)]
pub enum DecodeError {
    /// The source did not hold the requested number of bytes.
    Insufficient,
    /// The whole source was scanned without finding the ELF signature.
    NoSignature,
    /// The class byte named neither of the two defined classes, so the
    /// width of the remaining header fields is not defined.
    UnsupportedClass,
}

/// The value of a byte sequence read as an unsigned little-endian integer:
/// the first byte is the least significant.
pub open spec fn le_val(s: Seq<u8>) -> nat
    decreases s.len(),
{
    if s.len() == 0 {
        0
    } else {
        s[0] as nat + 256 * le_val(s.subrange(1, s.len() as int))
    }
}

/// 256 raised to the `k`-th power: the number of values `k` bytes can take.
pub open spec fn pow256(k: nat) -> nat
    decreases k,
{
    if k == 0 {
        1
    } else {
        256 * pow256((k - 1) as nat)
    }
}

/// A sequence of `k` bytes always decodes to a value below `pow256(k)`.
pub proof fn lemma_le_val_bound(s: Seq<u8>)
    ensures
        le_val(s) < pow256(s.len()),
    decreases s.len(),
{
    if s.len() == 0 {
    } else {
        lemma_le_val_bound(s.subrange(1, s.len() as int));
    }
}

/// `pow256` of the byte counts this library reads, as concrete numbers.
pub proof fn lemma_pow256_values()
    ensures
        pow256(0) == 1,
        pow256(1) == 0x100,
        pow256(2) == 0x1_0000,
        pow256(3) == 0x100_0000,
        pow256(4) == 0x1_0000_0000,
        pow256(5) == 0x100_0000_0000,
        pow256(6) == 0x1_0000_0000_0000,
        pow256(7) == 0x100_0000_0000_0000,
        pow256(8) == 0x1_0000_0000_0000_0000,
{
    assert(pow256(0) == 1);
    assert(pow256(1) == 0x100);
    assert(pow256(2) == 0x1_0000);
    assert(pow256(3) == 0x100_0000);
    assert(pow256(4) == 0x1_0000_0000);
    assert(pow256(5) == 0x100_0000_0000);
    assert(pow256(6) == 0x1_0000_0000_0000);
    assert(pow256(7) == 0x100_0000_0000_0000);
    assert(pow256(8) == 0x1_0000_0000_0000_0000);
}

/// Reads `n` bytes at `pos` as an unsigned little-endian integer.
pub fn read_le(data: &[u8], pos: usize, n: usize) -> (r: u64)
    requires
        n <= 8,
        pos + n <= data@.len(),
    ensures
        r as nat == le_val(data@.subrange(pos as int, pos as int + n as int)),
{
    let dlen: usize = data.len();
    let mut acc: u64 = 0;
    let mut i: usize = n;
    while i > 0
        invariant
            i <= n,
            n <= 8,
            pos + n <= dlen,
            dlen == data@.len(),
            acc as nat == le_val(data@.subrange(pos as int + i as int, pos as int + n as int)),
        decreases i,
    {
        let ghost prev = data@.subrange(pos as int + i as int, pos as int + n as int);
        i = i - 1;
        let ghost cur = data@.subrange(pos as int + i as int, pos as int + n as int);
        proof {
            assert(cur.subrange(1, cur.len() as int) =~= prev);
            lemma_le_val_bound(prev);
            lemma_pow256_values();
            assert(pow256(prev.len()) <= pow256(7)) by {
                lemma_pow256_increases(prev.len(), 7);
            }
        }
        acc = acc * 256 + (data[pos + i] as u64);
    }
    proof {
        assert(data@.subrange(pos as int, pos as int + n as int) =~= data@.subrange(
            pos as int + 0,
            pos as int + n as int,
        ));
    }
    acc
}

/// Reads a little-endian 16-bit field at `pos`.
pub fn read_u16(data: &[u8], pos: usize) -> (r: u16)
    requires
        pos + 2 <= data@.len(),
    ensures
        r as nat == le_val(data@.subrange(pos as int, pos as int + 2)),
{
    let v: u64 = read_le(data, pos, 2);
    proof {
        lemma_le_val_bound(data@.subrange(pos as int, pos as int + 2));
        lemma_pow256_values();
    }
    v as u16
}

/// Reads a little-endian 32-bit field at `pos`.
pub fn read_u32(data: &[u8], pos: usize) -> (r: u32)
    requires
        pos + 4 <= data@.len(),
    ensures
        r as nat == le_val(data@.subrange(pos as int, pos as int + 4)),
{
    let v: u64 = read_le(data, pos, 4);
    proof {
        lemma_le_val_bound(data@.subrange(pos as int, pos as int + 4));
        lemma_pow256_values();
    }
    v as u32
}

/// Reads a little-endian 64-bit field at `pos`.
pub fn read_u64(data: &[u8], pos: usize) -> (r: u64)
    requires
        pos + 8 <= data@.len(),
    ensures
        r as nat == le_val(data@.subrange(pos as int, pos as int + 8)),
{
    read_le(data, pos, 8)
}

/// `pow256` grows with its exponent.
pub proof fn lemma_pow256_increases(a: nat, b: nat)
    requires
        a <= b,
    ensures
        pow256(a) <= pow256(b),
    decreases b,
{
    if a < b {
        lemma_pow256_increases(a, (b - 1) as nat);
        assert(pow256(b) == 256 * pow256((b - 1) as nat));
    }
}

/// Copies `n` bytes starting at `start` into a fresh vector.
pub fn copy_bytes(data: &[u8], start: usize, n: usize) -> (r: Vec<u8>)
    requires
        start + n <= data@.len(),
    ensures
        r@ == data@.subrange(start as int, start as int + n as int),
{
    let dlen: usize = data.len();
    let mut r: Vec<u8> = Vec::new();
    let mut i: usize = 0;
    while i < n
        invariant
            i <= n,
            start + n <= dlen,
            dlen == data@.len(),
            r@ == data@.subrange(start as int, start as int + i as int),
        decreases n - i,
    {
        let ghost old_r = r@;
        r.push(data[start + i]);
        i = i + 1;
        proof {
            assert(r@ =~= data@.subrange(start as int, start as int + i as int));
        }
    }
    r
}

} // verus!
