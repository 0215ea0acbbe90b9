//! Byte-buffer helpers used by the checks.

use vstd::prelude::*;

verus! {

/// Compares two byte buffers.
pub fn bytes_eq(a: &[u8], b: &[u8]) -> (r: bool)
    ensures
        r == (a@ == b@),
{
    if a.len() != b.len() {
        return false;
    }
    let mut i: usize = 0;
    while i < a.len()
        invariant
            a.len() == b.len(),
            i <= a.len(),
            forall|j: int| 0 <= j < i ==> a@[j] == b@[j],
        decreases a.len() - i,
    {
        if a[i] != b[i] {
            assert(a@[i as int] != b@[i as int]);
            return false;
        }
        i = i + 1;
    }
    assert(a@ =~= b@);
    true
}

/// Finds the first NUL byte of `b`.
pub fn nul_position(b: &[u8]) -> (r: Option<usize>)
    ensures
        match r {
            Some(i) => i < b@.len() && b@[i as int] == 0 && forall|j: int| 0 <= j < i ==> b@[j] != 0,
            None => forall|j: int| 0 <= j < b@.len() ==> b@[j] != 0,
        },
{
    let mut i: usize = 0;
    while i < b.len()
        invariant
            i <= b.len(),
            forall|j: int| 0 <= j < i ==> b@[j] != 0,
        decreases b.len() - i,
    {
        if b[i] == 0 {
            return Some(i);
        }
        i = i + 1;
    }
    None
}

/// Whether some byte of `b` is nonzero.
pub fn any_nonzero(b: &[u8]) -> (r: bool)
    ensures
        r == exists|i: int| 0 <= i < b@.len() && b@[i] != 0,
{
    let mut i: usize = 0;
    while i < b.len()
        invariant
            i <= b.len(),
            forall|j: int| 0 <= j < i ==> b@[j] == 0,
        decreases b.len() - i,
    {
        if b[i] != 0 {
            assert(b@[i as int] != 0);
            return true;
        }
        i = i + 1;
    }
    false
}

/// The unsigned number whose little-endian bytes are `b[0..4]`.
pub open spec fn le_u32(b: Seq<u8>) -> int {
    b[0] + 256 * b[1] + 65536 * b[2] + 16777216 * b[3]
}

/// Reads a native-endian (little-endian on x86-64) `i32`.
pub fn i32_from_ne_bytes(b: [u8; 4]) -> (r: i32)
    ensures
        r == le_u32(b@) as i32,
{
    let v: u32 = b[0] as u32 + (b[1] as u32) * 256 + (b[2] as u32) * 65536 + (b[3] as u32) * 16777216;
    v as i32
}

/// The unsigned number whose little-endian bytes are `b[0..8]`.
pub open spec fn le_u64(b: Seq<u8>) -> int {
    le_u32(b) + 4294967296 * le_u32(b.subrange(4, 8))
}

/// Reads a native-endian (little-endian on x86-64) `u64`.
pub fn u64_from_ne_bytes(b: [u8; 8]) -> (r: u64)
    ensures
        r == le_u64(b@),
{
    let lo: u64 = b[0] as u64 + (b[1] as u64) * 256 + (b[2] as u64) * 65536 + (b[3] as u64) * 16777216;
    let hi: u64 = b[4] as u64 + (b[5] as u64) * 256 + (b[6] as u64) * 65536 + (b[7] as u64) * 16777216;
    assert(b@.subrange(4, 8)[0] == b[4] && b@.subrange(4, 8)[1] == b[5]
        && b@.subrange(4, 8)[2] == b[6] && b@.subrange(4, 8)[3] == b[7]);
    lo + hi * 4294967296
}

/// The test pattern of `n` bytes cycling through 'A'..='Z'.
pub open spec fn alphabet_pattern(n: nat) -> Seq<u8> {
    Seq::new(n, |i: int| (65 + i % 26) as u8)
}

/// Builds `alphabet_pattern(n)`.
pub fn make_alphabet_pattern(n: usize) -> (v: Vec<u8>)
    ensures
        v@ == alphabet_pattern(n as nat),
{
    let mut v: Vec<u8> = Vec::new();
    let mut i: usize = 0;
    while i < n
        invariant
            i <= n,
            v@.len() == i,
            forall|j: int| 0 <= j < i ==> v@[j] == (65 + j % 26) as u8,
        decreases n - i,
    {
        v.push(65u8 + (i % 26) as u8);
        i = i + 1;
    }
    assert(v@ =~= alphabet_pattern(n as nat));
    v
}

} // verus!
