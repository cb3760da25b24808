//! Big-endian numbers and length-prefixed fields in a byte buffer.
//!
//! A dynamic field is two length bytes, big-endian, followed by that many
//! content bytes. Fixed-width numbers are big-endian at fixed offsets.

use vstd::prelude::*;
use vstd::slice::{slice_subrange, slice_to_vec};

verus! {

/// The width of the length prefix of a dynamic field.
pub const DYN_MIN_LEN: usize = 2;

/// The number that two bytes spell, most significant byte first.
pub open spec fn be_u16(s: Seq<u8>) -> int
    recommends
        s.len() == 2,
{
    s[0] * 0x100 + s[1]
}

/// The number that four bytes spell, most significant byte first.
pub open spec fn be_u32(s: Seq<u8>) -> int
    recommends
        s.len() == 4,
{
    s[0] * 0x100_0000 + s[1] * 0x1_0000 + s[2] * 0x100 + s[3]
}

/// The number that eight bytes spell, most significant byte first.
pub open spec fn be_u64(s: Seq<u8>) -> int
    recommends
        s.len() == 8,
{
    be_u32(s.subrange(0, 4)) * 0x1_0000_0000 + be_u32(s.subrange(4, 8))
}

/// The two bytes that spell `n`, most significant byte first.
pub open spec fn u16_be_bytes(n: int) -> Seq<u8>
    recommends
        0 <= n < 0x1_0000,
{
    seq![(n / 0x100) as u8, (n % 0x100) as u8]
}

/// The four bytes that spell `n`, most significant byte first.
pub open spec fn u32_be_bytes(n: int) -> Seq<u8>
    recommends
        0 <= n < 0x1_0000_0000,
{
    seq![
        (n / 0x100_0000) as u8,
        (n / 0x1_0000 % 0x100) as u8,
        (n / 0x100 % 0x100) as u8,
        (n % 0x100) as u8,
    ]
}

/// The eight bytes that spell `n`, most significant byte first.
pub open spec fn u64_be_bytes(n: int) -> Seq<u8>
    recommends
        0 <= n < 0x1_0000_0000_0000_0000,
{
    u32_be_bytes(n / 0x1_0000_0000) + u32_be_bytes(n % 0x1_0000_0000)
}

/// The eight bytes that spell `n`, least significant byte first.
pub open spec fn u64_le_bytes(n: int) -> Seq<u8>
    recommends
        0 <= n < 0x1_0000_0000_0000_0000,
{
    seq![
        (n % 0x100) as u8,
        (n / 0x100 % 0x100) as u8,
        (n / 0x1_0000 % 0x100) as u8,
        (n / 0x100_0000 % 0x100) as u8,
        (n / 0x1_0000_0000 % 0x100) as u8,
        (n / 0x100_0000_0000 % 0x100) as u8,
        (n / 0x1_0000_0000_0000 % 0x100) as u8,
        (n / 0x100_0000_0000_0000) as u8,
    ]
}

/// A dynamic field as it stands in a buffer: its length, then its content.
pub open spec fn dyn_encode(content: Seq<u8>) -> Seq<u8>
    recommends
        content.len() < 0x1_0000,
{
    u16_be_bytes(content.len() as int) + content
}

/// The length that the dynamic field at `start` declares for its content.
pub open spec fn dyn_len(data: Seq<u8>, start: int) -> int
    recommends
        0 <= start,
        start + 2 <= data.len(),
{
    be_u16(data.subrange(start, start + 2))
}

/// The offset just behind the dynamic field at `start`.
pub open spec fn dyn_end(data: Seq<u8>, start: int) -> int
    recommends
        0 <= start,
        start + 2 <= data.len(),
{
    start + 2 + dyn_len(data, start)
}

/// The content of the dynamic field at `start`, without its length bytes.
pub open spec fn dyn_content(data: Seq<u8>, start: int) -> Seq<u8>
    recommends
        0 <= start,
        dyn_end(data, start) <= data.len(),
{
    data.subrange(start + 2, dyn_end(data, start))
}

/// Whether the dynamic field at `start` lies within the buffer: its two length
/// bytes and all the content that they declare.
pub open spec fn dyn_fits(data: Seq<u8>, start: int) -> bool {
    &&& 0 <= start
    &&& start + 2 <= data.len()
    &&& dyn_end(data, start) <= data.len()
}

/// Reading back the two bytes of a number below 2^16 gives the number.
pub proof fn be_u16_of_bytes(n: int)
    requires
        0 <= n < 0x1_0000,
    ensures
        u16_be_bytes(n).len() == 2,
        be_u16(u16_be_bytes(n)) == n,
{
}

/// Reading back the four bytes of a number below 2^32 gives the number.
pub proof fn be_u32_of_bytes(n: int)
    requires
        0 <= n < 0x1_0000_0000,
    ensures
        u32_be_bytes(n).len() == 4,
        be_u32(u32_be_bytes(n)) == n,
{
}

/// Reading back the eight bytes of a number below 2^64 gives the number.
pub proof fn be_u64_of_bytes(n: int)
    requires
        0 <= n < 0x1_0000_0000_0000_0000,
    ensures
        u64_be_bytes(n).len() == 8,
        be_u64(u64_be_bytes(n)) == n,
{
    let hi = n / 0x1_0000_0000;
    let lo = n % 0x1_0000_0000;
    be_u32_of_bytes(hi);
    be_u32_of_bytes(lo);
    let s = u64_be_bytes(n);
    assert(s.subrange(0, 4) =~= u32_be_bytes(hi));
    assert(s.subrange(4, 8) =~= u32_be_bytes(lo));
}

/// The span of a dynamic field: its declared content length plus the two bytes
/// that declare it.
pub fn parse_dyn_vec_len(data: &[u8]) -> (size: usize)
    requires
        data@.len() == 2,
    ensures
        size == be_u16(data@) + DYN_MIN_LEN,
{
    let high: usize = data[0] as usize;
    let low: usize = data[1] as usize;
    high * 0x100 + low + DYN_MIN_LEN
}

/// Reads the dynamic field at `start`: its content and the offset just behind
/// it, or `None` where the buffer ends before the field does.
pub fn read_dyn_field(data: &[u8], start: usize) -> (field: Option<(Vec<u8>, usize)>)
    ensures
        field is Some <==> dyn_fits(data@, start as int),
        field matches Some((content, end)) ==> {
            &&& content@ == dyn_content(data@, start as int)
            &&& end == dyn_end(data@, start as int)
        },
{
    let len: usize = data.len();
    if len < DYN_MIN_LEN || start > len - DYN_MIN_LEN {
        return None;
    }
    let span: usize = parse_dyn_vec_len(slice_subrange(data, start, start + DYN_MIN_LEN));
    if span > len - start {
        return None;
    }
    let content: Vec<u8> = slice_to_vec(slice_subrange(data, start + DYN_MIN_LEN, start + span));
    Some((content, start + span))
}

/// The big-endian number in a slice of four bytes.
pub fn u32_from_slice(data: &[u8]) -> (n: u32)
    requires
        data@.len() == 4,
    ensures
        n == be_u32(data@),
{
    let b0: u32 = data[0] as u32;
    let b1: u32 = data[1] as u32;
    let b2: u32 = data[2] as u32;
    let b3: u32 = data[3] as u32;
    b0 * 0x100_0000 + b1 * 0x1_0000 + b2 * 0x100 + b3
}

/// The big-endian number in a slice of eight bytes.
pub fn u64_from_slice(data: &[u8]) -> (n: u64)
    requires
        data@.len() == 8,
    ensures
        n == be_u64(data@),
{
    let high: u64 = u32_from_slice(slice_subrange(data, 0, 4)) as u64;
    let low: u64 = u32_from_slice(slice_subrange(data, 4, 8)) as u64;
    high * 0x1_0000_0000 + low
}

/// The four bytes that spell a number, most significant byte first.
pub fn u32_to_be_bytes(n: u32) -> (bytes: Vec<u8>)
    ensures
        bytes@ == u32_be_bytes(n as int),
{
    let bytes: Vec<u8> = vec![
        (n / 0x100_0000) as u8,
        (n / 0x1_0000 % 0x100) as u8,
        (n / 0x100 % 0x100) as u8,
        (n % 0x100) as u8,
    ];
    assert(bytes@ =~= u32_be_bytes(n as int));
    bytes
}

/// The eight bytes that spell a number, least significant byte first.
pub fn u64_to_le_bytes(n: u64) -> (bytes: Vec<u8>)
    ensures
        bytes@ == u64_le_bytes(n as int),
{
    let bytes: Vec<u8> = vec![
        (n % 0x100) as u8,
        (n / 0x100 % 0x100) as u8,
        (n / 0x1_0000 % 0x100) as u8,
        (n / 0x100_0000 % 0x100) as u8,
        (n / 0x1_0000_0000 % 0x100) as u8,
        (n / 0x100_0000_0000 % 0x100) as u8,
        (n / 0x1_0000_0000_0000 % 0x100) as u8,
        (n / 0x100_0000_0000_0000) as u8,
    ];
    assert(bytes@ =~= u64_le_bytes(n as int));
    bytes
}

/// Whether two byte strings hold the same bytes.
pub fn bytes_eq(a: &[u8], b: &[u8]) -> (same: bool)
    ensures
        same == (a@ == b@),
{
    if a.len() != b.len() {
        return false;
    }
    let mut i: usize = 0;
    while i < a.len()
        invariant
            a@.len() == b@.len(),
            i <= a@.len(),
            forall|j: int| 0 <= j < i ==> a@[j] == b@[j],
        decreases a@.len() - i,
    {
        if a[i] != b[i] {
            return false;
        }
        i = i + 1;
    }
    assert(a@ =~= b@);
    true
}

} // verus!
