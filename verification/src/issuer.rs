//! The issuer record: `version:u8 | class_count:u32 | name_len:u16 | name`.

use vstd::prelude::*;
use vstd::slice::slice_subrange;
use crate::bytes::{
    be_u16_of_bytes, be_u32, be_u32_of_bytes, dyn_encode, dyn_fits, read_dyn_field,
    u16_be_bytes, u32_be_bytes, u32_from_slice,
};
use crate::error::Error;

verus! {

/// The bytes of an issuer record before its name.
pub const ISSUER_FIXED_LEN: usize = 5;

/// The shortest issuer record: the fixed part and an empty name.
pub const ISSUER_DATA_MIN_LEN: usize = 7;

/// The length of an issuer's type arguments: the first 20 bytes of a digest.
pub const ISSUER_TYPE_ARGS_LEN: usize = 20;

/// The payload of an issuer cell. The name that follows in the cell's data is
/// checked for its length and not kept.
#[derive(Debug, Clone, Copy, PartialEq, Eq, Structural)]
pub struct Issuer {
    pub version: u8,
    pub class_count: u32,
}

/// What decoding a buffer as an issuer record gives. A first byte other than
/// zero is refused before anything else is looked at; bytes behind the name
/// are ignored.
pub open spec fn issuer_decode(data: Seq<u8>) -> Result<Issuer, Error> {
    if data.len() > 0 && data[0] != 0 {
        Err(Error::VersionInvalid)
    } else if data.len() < ISSUER_DATA_MIN_LEN || !dyn_fits(data, 5) {
        Err(Error::IssuerDataInvalid)
    } else {
        Ok(Issuer { version: data[0], class_count: be_u32(data.subrange(1, 5)) as u32 })
    }
}

/// The bytes of an issuer record with the given name.
pub open spec fn issuer_encode(issuer: Issuer, name: Seq<u8>) -> Seq<u8> {
    seq![issuer.version] + u32_be_bytes(issuer.class_count as int) + dyn_encode(name)
}

/// Whether an issuer record can be written down: its version is zero and its
/// name is short enough for a length of two bytes.
pub open spec fn issuer_encodable(issuer: Issuer, name: Seq<u8>) -> bool {
    issuer.version == 0 && name.len() < 0x1_0000
}

impl Issuer {
    /// Decodes an issuer record from the data of its cell.
    pub fn from_data(data: &[u8]) -> (r: Result<Issuer, Error>)
        ensures
            r == issuer_decode(data@),
    {
        if data.len() > 0 && data[0] != 0 {
            return Err(Error::VersionInvalid);
        }
        if data.len() < ISSUER_DATA_MIN_LEN {
            return Err(Error::IssuerDataInvalid);
        }
        let version: u8 = data[0];
        let class_count: u32 = u32_from_slice(slice_subrange(data, 1, ISSUER_FIXED_LEN));
        match read_dyn_field(data, ISSUER_FIXED_LEN) {
            Some(_) => Ok(Issuer { version, class_count }),
            None => Err(Error::IssuerDataInvalid),
        }
    }
}

/// Decoding the bytes of an issuer record gives the record back, whatever
/// follows them in the buffer.
pub proof fn issuer_round_trip(issuer: Issuer, name: Seq<u8>, trailing: Seq<u8>)
    requires
        issuer_encodable(issuer, name),
    ensures
        issuer_decode(issuer_encode(issuer, name) + trailing) == Ok::<Issuer, Error>(issuer),
{
    let data = issuer_encode(issuer, name) + trailing;
    be_u32_of_bytes(issuer.class_count as int);
    be_u16_of_bytes(name.len() as int);
    assert(data.subrange(1, 5) =~= u32_be_bytes(issuer.class_count as int));
    assert(data.subrange(5, 7) =~= u16_be_bytes(name.len() as int));
}

/// An issuer record cut short at any byte is refused as invalid data.
pub proof fn issuer_truncated(issuer: Issuer, name: Seq<u8>, cut: int)
    requires
        issuer_encodable(issuer, name),
        0 <= cut < issuer_encode(issuer, name).len(),
    ensures
        issuer_decode(issuer_encode(issuer, name).take(cut)) == Err::<Issuer, Error>(
            Error::IssuerDataInvalid,
        ),
{
    let data = issuer_encode(issuer, name).take(cut);
    if cut >= 7 {
        be_u16_of_bytes(name.len() as int);
        assert(data.subrange(5, 7) =~= u16_be_bytes(name.len() as int));
    }
}

/// A buffer whose first byte is not zero is refused for its version, whatever
/// else it holds.
pub proof fn issuer_version_gate(data: Seq<u8>)
    requires
        data.len() > 0,
        data[0] != 0,
    ensures
        issuer_decode(data) == Err::<Issuer, Error>(Error::VersionInvalid),
{
}

} // verus!
