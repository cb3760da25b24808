//! The metadata record: `name_len:u16 | name | data_len:u16 | data`.

use vstd::prelude::*;
use crate::bytes::{
    be_u16_of_bytes, bytes_eq, dyn_content, dyn_encode, dyn_end, dyn_fits, read_dyn_field,
    u16_be_bytes,
};
use crate::error::Error;

verus! {

/// The bytes of a metadata record before its first dynamic field.
pub const METADATA_FIXED_LEN: usize = 0;

/// The shortest metadata record: two empty fields.
pub const METADATA_DATA_MIN_LEN: usize = 4;

/// The length of a metadata cell's type arguments: the first 20 bytes of a
/// digest.
pub const METADATA_TYPE_ARGS_LEN: usize = 20;

/// The payload of a metadata cell. Its name is fixed once written; its data
/// may change.
#[derive(Debug, Clone, PartialEq, Eq)]
pub struct Metadata {
    pub name: Vec<u8>,
    pub data: Vec<u8>,
}

/// A metadata record as a mathematical value.
pub struct MetadataView {
    pub name: Seq<u8>,
    pub data: Seq<u8>,
}

impl View for Metadata {
    type V = MetadataView;

    open spec fn view(&self) -> MetadataView {
        MetadataView { name: self.name@, data: self.data@ }
    }
}

/// What decoding a buffer as a metadata record gives. The record has no
/// version byte; bytes behind the data field are ignored.
pub open spec fn metadata_decode(raw: Seq<u8>) -> Result<MetadataView, Error> {
    if raw.len() < METADATA_DATA_MIN_LEN || !dyn_fits(raw, 0) || !dyn_fits(raw, dyn_end(raw, 0)) {
        Err(Error::MetadataDataInvalid)
    } else {
        Ok(
            MetadataView {
                name: dyn_content(raw, 0),
                data: dyn_content(raw, dyn_end(raw, 0)),
            },
        )
    }
}

/// The bytes of a metadata record.
pub open spec fn metadata_encode(metadata: MetadataView) -> Seq<u8> {
    dyn_encode(metadata.name) + dyn_encode(metadata.data)
}

/// Whether a metadata record can be written down: each field is short enough
/// for a length of two bytes.
pub open spec fn metadata_encodable(metadata: MetadataView) -> bool {
    metadata.name.len() < 0x1_0000 && metadata.data.len() < 0x1_0000
}

impl MetadataView {
    /// Whether two records agree in what may never change: the name.
    pub open spec fn immutable_equal(self, other: MetadataView) -> bool {
        self.name == other.name
    }
}

impl Metadata {
    /// Decodes a metadata record from the data of its cell.
    pub fn from_data(data_raw: &[u8]) -> (r: Result<Metadata, Error>)
        ensures
            match r {
                Ok(metadata) => metadata_decode(data_raw@) == Ok::<MetadataView, Error>(metadata@),
                Err(e) => metadata_decode(data_raw@) == Err::<MetadataView, Error>(e),
            },
    {
        if data_raw.len() < METADATA_DATA_MIN_LEN {
            return Err(Error::MetadataDataInvalid);
        }
        let (name, data_index) = match read_dyn_field(data_raw, METADATA_FIXED_LEN) {
            Some(field) => field,
            None => {
                return Err(Error::MetadataDataInvalid);
            },
        };
        match read_dyn_field(data_raw, data_index) {
            Some((data, _)) => Ok(Metadata { name, data }),
            None => Err(Error::MetadataDataInvalid),
        }
    }

    /// Whether this record and another agree in what may never change: the
    /// name. The data is free to differ.
    pub fn immutable_equal(&self, other: &Metadata) -> (same: bool)
        ensures
            same == self@.immutable_equal(other@),
            same == (self@.name == other@.name),
    {
        bytes_eq(self.name.as_slice(), other.name.as_slice())
    }
}

/// Decoding the bytes of a metadata record gives the record back, whatever
/// follows them in the buffer.
pub proof fn metadata_round_trip(metadata: MetadataView, trailing: Seq<u8>)
    requires
        metadata_encodable(metadata),
    ensures
        metadata_decode(metadata_encode(metadata) + trailing) == Ok::<MetadataView, Error>(
            metadata,
        ),
{
    let raw = metadata_encode(metadata) + trailing;
    let n = metadata.name.len() as int;
    be_u16_of_bytes(n);
    be_u16_of_bytes(metadata.data.len() as int);
    assert(raw.subrange(0, 2) =~= u16_be_bytes(n));
    assert(dyn_end(raw, 0) == 2 + n);
    assert(raw.subrange(2 + n, 4 + n) =~= u16_be_bytes(metadata.data.len() as int));
    assert(dyn_content(raw, 0) =~= metadata.name);
    assert(dyn_content(raw, 2 + n) =~= metadata.data);
}

/// A metadata record cut short at any byte is refused as invalid data.
pub proof fn metadata_truncated(metadata: MetadataView, cut: int)
    requires
        metadata_encodable(metadata),
        0 <= cut < metadata_encode(metadata).len(),
    ensures
        metadata_decode(metadata_encode(metadata).take(cut)) == Err::<MetadataView, Error>(
            Error::MetadataDataInvalid,
        ),
{
    let raw = metadata_encode(metadata).take(cut);
    let n = metadata.name.len() as int;
    if cut >= 4 {
        be_u16_of_bytes(n);
        assert(raw.subrange(0, 2) =~= u16_be_bytes(n));
        if cut >= 4 + n {
            be_u16_of_bytes(metadata.data.len() as int);
            assert(raw.subrange(2 + n, 4 + n) =~= u16_be_bytes(metadata.data.len() as int));
        }
    }
}

} // verus!
