//! The class record:
//! `version:u8 | cost:u64 | name_len:u16 | name | description_len:u16 |
//! description | meta_hash_len:u16 | meta_hash`.

use vstd::prelude::*;
use vstd::slice::slice_subrange;
use crate::bytes::{
    be_u16_of_bytes, be_u64, be_u64_of_bytes, bytes_eq, dyn_content, dyn_encode, dyn_end,
    dyn_fits, read_dyn_field, u16_be_bytes, u64_be_bytes, u64_from_slice,
};
use crate::error::Error;

verus! {

/// The bytes of a class record before its first dynamic field.
pub const CLASS_FIXED_LEN: usize = 9;

/// The least length at which the name and the length of the description can
/// be read. A record that decodes holds two more bytes at least, the length of
/// its last field.
pub const CLASS_DATA_MIN_LEN: usize = 13;

/// The length of a class's type arguments: 20 bytes that name its issuer,
/// then the class's number in four bytes.
pub const CLASS_TYPE_ARGS_LEN: usize = 24;

/// The payload of a class cell. The cost of a token is counted in whole
/// coins. Name and description are fixed once written; version, cost and the
/// hash of the metadata cell's type may change, and that hash may be empty.
#[derive(Debug, Clone, PartialEq, Eq)]
pub struct Class {
    pub version: u8,
    pub cost: u64,
    pub name: Vec<u8>,
    pub description: Vec<u8>,
    pub meta_data_cell_type_hash: Vec<u8>,
}

/// A class record as a mathematical value.
pub struct ClassView {
    pub version: u8,
    pub cost: u64,
    pub name: Seq<u8>,
    pub description: Seq<u8>,
    pub meta_data_cell_type_hash: Seq<u8>,
}

impl View for Class {
    type V = ClassView;

    open spec fn view(&self) -> ClassView {
        ClassView {
            version: self.version,
            cost: self.cost,
            name: self.name@,
            description: self.description@,
            meta_data_cell_type_hash: self.meta_data_cell_type_hash@,
        }
    }
}

/// Where the description of a class record starts.
pub open spec fn class_description_start(data: Seq<u8>) -> int {
    dyn_end(data, 9)
}

/// Where the hash of the metadata cell's type starts in a class record.
pub open spec fn class_meta_start(data: Seq<u8>) -> int {
    dyn_end(data, class_description_start(data))
}

/// Whether the three dynamic fields of a class record lie within the buffer,
/// one behind the other.
pub open spec fn class_fields_fit(data: Seq<u8>) -> bool {
    &&& dyn_fits(data, 9)
    &&& dyn_fits(data, class_description_start(data))
    &&& dyn_fits(data, class_meta_start(data))
}

/// What decoding a buffer as a class record gives. A first byte other than
/// zero is refused before anything else is looked at; bytes behind the last
/// field are ignored.
pub open spec fn class_decode(data: Seq<u8>) -> Result<ClassView, Error> {
    if data.len() > 0 && data[0] != 0 {
        Err(Error::VersionInvalid)
    } else if data.len() < CLASS_DATA_MIN_LEN || !class_fields_fit(data) {
        Err(Error::ClassDataInvalid)
    } else {
        Ok(
            ClassView {
                version: data[0],
                cost: be_u64(data.subrange(1, 9)) as u64,
                name: dyn_content(data, 9),
                description: dyn_content(data, class_description_start(data)),
                meta_data_cell_type_hash: dyn_content(data, class_meta_start(data)),
            },
        )
    }
}

/// The bytes of a class record.
pub open spec fn class_encode(class: ClassView) -> Seq<u8> {
    seq![class.version] + u64_be_bytes(class.cost as int) + dyn_encode(class.name) + dyn_encode(
        class.description,
    ) + dyn_encode(class.meta_data_cell_type_hash)
}

/// Whether a class record can be written down: its version is zero and each
/// dynamic field is short enough for a length of two bytes.
pub open spec fn class_encodable(class: ClassView) -> bool {
    &&& class.version == 0
    &&& class.name.len() < 0x1_0000
    &&& class.description.len() < 0x1_0000
    &&& class.meta_data_cell_type_hash.len() < 0x1_0000
}

impl ClassView {
    /// Whether two records agree in what may never change: name and
    /// description.
    pub open spec fn immutable_equal(self, other: ClassView) -> bool {
        self.name == other.name && self.description == other.description
    }
}

impl Class {
    /// Decodes a class record from the data of its cell.
    pub fn from_data(data: &[u8]) -> (r: Result<Class, Error>)
        ensures
            match r {
                Ok(class) => class_decode(data@) == Ok::<ClassView, Error>(class@),
                Err(e) => class_decode(data@) == Err::<ClassView, Error>(e),
            },
    {
        if data.len() > 0 && data[0] != 0 {
            return Err(Error::VersionInvalid);
        }
        if data.len() < CLASS_DATA_MIN_LEN {
            return Err(Error::ClassDataInvalid);
        }
        let version: u8 = data[0];
        let cost: u64 = u64_from_slice(slice_subrange(data, 1, CLASS_FIXED_LEN));
        let (name, description_index) = match read_dyn_field(data, CLASS_FIXED_LEN) {
            Some(field) => field,
            None => {
                return Err(Error::ClassDataInvalid);
            },
        };
        let (description, meta_index) = match read_dyn_field(data, description_index) {
            Some(field) => field,
            None => {
                return Err(Error::ClassDataInvalid);
            },
        };
        match read_dyn_field(data, meta_index) {
            Some((meta_data_cell_type_hash, _)) => Ok(
                Class { version, cost, name, description, meta_data_cell_type_hash },
            ),
            None => Err(Error::ClassDataInvalid),
        }
    }

    /// Whether this record and another agree in what may never change: name
    /// and description. Version, cost and the metadata hash are free to
    /// differ.
    pub fn immutable_equal(&self, other: &Class) -> (same: bool)
        ensures
            same == self@.immutable_equal(other@),
            same == (self@.name == other@.name && self@.description == other@.description),
    {
        bytes_eq(self.name.as_slice(), other.name.as_slice()) && bytes_eq(
            self.description.as_slice(),
            other.description.as_slice(),
        )
    }
}

/// How the fields of an encoded class record lie in a buffer that starts
/// with it.
proof fn class_layout(class: ClassView, raw: Seq<u8>)
    requires
        class_encodable(class),
        raw.len() >= 9,
        forall|i: int|
            0 <= i < raw.len() && i < class_encode(class).len() ==> raw[i] == class_encode(
                class,
            )[i],
    ensures
        raw.len() >= 11 ==> dyn_end(raw, 9) == 11 + class.name.len(),
        raw.len() >= 13 + class.name.len() ==> class_meta_start(raw) == 13 + class.name.len()
            + class.description.len(),
        raw.len() >= 15 + class.name.len() + class.description.len() ==> dyn_end(
            raw,
            class_meta_start(raw),
        ) == class_encode(class).len(),
{
    let n = class.name.len() as int;
    let d = class.description.len() as int;
    let m = class.meta_data_cell_type_hash.len() as int;
    be_u16_of_bytes(n);
    be_u16_of_bytes(d);
    be_u16_of_bytes(m);
    assert(u64_be_bytes(class.cost as int).len() == 8);
    if raw.len() >= 11 {
        assert(raw.subrange(9, 11) =~= u16_be_bytes(n));
    }
    if raw.len() >= 13 + n {
        assert(raw.subrange(11 + n, 13 + n) =~= u16_be_bytes(d));
    }
    if raw.len() >= 15 + n + d {
        assert(raw.subrange(13 + n + d, 15 + n + d) =~= u16_be_bytes(m));
    }
}

/// Decoding the bytes of a class record gives the record back, whatever
/// follows them in the buffer.
pub proof fn class_round_trip(class: ClassView, trailing: Seq<u8>)
    requires
        class_encodable(class),
    ensures
        class_decode(class_encode(class) + trailing) == Ok::<ClassView, Error>(class),
{
    let raw = class_encode(class) + trailing;
    let n = class.name.len() as int;
    let d = class.description.len() as int;
    assert(u64_be_bytes(class.cost as int).len() == 8);
    class_layout(class, raw);
    be_u64_of_bytes(class.cost as int);
    assert(raw.subrange(1, 9) =~= u64_be_bytes(class.cost as int));
    assert(dyn_content(raw, 9) =~= class.name);
    assert(dyn_content(raw, 11 + n) =~= class.description);
    assert(dyn_content(raw, 13 + n + d) =~= class.meta_data_cell_type_hash);
}

/// A class record cut short at any byte is refused as invalid data.
pub proof fn class_truncated(class: ClassView, cut: int)
    requires
        class_encodable(class),
        0 <= cut < class_encode(class).len(),
    ensures
        class_decode(class_encode(class).take(cut)) == Err::<ClassView, Error>(
            Error::ClassDataInvalid,
        ),
{
    let raw = class_encode(class).take(cut);
    assert(u64_be_bytes(class.cost as int).len() == 8);
    if cut >= 13 {
        class_layout(class, raw);
    }
}

/// A buffer whose first byte is not zero is refused for its version, whatever
/// else it holds.
pub proof fn class_version_gate(data: Seq<u8>)
    requires
        data.len() > 0,
        data[0] != 0,
    ensures
        class_decode(data) == Err::<ClassView, Error>(Error::VersionInvalid),
{
}

/// Two class records agree in what may never change exactly where name and
/// description are the same: a change of either is seen, and a change of
/// version, cost or metadata hash alone is not.
pub proof fn class_immutable_fields(before: ClassView, after: ClassView)
    ensures
        before.name != after.name ==> !before.immutable_equal(after),
        before.description != after.description ==> !before.immutable_equal(after),
        before.name == after.name && before.description == after.description
            ==> before.immutable_equal(after),
        before.immutable_equal(
            ClassView {
                version: after.version,
                cost: after.cost,
                meta_data_cell_type_hash: after.meta_data_cell_type_hash,
                ..before
            },
        ),
{
}

} // verus!
