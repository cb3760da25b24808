//! The token record: `version:u8 | data_len:u16 | data`.

use vstd::prelude::*;
use crate::bytes::{dyn_content, dyn_encode, dyn_fits, read_dyn_field, be_u16_of_bytes};
use crate::error::Error;

verus! {

/// The bytes of a token record before its one dynamic field.
pub const NFT_FIXED_LEN: usize = 1;

/// The shortest token record: the version and an empty data field.
pub const NFT_DATA_MIN_LEN: usize = 3;

/// The length of a token's type arguments where each token is minted directly:
/// 24 bytes that name its class, then a digest of 32 bytes.
pub const NFT_TYPE_ARGS_LEN: usize = 56;

/// The payload of a token cell.
#[derive(Debug, Clone, PartialEq, Eq)]
pub struct Nft {
    pub version: u8,
    pub data: Vec<u8>,
}

/// A token record as a mathematical value.
pub struct NftView {
    pub version: u8,
    pub data: Seq<u8>,
}

impl View for Nft {
    type V = NftView;

    open spec fn view(&self) -> NftView {
        NftView { version: self.version, data: self.data@ }
    }
}

/// What decoding a buffer as a token record gives. A first byte other than
/// zero is refused before anything else is looked at; bytes behind the data
/// field are ignored.
pub open spec fn nft_decode(raw: Seq<u8>) -> Result<NftView, Error> {
    if raw.len() > 0 && raw[0] != 0 {
        Err(Error::VersionInvalid)
    } else if raw.len() < NFT_DATA_MIN_LEN || !dyn_fits(raw, 1) {
        Err(Error::NFTDataInvalid)
    } else {
        Ok(NftView { version: raw[0], data: dyn_content(raw, 1) })
    }
}

/// The bytes of a token record.
pub open spec fn nft_encode(nft: NftView) -> Seq<u8> {
    seq![nft.version] + dyn_encode(nft.data)
}

/// Whether a token record can be written down: its version is zero and its
/// data is short enough for a length of two bytes.
pub open spec fn nft_encodable(nft: NftView) -> bool {
    nft.version == 0 && nft.data.len() < 0x1_0000
}

impl Nft {
    /// Decodes a token record from the data of its cell.
    pub fn from_data(raw_data: &[u8]) -> (r: Result<Nft, Error>)
        ensures
            match r {
                Ok(nft) => nft_decode(raw_data@) == Ok::<NftView, Error>(nft@),
                Err(e) => nft_decode(raw_data@) == Err::<NftView, Error>(e),
            },
    {
        if raw_data.len() > 0 && raw_data[0] != 0 {
            return Err(Error::VersionInvalid);
        }
        if raw_data.len() < NFT_DATA_MIN_LEN {
            return Err(Error::NFTDataInvalid);
        }
        let version: u8 = raw_data[0];
        match read_dyn_field(raw_data, NFT_FIXED_LEN) {
            Some((data, _)) => Ok(Nft { version, data }),
            None => Err(Error::NFTDataInvalid),
        }
    }
}

/// Decoding the bytes of a token record gives the record back, whatever
/// follows them in the buffer.
pub proof fn nft_round_trip(nft: NftView, trailing: Seq<u8>)
    requires
        nft_encodable(nft),
    ensures
        nft_decode(nft_encode(nft) + trailing) == Ok::<NftView, Error>(nft),
{
    let raw = nft_encode(nft) + trailing;
    be_u16_of_bytes(nft.data.len() as int);
    assert(raw.subrange(1, 3) =~= crate::bytes::u16_be_bytes(nft.data.len() as int));
    assert(dyn_content(raw, 1) =~= nft.data);
}

/// A token record cut short at any byte is refused as invalid data.
pub proof fn nft_truncated(nft: NftView, cut: int)
    requires
        nft_encodable(nft),
        0 <= cut < nft_encode(nft).len(),
    ensures
        nft_decode(nft_encode(nft).take(cut)) == Err::<NftView, Error>(Error::NFTDataInvalid),
{
    let raw = nft_encode(nft).take(cut);
    if cut >= 3 {
        be_u16_of_bytes(nft.data.len() as int);
        assert(raw.subrange(1, 3) =~= crate::bytes::u16_be_bytes(nft.data.len() as int));
    }
}

/// A buffer whose first byte is not zero is refused for its version, whatever
/// else it holds.
pub proof fn nft_version_gate(raw: Seq<u8>)
    requires
        raw.len() > 0,
        raw[0] != 0,
    ensures
        nft_decode(raw) == Err::<NftView, Error>(Error::VersionInvalid),
{
}

} // verus!
