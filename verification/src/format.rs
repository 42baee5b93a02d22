use vstd::prelude::*;

use crate::ext::{replace_extension, spec_resolve, valid_ext};
use crate::value::{Record, RecordModel};
use crate::{DecodeErr, EncodeErr};

verus! {

/// A format adapter: how one specific encoding maps a record to bytes and
/// back, and which canonical file extension it implies.
///
/// `spec_encode` and `spec_decode` are the adapter's encoding and decoding
/// as mathematical functions; `None` stands for the codec rejecting its
/// input. The executable methods are pinned to them exactly: they return
/// `Ok` precisely when the codec accepts, and the error kinds are opaque
/// and terminal for the call.
pub trait Format {
    /// The extension, as a sequence of characters.
    spec fn spec_ext() -> Seq<char>;

    /// The encoding: what bytes this adapter produces for a record.
    spec fn spec_encode(v: RecordModel) -> Option<Seq<u8>>;

    /// The decoding: what record this adapter reads out of bytes.
    spec fn spec_decode(b: Seq<u8>) -> Option<RecordModel>;

    /// The extension used for this format (without a dot).
    fn extension() -> (r: String)
        ensures
            r@ == Self::spec_ext(),
            valid_ext(Self::spec_ext()),
    ;

    /// Serialize a record to a byte vector.
    fn to_vec(value: &Record) -> (r: Result<Vec<u8>, EncodeErr>)
        ensures
            (r is Ok) <==> (Self::spec_encode(value@) is Some),
            r is Ok ==> Some(r->Ok_0@) == Self::spec_encode(value@),
    ;

    /// Deserialize a record from a byte slice.
    fn from_slice(data: &[u8]) -> (r: Result<Record, DecodeErr>)
        ensures
            (r is Ok) <==> (Self::spec_decode(data@) is Some),
            r is Ok ==> Some(r->Ok_0@) == Self::spec_decode(data@),
    ;

    /// Combines the provided path with this format's extension, replacing
    /// any extension the path already has, or adding one if it is missing.
    fn with_ext(path: &str) -> (r: String)
        ensures
            r@ == spec_resolve(path@, Self::spec_ext()),
    ;
}

/// Resolve `path` to the canonical extension of the format `K`.
pub fn resolve_path<K: Format>(path: &str) -> (r: String)
    ensures
        r@ == spec_resolve(path@, K::spec_ext()),
{
    let e = K::extension();
    replace_extension(path, e.as_str())
}

} // verus!
