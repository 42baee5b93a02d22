use vstd::prelude::*;

use crate::ext::spec_resolve;
use crate::format::{resolve_path, Format};
use crate::store::FileStore;
use crate::stream::{ByteSink, ByteSource};
use crate::value::Record;
use crate::{DecodeErr, EncodeErr};

verus! {

/// Serialize `value` with the format `K` and write the whole encoding to
/// `out` in one call. A failed write is reported as the same error kind as
/// a failed encode; when the encode fails, nothing is written.
pub fn save<K: Format, S: ByteSink>(value: &Record, out: &mut S) -> (r: Result<(), EncodeErr>)
    ensures
        r is Ok ==> (K::spec_encode(value@) matches Some(b) && final(out).sunk() == old(
            out,
        ).sunk() + b),
        K::spec_encode(value@) is None ==> r is Err && final(out).sunk() == old(out).sunk(),
{
    let bytes = match K::to_vec(value) {
        Ok(b) => b,
        Err(e) => {
            return Err(e);
        },
    };
    match out.write_all(bytes.as_slice()) {
        Ok(u) => Ok(u),
        Err(message) => Err(EncodeErr { message }),
    }
}

/// Read `input` to exhaustion and deserialize the bytes with the format
/// `K`. A failed read is reported as the same error kind as a failed
/// decode; the call never yields a partially populated value.
pub fn load<K: Format, S: ByteSource>(input: &mut S) -> (r: Result<Record, DecodeErr>)
    ensures
        r is Ok ==> K::spec_decode(old(input).avail()) == Some(r->Ok_0@),
        r is Ok ==> final(input).avail() == Seq::<u8>::empty(),
        K::spec_decode(old(input).avail()) is None ==> r is Err,
{
    let data = match input.read_to_end() {
        Ok(d) => d,
        Err(message) => {
            return Err(DecodeErr { message });
        },
    };
    K::from_slice(data.as_slice())
}

/// Resolve `path` to the canonical extension of `K`, then create or
/// truncate that file in `store` and save `value` to it. File-system
/// failures are reported as the encode error kind; when the encode fails,
/// the store is untouched, and no call touches any file but the resolved
/// target.
pub fn save_to_file<K: Format, F: FileStore>(value: &Record, store: &mut F, path: &str) -> (r:
    Result<(), EncodeErr>)
    ensures
        r is Ok ==> (K::spec_encode(value@) matches Some(b) && final(store).files() == old(
            store,
        ).files().insert(spec_resolve(path@, K::spec_ext()), b)),
        K::spec_encode(value@) is None ==> r is Err && final(store).files() == old(store).files(),
        r is Err ==> final(store).files().remove(spec_resolve(path@, K::spec_ext())) == old(
            store,
        ).files().remove(spec_resolve(path@, K::spec_ext())),
{
    let target = resolve_path::<K>(path);
    let bytes = match K::to_vec(value) {
        Ok(b) => b,
        Err(e) => {
            return Err(e);
        },
    };
    match store.write_file(target.as_str(), bytes.as_slice()) {
        Ok(u) => Ok(u),
        Err(message) => Err(EncodeErr { message }),
    }
}

/// Resolve `path` to the canonical extension of `K`, then open that file in
/// `store` and load a value from it. A missing file, like any file-system
/// failure, is reported as the decode error kind.
pub fn load_from_file<K: Format, F: FileStore>(store: &F, path: &str) -> (r: Result<
    Record,
    DecodeErr,
>)
    ensures
        r is Ok ==> store.files().contains_key(spec_resolve(path@, K::spec_ext())) && K::spec_decode(
            store.files()[spec_resolve(path@, K::spec_ext())],
        ) == Some(r->Ok_0@),
        !store.files().contains_key(spec_resolve(path@, K::spec_ext())) ==> r is Err,
{
    let target = resolve_path::<K>(path);
    let data = match store.read_file(target.as_str()) {
        Ok(d) => d,
        Err(message) => {
            return Err(DecodeErr { message });
        },
    };
    K::from_slice(data.as_slice())
}

} // verus!
