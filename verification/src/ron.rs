use vstd::prelude::*;

use crate::codec::{ron_bytes, ron_from_slice, ron_record, ron_to_vec};
use crate::ext::{replace_extension, valid_ext};
use crate::format::Format;
use crate::value::{Record, RecordModel};
use crate::{DecodeErr, EncodeErr};

verus! {

/// Normal formatted RON.
pub struct Ron;

proof fn ron_ext_valid()
    ensures
        valid_ext("ron"@),
{
    reveal_strlit("ron");
    assert("ron"@ =~= seq!['r', 'o', 'n']);
}

impl Format for Ron {
    open spec fn spec_ext() -> Seq<char> {
        "ron"@
    }

    open spec fn spec_encode(v: RecordModel) -> Option<Seq<u8>> {
        ron_bytes(v)
    }

    open spec fn spec_decode(b: Seq<u8>) -> Option<RecordModel> {
        ron_record(b)
    }

    fn extension() -> String {
        proof {
            ron_ext_valid();
        }
        "ron".to_owned()
    }

    fn to_vec(value: &Record) -> Result<Vec<u8>, EncodeErr> {
        match ron_to_vec(value) {
            Ok(b) => Ok(b),
            Err(message) => Err(EncodeErr { message }),
        }
    }

    fn from_slice(data: &[u8]) -> Result<Record, DecodeErr> {
        match ron_from_slice(data) {
            Ok(v) => Ok(v),
            Err(message) => Err(DecodeErr { message }),
        }
    }

    fn with_ext(path: &str) -> String {
        let e = Self::extension();
        replace_extension(path, e.as_str())
    }
}

} // verus!
