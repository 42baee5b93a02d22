use vstd::prelude::*;

use crate::codec::{json_bytes, json_from_slice, json_pretty_bytes, json_pretty_to_vec, json_record, json_to_vec};
use crate::ext::{replace_extension, valid_ext};
use crate::format::Format;
use crate::value::{Record, RecordModel};
use crate::{DecodeErr, EncodeErr};

verus! {

/// Normal formatted JSON.
pub struct Json;

/// Pretty formatted JSON. It writes different bytes than [`Json`], but
/// parses by the same rule and uses the same extension.
pub struct JsonPretty;

proof fn json_ext_valid()
    ensures
        valid_ext("json"@),
{
    reveal_strlit("json");
    assert("json"@ =~= seq!['j', 's', 'o', 'n']);
}

impl Format for Json {
    open spec fn spec_ext() -> Seq<char> {
        "json"@
    }

    open spec fn spec_encode(v: RecordModel) -> Option<Seq<u8>> {
        json_bytes(v)
    }

    open spec fn spec_decode(b: Seq<u8>) -> Option<RecordModel> {
        json_record(b)
    }

    fn extension() -> String {
        proof {
            json_ext_valid();
        }
        "json".to_owned()
    }

    fn to_vec(value: &Record) -> Result<Vec<u8>, EncodeErr> {
        match json_to_vec(value) {
            Ok(b) => Ok(b),
            Err(message) => Err(EncodeErr { message }),
        }
    }

    fn from_slice(data: &[u8]) -> Result<Record, DecodeErr> {
        match json_from_slice(data) {
            Ok(v) => Ok(v),
            Err(message) => Err(DecodeErr { message }),
        }
    }

    fn with_ext(path: &str) -> String {
        let e = Self::extension();
        replace_extension(path, e.as_str())
    }
}

impl Format for JsonPretty {
    open spec fn spec_ext() -> Seq<char> {
        "json"@
    }

    open spec fn spec_encode(v: RecordModel) -> Option<Seq<u8>> {
        json_pretty_bytes(v)
    }

    open spec fn spec_decode(b: Seq<u8>) -> Option<RecordModel> {
        json_record(b)
    }

    fn extension() -> String {
        proof {
            json_ext_valid();
        }
        "json".to_owned()
    }

    fn to_vec(value: &Record) -> Result<Vec<u8>, EncodeErr> {
        match json_pretty_to_vec(value) {
            Ok(b) => Ok(b),
            Err(message) => Err(EncodeErr { message }),
        }
    }

    fn from_slice(data: &[u8]) -> Result<Record, DecodeErr> {
        match json_from_slice(data) {
            Ok(v) => Ok(v),
            Err(message) => Err(DecodeErr { message }),
        }
    }

    fn with_ext(path: &str) -> String {
        let e = Self::extension();
        replace_extension(path, e.as_str())
    }
}

/// The pretty and the compact JSON adapter parse by the same rule: on any
/// bytes, the two decode to the same outcome.
pub proof fn lemma_json_variants_decode_alike(b: Seq<u8>)
    ensures
        <Json as Format>::spec_decode(b) == <JsonPretty as Format>::spec_decode(b),
{
}

} // verus!
