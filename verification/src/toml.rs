use vstd::prelude::*;

use crate::codec::{toml_bytes, toml_from_slice, toml_pretty_bytes, toml_pretty_to_vec, toml_record, toml_to_vec};
use crate::ext::{replace_extension, valid_ext};
use crate::format::Format;
use crate::value::{Record, RecordModel};
use crate::{DecodeErr, EncodeErr};

verus! {

/// Normal formatted TOML.
pub struct Toml;

/// Pretty formatted TOML. It writes different bytes than [`Toml`], but
/// parses by the same rule and uses the same extension.
pub struct TomlPretty;

proof fn toml_ext_valid()
    ensures
        valid_ext("toml"@),
{
    reveal_strlit("toml");
    assert("toml"@ =~= seq!['t', 'o', 'm', 'l']);
}

impl Format for Toml {
    open spec fn spec_ext() -> Seq<char> {
        "toml"@
    }

    open spec fn spec_encode(v: RecordModel) -> Option<Seq<u8>> {
        toml_bytes(v)
    }

    open spec fn spec_decode(b: Seq<u8>) -> Option<RecordModel> {
        toml_record(b)
    }

    fn extension() -> String {
        proof {
            toml_ext_valid();
        }
        "toml".to_owned()
    }

    fn to_vec(value: &Record) -> Result<Vec<u8>, EncodeErr> {
        match toml_to_vec(value) {
            Ok(b) => Ok(b),
            Err(message) => Err(EncodeErr { message }),
        }
    }

    fn from_slice(data: &[u8]) -> Result<Record, DecodeErr> {
        match toml_from_slice(data) {
            Ok(v) => Ok(v),
            Err(message) => Err(DecodeErr { message }),
        }
    }

    fn with_ext(path: &str) -> String {
        let e = Self::extension();
        replace_extension(path, e.as_str())
    }
}

impl Format for TomlPretty {
    open spec fn spec_ext() -> Seq<char> {
        "toml"@
    }

    open spec fn spec_encode(v: RecordModel) -> Option<Seq<u8>> {
        toml_pretty_bytes(v)
    }

    open spec fn spec_decode(b: Seq<u8>) -> Option<RecordModel> {
        toml_record(b)
    }

    fn extension() -> String {
        proof {
            toml_ext_valid();
        }
        "toml".to_owned()
    }

    fn to_vec(value: &Record) -> Result<Vec<u8>, EncodeErr> {
        match toml_pretty_to_vec(value) {
            Ok(b) => Ok(b),
            Err(message) => Err(EncodeErr { message }),
        }
    }

    fn from_slice(data: &[u8]) -> Result<Record, DecodeErr> {
        match toml_from_slice(data) {
            Ok(v) => Ok(v),
            Err(message) => Err(DecodeErr { message }),
        }
    }

    fn with_ext(path: &str) -> String {
        let e = Self::extension();
        replace_extension(path, e.as_str())
    }
}

/// The pretty and the plain TOML adapter parse by the same rule: on any
/// bytes, the two decode to the same outcome.
pub proof fn lemma_toml_variants_decode_alike(b: Seq<u8>)
    ensures
        <Toml as Format>::spec_decode(b) == <TomlPretty as Format>::spec_decode(b),
{
}

} // verus!
