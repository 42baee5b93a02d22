use vstd::prelude::*;

use crate::codec::{yaml_bytes, yaml_from_slice, yaml_record, yaml_to_vec};
use crate::ext::{replace_extension, valid_ext};
use crate::format::Format;
use crate::value::{Record, RecordModel};
use crate::{DecodeErr, EncodeErr};

verus! {

/// Normal formatted YAML.
///
/// The extension is `yaml`, rather than `yml`.
pub struct Yaml;

proof fn yaml_ext_valid()
    ensures
        valid_ext("yaml"@),
{
    reveal_strlit("yaml");
    assert("yaml"@ =~= seq!['y', 'a', 'm', 'l']);
}

impl Format for Yaml {
    open spec fn spec_ext() -> Seq<char> {
        "yaml"@
    }

    open spec fn spec_encode(v: RecordModel) -> Option<Seq<u8>> {
        yaml_bytes(v)
    }

    open spec fn spec_decode(b: Seq<u8>) -> Option<RecordModel> {
        yaml_record(b)
    }

    fn extension() -> String {
        proof {
            yaml_ext_valid();
        }
        "yaml".to_owned()
    }

    fn to_vec(value: &Record) -> Result<Vec<u8>, EncodeErr> {
        match yaml_to_vec(value) {
            Ok(b) => Ok(b),
            Err(message) => Err(EncodeErr { message }),
        }
    }

    fn from_slice(data: &[u8]) -> Result<Record, DecodeErr> {
        match yaml_from_slice(data) {
            Ok(v) => Ok(v),
            Err(message) => Err(DecodeErr { message }),
        }
    }

    fn with_ext(path: &str) -> String {
        let e = Self::extension();
        replace_extension(path, e.as_str())
    }
}

} // verus!
