use vstd::prelude::*;

use crate::value::{Field, Record, RecordModel, Scalar};

verus! {

// Each byte encoding below is produced by an outside codec working on the
// record's document form. What those bytes are takes pages to state, but for
// a fixed codec they are a function of the record alone; so each encoding is
// given a name here, and the wrapper that makes the call promises no more
// than that its result is the named one. `None` stands for the codec
// refusing the record. Decoding likewise is a function of the bytes alone;
// `None` stands for bytes the codec (or the record shape) rejects.

/// The document form all codecs below work on: `serde_json::Value`, held
/// opaque and only carried between the conversion helpers.
#[verifier::external_type_specification]
#[verifier::external_body]
pub struct ExValue(serde_json::Value);

pub uninterp spec fn json_bytes(v: RecordModel) -> Option<Seq<u8>>;

pub uninterp spec fn json_record(b: Seq<u8>) -> Option<RecordModel>;

pub uninterp spec fn json_pretty_bytes(v: RecordModel) -> Option<Seq<u8>>;

pub uninterp spec fn yaml_bytes(v: RecordModel) -> Option<Seq<u8>>;

pub uninterp spec fn yaml_record(b: Seq<u8>) -> Option<RecordModel>;

pub uninterp spec fn toml_bytes(v: RecordModel) -> Option<Seq<u8>>;

pub uninterp spec fn toml_pretty_bytes(v: RecordModel) -> Option<Seq<u8>>;

pub uninterp spec fn toml_record(b: Seq<u8>) -> Option<RecordModel>;

pub uninterp spec fn ron_bytes(v: RecordModel) -> Option<Seq<u8>>;

pub uninterp spec fn ron_record(b: Seq<u8>) -> Option<RecordModel>;

/// Converts one scalar to its `serde_json::Value` document form.
#[verifier::external_body]
fn scalar_carrier(s: &Scalar) -> serde_json::Value {
    match s {
        Scalar::Bool(b) => serde_json::Value::Bool(*b),
        Scalar::Int(i) => serde_json::Value::Number(serde_json::Number::from(*i)),
        Scalar::Text(t) => serde_json::Value::String(t.clone()),
    }
}

/// Converts a record to its `serde_json::Value` document form, which every
/// codec below serializes.
#[verifier::external_body]
fn carrier_of(value: &Record) -> serde_json::Value {
    serde_json::Value::Object(value.fields.iter().map(|(k, f)| (k.clone(), match f {
        Field::Atom(s) => scalar_carrier(s),
        Field::List(items) => serde_json::Value::Array(items.iter().map(scalar_carrier).collect()),
    })).collect())
}

/// Converts one `serde_json::Value` back to a scalar, if it is one.
#[verifier::external_body]
fn scalar_of_carrier(x: &serde_json::Value) -> Option<Scalar> {
    match x {
        serde_json::Value::Bool(b) => Some(Scalar::Bool(*b)),
        serde_json::Value::Number(n) => n.as_i64().map(Scalar::Int),
        serde_json::Value::String(s) => Some(Scalar::Text(s.clone())),
        _ => None,
    }
}

/// Converts a `serde_json::Value` document back to a record, if it has the
/// record shape: an object of scalars and lists of scalars.
#[verifier::external_body]
fn record_of_carrier(v: serde_json::Value) -> Option<Record> {
    let obj = match v {
        serde_json::Value::Object(m) => m,
        _ => { return None; },
    };
    let fields = obj.iter().map(|(k, x)| match x {
        serde_json::Value::Array(items) => items.iter().map(scalar_of_carrier).collect::<Option<Vec<Scalar>>>().map(|l| (k.clone(), Field::List(l))),
        other => scalar_of_carrier(other).map(|s| (k.clone(), Field::Atom(s))),
    }).collect::<Option<Vec<(String, Field)>>>()?;
    Some(Record { fields })
}

/// Relies on serde_json::to_vec: compact JSON for the record's document
/// form, a function of the record alone.
#[verifier::external_body]
pub(crate) fn json_to_vec(value: &Record) -> (r: Result<Vec<u8>, String>)
    ensures
        (r is Ok) <==> (json_bytes(value@) is Some),
        r is Ok ==> Some(r->Ok_0@) == json_bytes(value@),
{
    serde_json::to_vec(&carrier_of(value)).map_err(|e| e.to_string())
}

/// Relies on serde_json::to_vec_pretty: pretty-printed JSON for the record's
/// document form, a function of the record alone.
#[verifier::external_body]
pub(crate) fn json_pretty_to_vec(value: &Record) -> (r: Result<Vec<u8>, String>)
    ensures
        (r is Ok) <==> (json_pretty_bytes(value@) is Some),
        r is Ok ==> Some(r->Ok_0@) == json_pretty_bytes(value@),
{
    serde_json::to_vec_pretty(&carrier_of(value)).map_err(|e| e.to_string())
}

/// Relies on serde_json::from_slice: parses JSON bytes into the document
/// form, a function of the bytes alone.
#[verifier::external_body]
pub(crate) fn json_from_slice(data: &[u8]) -> (r: Result<Record, String>)
    ensures
        (r is Ok) <==> (json_record(data@) is Some),
        r is Ok ==> Some(r->Ok_0@) == json_record(data@),
{
    match serde_json::from_slice::<serde_json::Value>(data) {
        Err(e) => Err(e.to_string()),
        Ok(v) => record_of_carrier(v).ok_or_else(|| "value does not have the record shape".to_string()),
    }
}

/// Relies on serde_yaml::to_string: YAML for the record's document form, a
/// function of the record alone.
#[verifier::external_body]
pub(crate) fn yaml_to_vec(value: &Record) -> (r: Result<Vec<u8>, String>)
    ensures
        (r is Ok) <==> (yaml_bytes(value@) is Some),
        r is Ok ==> Some(r->Ok_0@) == yaml_bytes(value@),
{
    serde_yaml::to_string(&carrier_of(value)).map(String::into_bytes).map_err(|e| e.to_string())
}

/// Relies on serde_yaml::from_slice: parses YAML bytes into the document
/// form, a function of the bytes alone.
#[verifier::external_body]
pub(crate) fn yaml_from_slice(data: &[u8]) -> (r: Result<Record, String>)
    ensures
        (r is Ok) <==> (yaml_record(data@) is Some),
        r is Ok ==> Some(r->Ok_0@) == yaml_record(data@),
{
    match serde_yaml::from_slice::<serde_json::Value>(data) {
        Err(e) => Err(e.to_string()),
        Ok(v) => record_of_carrier(v).ok_or_else(|| "value does not have the record shape".to_string()),
    }
}

/// Relies on toml::to_string: a TOML table for the record's document form, a
/// function of the record alone.
#[verifier::external_body]
pub(crate) fn toml_to_vec(value: &Record) -> (r: Result<Vec<u8>, String>)
    ensures
        (r is Ok) <==> (toml_bytes(value@) is Some),
        r is Ok ==> Some(r->Ok_0@) == toml_bytes(value@),
{
    toml::to_string(&carrier_of(value)).map(String::into_bytes).map_err(|e| e.to_string())
}

/// Relies on toml::to_string_pretty: a pretty TOML table for the record's
/// document form, a function of the record alone.
#[verifier::external_body]
pub(crate) fn toml_pretty_to_vec(value: &Record) -> (r: Result<Vec<u8>, String>)
    ensures
        (r is Ok) <==> (toml_pretty_bytes(value@) is Some),
        r is Ok ==> Some(r->Ok_0@) == toml_pretty_bytes(value@),
{
    toml::to_string_pretty(&carrier_of(value)).map(String::into_bytes).map_err(|e| e.to_string())
}

/// Relies on toml::from_str on the UTF-8 text of the bytes: parses a TOML
/// table into the document form, a function of the bytes alone.
#[verifier::external_body]
pub(crate) fn toml_from_slice(data: &[u8]) -> (r: Result<Record, String>)
    ensures
        (r is Ok) <==> (toml_record(data@) is Some),
        r is Ok ==> Some(r->Ok_0@) == toml_record(data@),
{
    match core::str::from_utf8(data).map_err(|e| e.to_string()).and_then(|s| toml::from_str::<serde_json::Value>(s).map_err(|e| e.to_string())) {
        Err(e) => Err(e),
        Ok(v) => record_of_carrier(v).ok_or_else(|| "value does not have the record shape".to_string()),
    }
}

/// Relies on ron::ser::to_string: RON for the record's document form, a
/// function of the record alone.
#[verifier::external_body]
pub(crate) fn ron_to_vec(value: &Record) -> (r: Result<Vec<u8>, String>)
    ensures
        (r is Ok) <==> (ron_bytes(value@) is Some),
        r is Ok ==> Some(r->Ok_0@) == ron_bytes(value@),
{
    ron::ser::to_string(&carrier_of(value)).map(String::into_bytes).map_err(|e| e.to_string())
}

/// Relies on ron::de::from_bytes: parses RON bytes into the document form, a
/// function of the bytes alone.
#[verifier::external_body]
pub(crate) fn ron_from_slice(data: &[u8]) -> (r: Result<Record, String>)
    ensures
        (r is Ok) <==> (ron_record(data@) is Some),
        r is Ok ==> Some(r->Ok_0@) == ron_record(data@),
{
    match ron::de::from_bytes::<serde_json::Value>(data) {
        Err(e) => Err(e.to_string()),
        Ok(v) => record_of_carrier(v).ok_or_else(|| "value does not have the record shape".to_string()),
    }
}

} // verus!
