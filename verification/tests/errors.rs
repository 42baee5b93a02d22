use persist::format::Format;
use persist::json::Json;
use persist::ron::Ron;
use persist::toml::Toml;
use persist::yaml::Yaml;

#[test]
fn garbage_bytes_are_rejected_by_every_adapter() {
    let garbage: &[u8] = b"\x00\xff\xfe{{{not a document";
    assert!(Json::from_slice(garbage).is_err());
    assert!(Yaml::from_slice(garbage).is_err());
    assert!(Toml::from_slice(garbage).is_err());
    assert!(Ron::from_slice(garbage).is_err());
}

#[test]
fn truncated_json_is_rejected() {
    assert!(Json::from_slice(b"{\"count\":4").is_err());
}

#[test]
fn non_record_documents_are_rejected() {
    // Well-formed for the codec, but not the record shape.
    assert!(Json::from_slice(b"[1,2,3]").is_err());
    assert!(Json::from_slice(b"42").is_err());
    assert!(Json::from_slice(b"{\"a\":{\"b\":1}}").is_err());
    assert!(Json::from_slice(b"{\"a\":[[1]]}").is_err());
    assert!(Json::from_slice(b"{\"a\":1.5}").is_err());
    assert!(Json::from_slice(b"{\"a\":null}").is_err());
}

#[test]
fn empty_input_is_rejected() {
    assert!(Json::from_slice(b"").is_err());
    assert!(Ron::from_slice(b"").is_err());
}
