use persist::format::Format;
use persist::json::{Json, JsonPretty};
use persist::ron::Ron;
use persist::toml::{Toml, TomlPretty};
use persist::value::{Field, Record, Scalar};
use persist::yaml::Yaml;

fn sample() -> Record {
    Record {
        fields: vec![
            ("count".to_string(), Field::Atom(Scalar::Int(42))),
            (
                "list".to_string(),
                Field::List(vec![Scalar::Text("hello".to_string())]),
            ),
        ],
    }
}

// Fields stand in sorted order: the TOML codec hands a parsed table back
// sorted by key, so an unsorted record comes back reordered from it.
fn varied() -> Record {
    Record {
        fields: vec![
            ("flag".to_string(), Field::Atom(Scalar::Bool(true))),
            ("high".to_string(), Field::Atom(Scalar::Int(i64::MAX))),
            ("low".to_string(), Field::Atom(Scalar::Int(i64::MIN))),
            (
                "mixed".to_string(),
                Field::List(vec![
                    Scalar::Bool(false),
                    Scalar::Int(0),
                    Scalar::Text("x y".to_string()),
                ]),
            ),
            ("name".to_string(), Field::Atom(Scalar::Text(String::new()))),
        ],
    }
}

#[test]
fn json_roundtrip() {
    let bytes = Json::to_vec(&sample()).unwrap();
    assert_eq!(Json::from_slice(&bytes).unwrap(), sample());
    let bytes = Json::to_vec(&varied()).unwrap();
    assert_eq!(Json::from_slice(&bytes).unwrap(), varied());
}

#[test]
fn json_pretty_roundtrip() {
    let bytes = JsonPretty::to_vec(&sample()).unwrap();
    assert_eq!(JsonPretty::from_slice(&bytes).unwrap(), sample());
    let bytes = JsonPretty::to_vec(&varied()).unwrap();
    assert_eq!(JsonPretty::from_slice(&bytes).unwrap(), varied());
}

#[test]
fn yaml_roundtrip() {
    let bytes = Yaml::to_vec(&sample()).unwrap();
    assert_eq!(Yaml::from_slice(&bytes).unwrap(), sample());
    let bytes = Yaml::to_vec(&varied()).unwrap();
    assert_eq!(Yaml::from_slice(&bytes).unwrap(), varied());
}

#[test]
fn toml_roundtrip() {
    let bytes = Toml::to_vec(&sample()).unwrap();
    assert_eq!(Toml::from_slice(&bytes).unwrap(), sample());
    let bytes = Toml::to_vec(&varied()).unwrap();
    assert_eq!(Toml::from_slice(&bytes).unwrap(), varied());
}

#[test]
fn toml_pretty_roundtrip() {
    let bytes = TomlPretty::to_vec(&sample()).unwrap();
    assert_eq!(TomlPretty::from_slice(&bytes).unwrap(), sample());
}

#[test]
fn ron_roundtrip() {
    let bytes = Ron::to_vec(&sample()).unwrap();
    assert_eq!(Ron::from_slice(&bytes).unwrap(), sample());
    let bytes = Ron::to_vec(&varied()).unwrap();
    assert_eq!(Ron::from_slice(&bytes).unwrap(), varied());
}

#[test]
fn empty_record_roundtrip() {
    let empty = Record { fields: vec![] };
    let bytes = Json::to_vec(&empty).unwrap();
    assert_eq!(Json::from_slice(&bytes).unwrap(), empty);
    let bytes = Yaml::to_vec(&empty).unwrap();
    assert_eq!(Yaml::from_slice(&bytes).unwrap(), empty);
}

#[test]
fn json_exact_bytes() {
    let bytes = Json::to_vec(&sample()).unwrap();
    assert_eq!(bytes, b"{\"count\":42,\"list\":[\"hello\"]}".to_vec());
}
