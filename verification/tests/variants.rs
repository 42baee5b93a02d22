use persist::format::Format;
use persist::json::{Json, JsonPretty};
use persist::toml::{Toml, TomlPretty};
use persist::value::{Field, Record, Scalar};

fn sample() -> Record {
    Record {
        fields: vec![
            ("count".to_string(), Field::Atom(Scalar::Int(42))),
            (
                "list".to_string(),
                Field::List(vec![Scalar::Text("hello".to_string())]),
            ),
        ],
    }
}

#[test]
fn pretty_and_compact_json_decode_to_equal_values() {
    let compact = Json::to_vec(&sample()).unwrap();
    let pretty = JsonPretty::to_vec(&sample()).unwrap();
    assert_ne!(compact.len(), pretty.len());
    assert_eq!(
        Json::from_slice(&pretty).unwrap(),
        JsonPretty::from_slice(&compact).unwrap()
    );
    assert_eq!(Json::from_slice(&compact).unwrap(), sample());
    assert_eq!(JsonPretty::from_slice(&pretty).unwrap(), sample());
}

#[test]
fn pretty_and_plain_toml_decode_to_equal_values() {
    let plain = Toml::to_vec(&sample()).unwrap();
    let pretty = TomlPretty::to_vec(&sample()).unwrap();
    assert_eq!(
        Toml::from_slice(&pretty).unwrap(),
        TomlPretty::from_slice(&plain).unwrap()
    );
    assert_eq!(Toml::from_slice(&plain).unwrap(), sample());
}

#[test]
fn variants_share_an_extension() {
    assert_eq!(Json::extension(), JsonPretty::extension());
    assert_eq!(Toml::extension(), TomlPretty::extension());
    assert_eq!(Json::with_ext("v"), JsonPretty::with_ext("v"));
}
