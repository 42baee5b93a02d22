use persist::format::Format;
use persist::json::Json;
use persist::stream::{MemSink, MemSource};
use persist::value::{Field, Record, Scalar};
use persist::yaml::Yaml;

fn sample() -> Record {
    Record {
        fields: vec![
            ("count".to_string(), Field::Atom(Scalar::Int(42))),
            (
                "list".to_string(),
                Field::List(vec![Scalar::Text("hello".to_string())]),
            ),
        ],
    }
}

#[test]
fn save_writes_exactly_the_encoding() {
    let mut sink = MemSink::new();
    persist::save::<Json, MemSink>(&sample(), &mut sink).unwrap();
    assert_eq!(sink.data, Json::to_vec(&sample()).unwrap());
}

#[test]
fn save_appends_to_what_was_sunk_before() {
    let mut sink = MemSink::new();
    persist::save::<Json, MemSink>(&sample(), &mut sink).unwrap();
    let first = sink.data.clone();
    persist::save::<Json, MemSink>(&sample(), &mut sink).unwrap();
    let mut both = first.clone();
    both.extend_from_slice(&first);
    assert_eq!(sink.data, both);
}

#[test]
fn load_reads_the_source_to_exhaustion() {
    let bytes = Yaml::to_vec(&sample()).unwrap();
    let mut source = MemSource::new(bytes);
    let value = persist::load::<Yaml, MemSource>(&mut source).unwrap();
    assert_eq!(value, sample());
    assert!(source.data.is_empty());
}

#[test]
fn stream_roundtrip() {
    let mut sink = MemSink::new();
    persist::save::<Json, MemSink>(&sample(), &mut sink).unwrap();
    let mut source = MemSource::new(sink.data);
    assert_eq!(persist::load::<Json, MemSource>(&mut source).unwrap(), sample());
}

#[test]
fn load_of_garbage_stream_fails() {
    let mut source = MemSource::new(b"||garbage||".to_vec());
    assert!(persist::load::<Json, MemSource>(&mut source).is_err());
}
