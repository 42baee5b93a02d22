use persist::format::Format;
use persist::json::Json;
use persist::ron::Ron;
use persist::toml::Toml;
use persist::yaml::Yaml;

#[test]
fn substitutes_existing_extension() {
    assert_eq!(Json::with_ext("name.ext1"), "name.json");
    assert_eq!(Yaml::with_ext("name.json"), "name.yaml");
    assert_eq!(Toml::with_ext("name.yaml"), "name.toml");
    assert_eq!(Ron::with_ext("name.toml"), "name.ron");
}

#[test]
fn adds_missing_extension() {
    assert_eq!(Json::with_ext("name"), "name.json");
    assert_eq!(Yaml::with_ext("a/b/name"), "a/b/name.yaml");
}

#[test]
fn resolution_is_idempotent() {
    let once = Yaml::with_ext("a/b/c.toml");
    assert_eq!(Yaml::with_ext(&once), once);
    let once = Json::with_ext("plain");
    assert_eq!(Json::with_ext(&once), once);
    let once = Json::with_ext("dir/");
    assert_eq!(Json::with_ext(&once), once);
    let once = Json::with_ext("");
    assert_eq!(Json::with_ext(&once), once);
}

#[test]
fn trailing_separators_are_ignored() {
    assert_eq!(Json::with_ext("dir/"), "dir.json");
    assert_eq!(Json::with_ext("a/b//"), "a/b.json");
    assert_eq!(Json::with_ext("name.txt/"), "name.json");
}

#[test]
fn a_path_with_no_file_name_is_unchanged() {
    assert_eq!(Json::with_ext(""), "");
    assert_eq!(Json::with_ext("/"), "/");
    assert_eq!(Json::with_ext("//"), "//");
}

#[test]
fn only_the_file_name_part_is_touched() {
    assert_eq!(Json::with_ext("dir.d/file"), "dir.d/file.json");
    assert_eq!(Json::with_ext("dir.d/file.txt"), "dir.d/file.json");
}

#[test]
fn leading_dot_is_not_an_extension() {
    assert_eq!(Json::with_ext(".bashrc"), ".bashrc.json");
    assert_eq!(Json::with_ext(".bashrc.old"), ".bashrc.json");
}

#[test]
fn only_the_last_extension_is_replaced() {
    assert_eq!(Json::with_ext("archive.tar.gz"), "archive.tar.json");
}

#[test]
fn free_function_matches_with_ext() {
    assert_eq!(persist::resolve_path::<Ron>("data.json"), "data.ron");
    assert_eq!(persist::resolve_path::<Ron>("data.json"), Ron::with_ext("data.json"));
}

#[test]
fn extensions_are_the_canonical_ones() {
    assert_eq!(Json::extension(), "json");
    assert_eq!(Yaml::extension(), "yaml");
    assert_eq!(Toml::extension(), "toml");
    assert_eq!(Ron::extension(), "ron");
}
