use kafka_cli::path::{path_extension, path_file_name, path_join};
use std::path::Path;

fn std_file_name(p: &str) -> Option<String> {
    Path::new(p).file_name().map(|f| f.to_str().unwrap().to_string())
}

fn std_extension(p: &str) -> Option<String> {
    Path::new(p).extension().map(|f| f.to_str().unwrap().to_string())
}

const PATHS: &[&str] = &[
    "", "/", "a", "a/b", "a/b/", "a//b", "a/.", "./a", ".", "./", "..", "a/..", "a/../",
    "../.", "/a/b.json", "resources/msg.avro", "msg", ".hidden", ".hidden.json", "a.b.avro",
    "a.", "dir.d/file", "dir.d/file.", "x/y.tar.gz/", "x/./y/.", "é/ü.txt", "..a", "a..",
];

#[test]
fn file_name_agrees_with_std() {
    for p in PATHS {
        assert_eq!(path_file_name(p).map(|s| s.to_string()), std_file_name(p), "path {:?}", p);
    }
}

#[test]
fn extension_agrees_with_std() {
    for p in PATHS {
        assert_eq!(path_extension(p).map(|s| s.to_string()), std_extension(p), "path {:?}", p);
    }
}

#[test]
fn file_name_examples() {
    assert_eq!(path_file_name("resources/msg.json"), Some("msg.json"));
    assert_eq!(path_file_name("a/b/."), Some("b"));
    assert_eq!(path_file_name("a/.."), None);
    assert_eq!(path_file_name("/"), None);
}

#[test]
fn extension_examples() {
    assert_eq!(path_extension("resources/msg.json"), Some("json"));
    assert_eq!(path_extension("resources/msg.avro"), Some("avro"));
    assert_eq!(path_extension("resources/msg"), None);
    assert_eq!(path_extension(".hidden"), None);
    assert_eq!(path_extension("archive.tar.gz"), Some("gz"));
    assert_eq!(path_extension("trailing."), Some(""));
}

#[test]
fn join_examples() {
    assert_eq!(path_join("resources", "consumer.yaml"), "resources/consumer.yaml");
    assert_eq!(path_join("resources/", "consumer.yaml"), "resources/consumer.yaml");
    assert_eq!(path_join("", "consumer.yaml"), "consumer.yaml");
    assert_eq!(path_join("resources", "/etc/x"), "/etc/x");
    for (base, name) in [("a", "b"), ("a/", "b"), ("", "b"), ("a", "/b"), ("/", "b"), ("a/b", "c.json")] {
        let ours = path_join(base, name);
        let std = Path::new(base).join(name);
        assert_eq!(ours, std.to_str().unwrap(), "join {:?} {:?}", base, name);
    }
}

#[test]
fn file_name_of_join_is_the_name() {
    for base in ["", "a", "a/", "/x/y", "./"] {
        let joined = path_join(base, "producer.json");
        assert_eq!(path_file_name(&joined), Some("producer.json"));
    }
}
