use std::path::{Path, PathBuf};
use std::time::Duration;

use menmos::builder::{ClientSettings, MenmosBuilder};
use menmos::error::MetadataDetectorError;
use menmos::metadata_detector::MetadataDetector;
use menmos::profile::{load_profile_from_config, Config, ConfigError, Profile};
use menmos::push::{push_meta, push_outcome, PushError, PushWalk};
use menmos::remote::{BlobMeta, BlobType};

const MIME_TYPES: &str = r#"{"txt": "text/plain", "png": "image/png", "tar": "application/x-tar"}"#;

fn extension(path: &str) -> Option<&str> {
    Path::new(path).extension().and_then(|e| e.to_str())
}

fn pairs(items: &[(&str, &str)]) -> Vec<(String, String)> {
    items.iter().map(|(k, v)| (k.to_string(), v.to_string())).collect()
}

fn as_map(pairs: &[(String, String)]) -> std::collections::HashMap<String, String> {
    pairs.iter().cloned().collect()
}

#[test]
fn detect_file_mime_type() {
    let path = "foo.txt";
    let metadata_detector = MetadataDetector::new(MIME_TYPES.as_bytes()).unwrap();

    let mime_type = metadata_detector.detect_mime_type(extension(path));

    assert!(mime_type.is_some());
    assert_eq!(mime_type.unwrap(), "text/plain");
}

#[test]
fn detect_no_mime_type() {
    let path = "foo.invalid";
    let metadata_detector = MetadataDetector::new(MIME_TYPES.as_bytes()).unwrap();

    let mime_type = metadata_detector.detect_mime_type(extension(path));

    assert!(mime_type.is_none());
}

#[test]
fn detect_without_extension() {
    let detector = MetadataDetector::new(MIME_TYPES.as_bytes()).unwrap();
    assert_eq!(detector.detect_mime_type(None), None);
    assert_eq!(detector.detect_mime_type(extension("Makefile")), None);
}

#[test]
fn detector_rejects_table_that_is_no_object_of_strings() {
    assert_eq!(
        MetadataDetector::new(b"not json").err(),
        Some(MetadataDetectorError::InvalidMimeTable)
    );
    assert_eq!(
        MetadataDetector::new(br#"{"txt": 3}"#).err(),
        Some(MetadataDetectorError::InvalidMimeTable)
    );
    assert_eq!(
        MetadataDetector::new(br#"["txt"]"#).err(),
        Some(MetadataDetectorError::InvalidMimeTable)
    );
    assert!(MetadataDetector::new(b"{}").is_ok());
}

#[test]
fn detector_later_pair_counts() {
    let detector = MetadataDetector::from_table(pairs(&[("a", "one"), ("b", "two"), ("a", "three")]));
    assert_eq!(detector.detect_mime_type(Some("a")), Some(String::from("three")));
    assert_eq!(detector.detect_mime_type(Some("b")), Some(String::from("two")));
    assert_eq!(detector.detect_mime_type(Some("c")), None);
}

fn empty_meta() -> BlobMeta {
    BlobMeta {
        name: String::from("n"),
        blob_type: BlobType::File,
        metadata: pairs(&[("k", "v")]),
        tags: Vec::new(),
        parents: Vec::new(),
        size: 0,
    }
}

#[test]
fn populate_files_type_and_extension() {
    let detector = MetadataDetector::new(MIME_TYPES.as_bytes()).unwrap();

    let mut meta = empty_meta();
    assert_eq!(detector.populate(extension("dir/pic.png"), &mut meta), Ok(()));
    assert_eq!(
        as_map(&meta.metadata),
        as_map(&pairs(&[("k", "v"), ("content-type", "image/png"), ("extension", "png")]))
    );

    let mut meta = empty_meta();
    assert_eq!(detector.populate(extension("a.unknown"), &mut meta), Ok(()));
    assert_eq!(as_map(&meta.metadata), as_map(&pairs(&[("k", "v"), ("extension", "unknown")])));

    let mut meta = empty_meta();
    assert_eq!(detector.populate(extension("plain"), &mut meta), Ok(()));
    assert_eq!(meta, empty_meta());
}

#[test]
fn push_meta_for_a_file() {
    let detector = MetadataDetector::new(MIME_TYPES.as_bytes()).unwrap();
    let tags = vec![String::from("t1"), String::from("t2")];
    let meta_map = pairs(&[("owner", "me"), ("extension", "mine")]);
    let meta = push_meta(
        String::from("notes.txt"),
        extension("notes.txt"),
        &detector,
        &tags,
        &meta_map,
        BlobType::File,
        Some(42),
        Some(String::from("parent")),
    )
    .unwrap();
    assert_eq!(meta.name, "notes.txt");
    assert_eq!(meta.blob_type, BlobType::File);
    assert_eq!(meta.size, 42);
    assert_eq!(meta.tags, tags);
    assert_eq!(meta.parents, vec!["parent"]);
    assert_eq!(
        as_map(&meta.metadata),
        as_map(&pairs(&[("content-type", "text/plain"), ("extension", "mine"), ("owner", "me")]))
    );
}

#[test]
fn push_meta_for_a_directory_has_no_size() {
    let detector = MetadataDetector::new(MIME_TYPES.as_bytes()).unwrap();
    let meta = push_meta(
        String::from("photos"),
        extension("photos"),
        &detector,
        &Vec::new(),
        &Vec::new(),
        BlobType::Directory,
        Some(4096),
        None,
    )
    .unwrap();
    assert_eq!(
        meta,
        BlobMeta {
            name: String::from("photos"),
            blob_type: BlobType::Directory,
            metadata: Vec::new(),
            tags: Vec::new(),
            parents: Vec::new(),
            size: 0,
        }
    );
    let meta = push_meta(
        String::from("f"),
        None,
        &detector,
        &Vec::new(),
        &Vec::new(),
        BlobType::File,
        None,
        None,
    )
    .unwrap();
    assert_eq!(meta.size, 0);
}

#[test]
fn push_outcome_keeps_id_or_path() {
    assert_eq!(push_outcome(PathBuf::from("a/b"), Ok(String::from("id"))).ok(), Some(String::from("id")));
    match push_outcome(PathBuf::from("a/b"), Err(String::from("refused"))) {
        Err(PushError::BlobPushError { path }) => assert_eq!(path, PathBuf::from("a/b")),
        other => panic!("unexpected outcome: {:?}", other),
    }
}

#[test]
fn push_walk_goes_depth_first_from_the_last_path() {
    let mut walk = PushWalk::new(vec![PathBuf::from("a"), PathBuf::from("b")], Some(String::from("top")));
    assert_eq!(walk.next(), Some((Some(String::from("top")), PathBuf::from("b"))));
    walk.directory_pushed(String::from("id-b"), vec![PathBuf::from("b/1"), PathBuf::from("b/2")]);
    assert_eq!(walk.next(), Some((Some(String::from("id-b")), PathBuf::from("b/2"))));
    assert_eq!(walk.next(), Some((Some(String::from("id-b")), PathBuf::from("b/1"))));
    walk.directory_pushed(String::from("id-b1"), Vec::new());
    assert_eq!(walk.next(), Some((Some(String::from("top")), PathBuf::from("a"))));
    assert_eq!(walk.next(), None);
    assert_eq!(walk.next(), None);
}

#[test]
fn push_walk_without_parent() {
    let mut walk = PushWalk::new(vec![PathBuf::from("only")], None);
    assert_eq!(walk.next(), Some((None, PathBuf::from("only"))));
    assert_eq!(walk.next(), None);
}

fn profile(host: &str) -> Profile {
    Profile {
        host: String::from(host),
        username: String::from("user"),
        password: String::from("secret"),
    }
}

#[test]
fn config_add_and_lookup() {
    let mut config = Config::default();
    assert_eq!(
        load_profile_from_config(&config, "local"),
        Err(ConfigError::MissingProfile { name: String::from("local") })
    );
    config.add("local", profile("http://a"));
    config.add("remote", profile("http://b"));
    assert_eq!(load_profile_from_config(&config, "local"), Ok(profile("http://a")));
    assert_eq!(load_profile_from_config(&config, "remote"), Ok(profile("http://b")));
    config.add("local", profile("http://c"));
    assert_eq!(load_profile_from_config(&config, "local"), Ok(profile("http://c")));
    assert_eq!(
        load_profile_from_config(&config, "other"),
        Err(ConfigError::MissingProfile { name: String::from("other") })
    );
}

#[test]
fn builder_collects_options() {
    let mut config = Config::default();
    config.add("local", profile("http://a"));

    let settings = MenmosBuilder::new(String::from("local")).build(&config).unwrap();
    assert_eq!(
        settings,
        ClientSettings {
            host: String::from("http://a"),
            username: String::from("user"),
            password: String::from("secret"),
            metadata_detection: true,
            request_timeout: None,
            max_retry_count: None,
            retry_interval: None,
        }
    );

    let settings = MenmosBuilder::new(String::from("local"))
        .with_request_timeout(Duration::from_secs(30))
        .with_max_retry_count(4)
        .with_retry_interval(Duration::from_millis(250))
        .build(&config)
        .unwrap();
    assert_eq!(settings.request_timeout, Some(Duration::from_secs(30)));
    assert_eq!(settings.max_retry_count, Some(4));
    assert_eq!(settings.retry_interval, Some(Duration::from_millis(250)));
    assert!(settings.metadata_detection);

    assert_eq!(
        MenmosBuilder::new(String::from("nope")).build(&config),
        Err(ConfigError::MissingProfile { name: String::from("nope") })
    );
}

#[test]
fn plain_settings_have_no_detection() {
    let settings = ClientSettings::plain(profile("http://a"));
    assert_eq!(settings.host, "http://a");
    assert_eq!(settings.username, "user");
    assert_eq!(settings.password, "secret");
    assert!(!settings.metadata_detection);
    assert_eq!(settings.request_timeout, None);
    assert_eq!(settings.max_retry_count, None);
    assert_eq!(settings.retry_interval, None);
}
