use hash_cache::store::artifact_ext;
use hash_cache::store::artifact_name;
use hash_cache::store::artifact_path;
use hash_cache::store::artifact_path_for_source;
use hash_cache::store::cache_root;

#[test]
fn test_cache_root_value() {
    assert_eq!(cache_root(), "./.hash_cache");
}

#[test]
fn test_artifact_ext_value() {
    assert_eq!(artifact_ext(), "png");
}

#[test]
fn test_artifact_name_value() {
    assert_eq!(artifact_name("abc"), "abc.png");
}

#[test]
fn test_artifact_path_value() {
    assert_eq!(artifact_path("abc"), "./.hash_cache/abc.png");
}

#[test]
fn test_artifact_path_for_source_value() {
    // The path embeds the content fingerprint of the source bytes.
    assert_eq!(
        artifact_path_for_source(b"abc"),
        "./.hash_cache/a9993e364706816aba3e25717850c26c9cd0d89d.png"
    );
}

#[test]
fn test_artifact_path_same_for_equal_content() {
    let a: Vec<u8> = b"shared content".to_vec();
    let b: Vec<u8> = b"shared content".to_vec();
    assert_eq!(artifact_path_for_source(&a), artifact_path_for_source(&b));
}
