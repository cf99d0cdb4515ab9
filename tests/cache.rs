use bb_imager::cache::{extension_of, CacheError, CacheState, Downloader};
use sha2::Digest;

const EMPTY_SHA: &str = "e3b0c44298fc1c149afbf4c8996fb92427ae41e4649b934ca495991b7852b855";

fn sha(data: &[u8]) -> [u8; 32] {
    sha2::Sha256::digest(data).into()
}

fn downloader() -> Downloader {
    Downloader::new("/tmp/cache".to_string(), true).unwrap()
}

#[test]
fn cache_dir_must_be_a_directory() {
    assert_eq!(Downloader::new("/tmp/file".to_string(), false).unwrap_err(), CacheError::NotADirectory);
    assert_eq!(downloader().cache_dir, "/tmp/cache");
}

#[test]
fn path_from_sha_is_lowercase_hex() {
    let d = downloader();
    assert_eq!(d.path_from_sha(&sha(b"")), format!("/tmp/cache/{EMPTY_SHA}"));
    let slash = Downloader::new("/tmp/cache/".to_string(), true).unwrap();
    assert_eq!(slash.path_from_sha(&[0xab; 32]), format!("/tmp/cache/{}", "ab".repeat(32)));
}

#[test]
fn verified_fetch_round_trip() {
    let d = downloader();
    let content = b"an image".to_vec();
    let h = sha(&content);
    let p = d.verified_path(&h, &content).unwrap();
    let check = d.check_cache_from_sha(&h, Some(&content));
    assert_eq!(check.state, CacheState::Hit);
    assert_eq!(check.path, p);
    assert_eq!(check.cached_path(), Some(p));
}

#[test]
fn verified_fetch_rejects_wrong_hash() {
    let d = downloader();
    assert_eq!(d.verified_path(&sha(b"other"), b"an image"), Err(CacheError::InvalidContent));
}

#[test]
fn corrupted_entry_is_reported_absent() {
    let d = downloader();
    let h = sha(b"an image");
    let check = d.check_cache_from_sha(&h, Some(b"garbage"));
    assert_eq!(check.state, CacheState::Corrupt);
    assert_eq!(check.path, d.path_from_sha(&h));
    assert_eq!(check.cached_path(), None);
    let missing = d.check_cache_from_sha(&h, None);
    assert_eq!(missing.state, CacheState::Miss);
}

#[test]
fn url_lookup_never_verifies() {
    let d = downloader();
    let url = "https://example.com/img.jpg";
    let expected = format!("/tmp/cache/{}.jpg", const_hex::encode(sha(url.as_bytes())));
    assert_eq!(d.path_from_url(url), Some(expected.clone()));
    assert_eq!(d.check_cache_from_url(url, true), Some(expected));
    assert_eq!(d.check_cache_from_url(url, false), None);
}

#[test]
fn url_names_need_a_file_extension() {
    let d = downloader();
    assert_eq!(d.path_from_url("not a url"), None);
    assert_eq!(d.path_from_url("https://example.com/dir/"), None);
    assert_eq!(d.path_from_url("https://example.com/.hidden"), None);
    assert_eq!(d.path_from_url("https://example.com/img."), None);
    let p = d.path_from_url("https://example.com/a/os.img.xz?x=1").unwrap();
    assert!(p.ends_with(".xz"));
}

#[test]
fn extensions_of_paths() {
    assert_eq!(extension_of("/a/b.img.xz").as_deref(), Some("xz"));
    assert_eq!(extension_of("/a/b.img/").as_deref(), Some("img"));
    assert_eq!(extension_of("/a/b"), None);
    assert_eq!(extension_of("/a.d/b"), None);
    assert_eq!(extension_of("/.bashrc"), None);
    assert_eq!(extension_of("/a/b."), None);
}

#[test]
fn url_names_never_look_like_hash_names() {
    let d = downloader();
    let url = "https://example.com/os.img";
    let p = d.path_from_url(url).unwrap();
    assert_ne!(p, d.path_from_sha(&sha(url.as_bytes())));
    assert!(p.ends_with(".img"));
}
