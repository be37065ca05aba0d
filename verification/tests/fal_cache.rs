use space_recorder::fal::cache::{join_path, VideoCache};
use space_recorder::fal::cache::{is_prompt_file, is_video_file};
use space_recorder::fal::cache::hash_of_file;
use space_recorder::fal::cache::oldest_first;
use space_recorder::fal::cache::CacheCleanup;

#[test]
fn test_new_with_custom_dir() {
    let custom_path = "/tmp/test-cache/fal-videos".to_string();
    let cache = VideoCache::new(custom_path.clone());
    assert_eq!(cache.cache_dir(), custom_path);
}

#[test]
fn test_configurable_cache_directory() {
    let custom_paths = vec![
        "/tmp/custom-cache".to_string(),
        "/var/cache/space-recorder".to_string(),
        "./local-cache".to_string(),
    ];
    for path in custom_paths {
        let cache = VideoCache::new(path.clone());
        assert_eq!(cache.cache_dir(), path);
    }
}

#[test]
fn test_cache_dir_accessor() {
    let path = "/test/path".to_string();
    let cache = VideoCache::new(path.clone());
    assert_eq!(cache.cache_dir(), path.as_str());
}

#[test]
fn test_hash_prompt_deterministic() {
    let prompt = "cyberpunk cityscape";
    let hash1 = VideoCache::hash_prompt(prompt);
    let hash2 = VideoCache::hash_prompt(prompt);
    assert_eq!(hash1, hash2);
}

#[test]
fn test_hash_prompt_different_for_different_prompts() {
    let hash1 = VideoCache::hash_prompt("cyberpunk cityscape");
    let hash2 = VideoCache::hash_prompt("abstract particles");
    assert_ne!(hash1, hash2);
}

#[test]
fn test_hash_prompt_is_filesystem_safe() {
    let hash = VideoCache::hash_prompt("test prompt with special chars !@#$%");
    assert!(hash.chars().all(|c| c.is_ascii_hexdigit()));
    assert_eq!(hash.len(), 32);
}

#[test]
fn hash_prompt_known_value() {
    // SHA-256("abc") = ba7816bf8f01cfea414140de5dae2223b00361a396177a9cb410ff61f20015ad
    assert_eq!(VideoCache::hash_prompt("abc"), "ba7816bf8f01cfea414140de5dae2223");
    assert_eq!(VideoCache::video_file_name("abc"), "ba7816bf8f01cfea414140de5dae2223.mp4");
    assert_eq!(VideoCache::prompt_file_name("ba7816bf"), "ba7816bf.prompt");
}

#[test]
fn cache_file_names_follow_the_hash() {
    let hash = VideoCache::hash_prompt("cyberpunk cityscape");
    assert_eq!(VideoCache::video_file_name("cyberpunk cityscape"), format!("{}.mp4", hash));
    assert_eq!(VideoCache::prompt_file_name(&hash), format!("{}.prompt", hash));
}

#[test]
fn cache_recognises_video_and_prompt_files() {
    assert!(is_video_file("abc.mp4"));
    assert!(!is_video_file("abc.mp4.tmp"));
    assert!(!is_video_file(".mp4"));
    assert!(!is_video_file("abc"));
    assert!(!is_video_file("abc.MP4"));
    assert!(!is_video_file("abc.prompt"));
    assert!(is_prompt_file("abc.prompt"));
    assert!(!is_prompt_file("abc.mp4"));
    assert!(is_video_file("a.b.mp4"));
}

#[test]
fn cache_hash_of_file_is_the_stem() {
    assert_eq!(hash_of_file("abc123.mp4"), "abc123");
    assert_eq!(hash_of_file("a.b.mp4"), "a.b");
    assert_eq!(hash_of_file("noext"), "noext");
    assert_eq!(hash_of_file(".hidden"), ".hidden");
}

#[test]
fn cache_removes_oldest_first_and_keeps_listing_order_on_ties() {
    assert_eq!(oldest_first(&[30, 10, 20]), vec![1, 2, 0]);
    assert_eq!(oldest_first(&[5, 5, 1]), vec![2, 0, 1]);
    assert_eq!(oldest_first(&[]), Vec::<usize>::new());
}

#[test]
fn cache_cleanup_stops_once_under_the_limit() {
    let mut c = CacheCleanup::new(3 * 1024 * 1024, 2);
    assert_eq!(c.limit, 2 * 1024 * 1024);
    assert!(!c.done());
    c.record(512 * 1024, false);
    assert_eq!(c.total, 3 * 1024 * 1024);
    c.record(1024 * 1024, true);
    assert!(c.done());
    c.record(u64::MAX, true);
    assert_eq!(c.total, 0);
}

#[test]
fn cache_paths_join_like_path_join() {
    assert_eq!(join_path("/tmp/cache", "a.mp4"), "/tmp/cache/a.mp4");
    assert_eq!(join_path("/tmp/cache/", "a.mp4"), "/tmp/cache/a.mp4");
    assert_eq!(join_path("", "a.mp4"), "a.mp4");
    let cache = VideoCache::new("/tmp/c".to_string());
    let hash = VideoCache::hash_prompt("sunset");
    assert_eq!(cache.video_path("sunset"), format!("/tmp/c/{}.mp4", hash));
    assert_eq!(cache.prompt_path(&hash), format!("/tmp/c/{}.prompt", hash));
    let expected = std::path::Path::new("/tmp/c").join(format!("{}.mp4", hash));
    assert_eq!(cache.video_path("sunset"), expected.to_str().unwrap());
}

#[test]
fn cache_hashed_video_path() {
    let cache = VideoCache::new("/tmp/c".to_string());
    assert_eq!(cache.hashed_video_path("abc"), "/tmp/c/abc.mp4");
}

#[test]
fn cache_hash_is_the_sha256_prefix_in_hex() {
    assert_eq!(VideoCache::hash_prompt(""), "e3b0c44298fc1c149afbf4c8996fb924");
    assert_eq!(VideoCache::hash_prompt("abc"), "ba7816bf8f01cfea414140de5dae2223");
}
