use framebot::codec::is_jpeg;
use framebot::frame_store::{
    count_frame_files, frame_file_path, is_frame_extension_str, is_frame_file, DirEntryInfo,
    FrameCountCache,
};

fn entry(is_file: bool, extension: Option<&str>) -> DirEntryInfo {
    DirEntryInfo { is_file, extension: extension.map(|e| e.to_string()) }
}

#[test]
fn frame_extension_is_lowercase_jpg_only() {
    assert!(is_frame_extension_str("jpg"));
    assert!(!is_frame_extension_str("JPG"));
    assert!(!is_frame_extension_str("jpeg"));
    assert!(!is_frame_extension_str("png"));
    assert!(!is_frame_extension_str(""));
}

#[test]
fn directories_are_not_frames() {
    assert!(is_frame_file(&entry(true, Some("jpg"))));
    assert!(!is_frame_file(&entry(false, Some("jpg"))));
    assert!(!is_frame_file(&entry(true, None)));
}

#[test]
fn counts_only_frame_files() {
    let entries = vec![
        entry(true, Some("jpg")),
        entry(true, Some("png")),
        entry(false, Some("jpg")),
        entry(true, None),
        entry(true, Some("jpg")),
        entry(true, Some("jxl")),
    ];
    assert_eq!(count_frame_files(&entries), 2);
    assert_eq!(count_frame_files(&Vec::new()), 0);
}

#[test]
fn frame_paths_follow_naming_convention() {
    assert_eq!(frame_file_path("frames", 42), "frames/42.jpg");
    assert_eq!(frame_file_path("frames", 1), "frames/1.jpg");
    assert_eq!(frame_file_path("frames", 0), "frames/0.jpg");
    assert_eq!(frame_file_path("a/b", 1000), "a/b/1000.jpg");
    assert_eq!(frame_file_path("frames", u32::MAX), "frames/4294967295.jpg");
}

#[test]
fn cache_keeps_first_count() {
    let mut cache = FrameCountCache::new();
    assert_eq!(cache.get(), None);
    assert_eq!(cache.record(12), 12);
    assert_eq!(cache.get(), Some(12));
    assert_eq!(cache.record(30), 12);
    assert_eq!(cache.get(), Some(12));
}

#[test]
fn jpeg_recognised_by_signature() {
    assert!(is_jpeg(&[0xFF, 0xD8, 0xFF]));
    assert!(is_jpeg(&[0xFF, 0xD8, 0xFF, 0xE0, 0x00]));
    assert!(!is_jpeg(&[0xFF, 0xD8]));
    assert!(!is_jpeg(&[0x89, b'P', b'N', b'G']));
    assert!(!is_jpeg(&[]));
}
