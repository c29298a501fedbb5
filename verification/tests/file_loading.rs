use angulito::loading::{media_kind, LoadReport, MediaKind};

#[test]
fn mime_types_sort_into_images_videos_and_the_rest() {
    assert_eq!(media_kind("image/png"), MediaKind::Image);
    assert_eq!(media_kind("image/jpeg"), MediaKind::Image);
    assert_eq!(media_kind("video/mp4"), MediaKind::Video);
    assert_eq!(media_kind("video"), MediaKind::Video);
    assert_eq!(media_kind("application/pdf"), MediaKind::Unsupported);
    assert_eq!(media_kind(""), MediaKind::Unsupported);
    assert_eq!(media_kind("vid"), MediaKind::Unsupported);
    assert_eq!(media_kind("text/image"), MediaKind::Unsupported);
    assert_eq!(media_kind("Image/png"), MediaKind::Unsupported);
}

#[test]
fn a_clean_load_has_no_status() {
    let mut report = LoadReport::new();
    assert!(report.admit_video());
    report.finish_selection();
    assert_eq!(report.status(), None);
    assert_eq!(report.video_count(), 1);
}

#[test]
fn only_the_first_video_is_shown() {
    let mut report = LoadReport::new();
    assert!(report.admit_video());
    assert!(!report.admit_video());
    assert!(!report.admit_video());
    report.finish_selection();
    assert_eq!(
        report.status().as_deref(),
        Some(
            "Only one video can be open at a time. The first of the 3 selected videos was \
             opened and the rest were discarded."
        )
    );
}

#[test]
fn messages_are_joined_in_order() {
    let mut report = LoadReport::new();
    report.reject_unsupported("notes.txt");
    report.report_open_failure("clip.mp4");
    assert!(report.admit_video());
    assert!(!report.admit_video());
    report.finish_selection();
    report.report_decode_failure("photo.heic");
    assert_eq!(
        report.status().as_deref(),
        Some(
            "\"notes.txt\" is not an image or video file. Failed to open \"clip.mp4\". \
             Only one video can be open at a time. The first of the 2 selected videos was \
             opened and the rest were discarded. Could not decode \"photo.heic\". The browser \
             may not support this image format. Converting it to PNG or JPEG usually helps."
        )
    );
}

#[test]
fn a_single_message_stands_alone() {
    let mut report = LoadReport::new();
    report.reject_unsupported("a.zip");
    assert_eq!(
        report.status().as_deref(),
        Some("\"a.zip\" is not an image or video file.")
    );
}

#[test]
fn many_videos_are_counted_in_decimal() {
    let mut report = LoadReport::new();
    for _ in 0..12 {
        report.admit_video();
    }
    report.finish_selection();
    let status = report.status().unwrap();
    assert!(status.contains("The first of the 12 selected videos"), "{status}");
}
