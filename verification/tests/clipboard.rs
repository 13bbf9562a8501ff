use clipboard_next::ClipboardContentValue;
use clipboard_next::ClipboardError;
use clipboard_next::ClipboardFormat;
use clipboard_next::ClipboardService;
use clipboard_next::ClipboardState;
use clipboard_next::FileSizeProbe;
use clipboard_next::ImageData;
use clipboard_next::build_read_files;
use clipboard_next::extract_single;
use clipboard_next::finish_read_image;
use clipboard_next::fnv1a64;
use clipboard_next::get_file_path;
use clipboard_next::image_cache_path;
use clipboard_next::u64_to_dec;

fn sample_image(bytes: Vec<u8>) -> ImageData {
    ImageData { bytes, width: 2, height: 3 }
}

#[test]
fn write_text_then_read_scenario() {
    let mut svc = ClipboardService::new();
    let req = svc.write_text(String::from("hello"));
    assert_eq!(req.len(), 1);
    assert!(matches!(&req[0], ClipboardContentValue::Text(s) if s == "hello"));
    assert!(svc.has_text());
    assert_eq!(svc.read_text().unwrap(), "hello");
    assert!(!svc.has_image());
    assert!(!svc.has_rtf());
    assert!(!svc.has_html());
    assert!(!svc.has_files());
}

#[test]
fn write_rtf_round_trip_and_plain_fallback() {
    let mut svc = ClipboardService::new();
    let req = svc.write_rtf(String::from("{\\rtf1 body}"));
    assert_eq!(req.len(), 2);
    assert!(matches!(&req[0], ClipboardContentValue::Rtf(s) if s == "{\\rtf1 body}"));
    assert!(matches!(&req[1], ClipboardContentValue::Text(s) if s == "{\\rtf1 body}"));
    assert!(svc.has_rtf());
    assert!(svc.has_text());
    assert_eq!(svc.read_rtf().unwrap(), "{\\rtf1 body}");
    assert_eq!(svc.read_text().unwrap(), "{\\rtf1 body}");
    assert!(!svc.has_html());
}

#[test]
fn write_html_round_trip_and_plain_fallback() {
    let mut svc = ClipboardService::new();
    svc.write_html(String::from("<p>Hi</p>"));
    assert!(svc.has_html());
    assert!(svc.has_text());
    assert_eq!(svc.read_html().unwrap(), "<p>Hi</p>");
    assert_eq!(svc.read_text().unwrap(), "<p>Hi</p>");
    assert!(!svc.has_rtf());
}

#[test]
fn write_image_round_trip() {
    let mut svc = ClipboardService::new();
    let req = svc.write_image(sample_image(vec![1, 2, 3]));
    assert_eq!(req.len(), 1);
    assert!(matches!(&req[0], ClipboardContentValue::Image(img) if img.bytes == vec![1, 2, 3]));
    assert!(svc.has_image());
    assert!(!svc.has_text());
}

#[test]
fn write_files_round_trip() {
    let mut svc = ClipboardService::new();
    svc.write_files(vec![String::from("/a"), String::from("/b")]);
    assert!(svc.has_files());
    assert_eq!(svc.read_files().unwrap(), vec![String::from("/a"), String::from("/b")]);
    assert!(!svc.has_text());
}

#[test]
fn clear_leaves_every_format_absent() {
    let mut svc = ClipboardService::new();
    svc.write_rtf(String::from("body"));
    svc.clear();
    assert!(!svc.has_text());
    assert!(!svc.has_rtf());
    assert!(!svc.has_html());
    assert!(!svc.has_image());
    assert!(!svc.has_files());
}

#[test]
fn read_text_absent_is_format_not_present() {
    let svc = ClipboardService::new();
    let err = svc.read_text().unwrap_err();
    assert!(err.is_format_not_present());
    assert!(matches!(err, ClipboardError::FormatNotPresent));
}

#[test]
fn read_files_absent_is_format_not_present() {
    let svc = ClipboardService::new();
    assert!(matches!(svc.read_files(), Err(ClipboardError::FormatNotPresent)));
}

#[test]
fn start_watch_twice_leaves_one_active_watcher() {
    let mut svc = ClipboardService::new();
    let first = svc.start_watch();
    assert_eq!(first.stop_first, None);
    let second = svc.start_watch();
    assert_eq!(second.stop_first, Some(first.spawn));
    assert_ne!(second.spawn, first.spawn);
    let stopped = svc.stop_watch();
    assert_eq!(stopped, Some(second.spawn));
    assert_eq!(svc.stop_watch(), None);
}

#[test]
fn stop_watch_without_watcher_is_noop() {
    let mut svc = ClipboardService::new();
    assert_eq!(svc.stop_watch(), None);
    assert_eq!(svc.stop_watch(), None);
}

#[test]
fn read_image_twice_writes_once_and_reuses_path() {
    let mut svc = ClipboardService::new();
    let img = sample_image(vec![9, 9, 9, 1]);
    let first = svc.read_image(&img, "/tmp/cache", false);
    assert!(first.needs_write);
    let second = svc.read_image(&img, "/tmp/cache", true);
    assert!(!second.needs_write);
    assert_eq!(first.path, second.path);
    assert_eq!(first.width, 2);
    assert_eq!(first.height, 3);
}

#[test]
fn read_image_skips_write_when_file_already_on_disk() {
    let mut svc = ClipboardService::new();
    let img = sample_image(vec![5]);
    let plan = svc.read_image(&img, "/tmp/cache", true);
    assert!(!plan.needs_write);
}

#[test]
fn finish_read_image_reports_probed_size_or_zero() {
    let mut svc = ClipboardService::new();
    let img = sample_image(vec![7]);
    let plan = svc.read_image(&img, "/d", false);
    let path = plan.path.clone();
    let done = finish_read_image(plan, Some(42));
    assert_eq!(done.path, path);
    assert_eq!(done.size, 42);
    assert_eq!(done.width, 2);
    assert_eq!(done.height, 3);
    let plan2 = svc.read_image(&img, "/d", true);
    let done2 = finish_read_image(plan2, None);
    assert_eq!(done2.size, 0);
}

#[test]
fn read_files_with_missing_path_keeps_other_sizes() {
    let probes = vec![
        FileSizeProbe { path: String::from("/a"), size: Some(10) },
        FileSizeProbe { path: String::from("/missing"), size: None },
        FileSizeProbe { path: String::from("/b"), size: Some(32) },
    ];
    let r = build_read_files(probes);
    assert_eq!(r.files.len(), 3);
    assert_eq!(r.files[0].path, "/a");
    assert_eq!(r.files[0].size, 10);
    assert_eq!(r.files[1].path, "/missing");
    assert_eq!(r.files[1].size, 0);
    assert_eq!(r.files[2].path, "/b");
    assert_eq!(r.files[2].size, 32);
    assert_eq!(r.size, 42);
}

#[test]
fn empty_file_list_reads_back_empty_with_zero_total() {
    let mut svc = ClipboardService::new();
    svc.write_files(Vec::new());
    assert!(svc.has_files());
    let paths = svc.read_files().unwrap();
    assert!(paths.is_empty());
    let r = build_read_files(Vec::new());
    assert!(r.files.is_empty());
    assert_eq!(r.size, 0);
}

#[test]
fn file_size_total_saturates_instead_of_wrapping() {
    let probes = vec![
        FileSizeProbe { path: String::from("/big"), size: Some(u64::MAX) },
        FileSizeProbe { path: String::from("/more"), size: Some(7) },
    ];
    let r = build_read_files(probes);
    assert_eq!(r.size, u64::MAX);
}

#[test]
fn fnv1a_matches_reference_values() {
    assert_eq!(fnv1a64(&Vec::new()), 0xcbf29ce484222325);
    assert_eq!(fnv1a64(&vec![0x61]), 0xaf63dc4c8601ec8c);
    assert_eq!(fnv1a64(&vec![0x61, 0x62, 0x63]), 0xe71fa2190541574b);
}

#[test]
fn decimal_rendering_exact() {
    assert_eq!(u64_to_dec(0), "0");
    assert_eq!(u64_to_dec(10), "10");
    assert_eq!(u64_to_dec(9876543210), "9876543210");
    assert_eq!(u64_to_dec(u64::MAX), "18446744073709551615");
}

#[test]
fn image_cache_path_is_content_addressed() {
    let img = ImageData { bytes: Vec::new(), width: 1, height: 1 };
    let path = image_cache_path("/tmp/x", &img);
    assert_eq!(path, "/tmp/x/14695981039346656037.png");
    let same = image_cache_path("/tmp/x", &ImageData { bytes: Vec::new(), width: 9, height: 9 });
    assert_eq!(path, same);
}

#[test]
fn get_file_path_appends_plugin_directories() {
    assert_eq!(get_file_path("/data"), "/data/tauri-plugin-clipboard-next/file");
}

#[test]
fn extract_single_picks_matching_format() {
    let batch = vec![
        ClipboardContentValue::Rtf(String::from("rich")),
        ClipboardContentValue::Text(String::from("plain")),
    ];
    assert_eq!(extract_single(&batch, ClipboardFormat::Text).unwrap(), "plain");
    assert_eq!(extract_single(&batch, ClipboardFormat::Rtf).unwrap(), "rich");
    assert!(matches!(
        extract_single(&batch, ClipboardFormat::Html),
        Err(ClipboardError::FormatNotPresent)
    ));
    assert!(matches!(
        extract_single(&Vec::new(), ClipboardFormat::Text),
        Err(ClipboardError::FormatNotPresent)
    ));
}

#[test]
fn store_set_contents_and_get_contents() {
    let mut store = ClipboardState::new();
    store.set_contents(vec![
        ClipboardContentValue::Html(String::from("<b>x</b>")),
        ClipboardContentValue::Text(String::from("x")),
    ]);
    assert!(store.format_present(ClipboardFormat::Text));
    assert!(store.format_present(ClipboardFormat::Html));
    assert!(!store.format_present(ClipboardFormat::Image));
    let got = store.get_contents(&vec![ClipboardFormat::Text, ClipboardFormat::Html]);
    assert_eq!(got.len(), 2);
    assert!(matches!(&got[0], ClipboardContentValue::Text(s) if s == "x"));
    assert!(matches!(&got[1], ClipboardContentValue::Html(s) if s == "<b>x</b>"));
    let none = store.get_contents(&vec![ClipboardFormat::Image]);
    assert!(none.is_empty());
}

#[test]
fn later_value_of_same_format_wins_in_one_batch() {
    let mut store = ClipboardState::new();
    store.set_contents(vec![
        ClipboardContentValue::Text(String::from("first")),
        ClipboardContentValue::Text(String::from("second")),
    ]);
    assert_eq!(store.read_text().unwrap(), "second");
}

#[test]
fn set_contents_replaces_previous_content() {
    let mut store = ClipboardState::new();
    store.set_contents(vec![ClipboardContentValue::Rtf(String::from("old"))]);
    store.set_contents(vec![ClipboardContentValue::Text(String::from("new"))]);
    assert!(!store.format_present(ClipboardFormat::Rtf));
    assert_eq!(store.read_text().unwrap(), "new");
}

#[test]
fn format_of_reports_the_tag() {
    assert_eq!(
        ClipboardContentValue::Text(String::new()).format_of(),
        ClipboardFormat::Text
    );
    assert_eq!(
        ClipboardContentValue::FileList(Vec::new()).format_of(),
        ClipboardFormat::FileList
    );
}
