use bb_imager::cache::DownloadProgress;
use bb_imager::dfu::pair_images;
use bb_imager::flashing::DownloadFlashingStatus;
use bb_imager::progress::{percent, ProgressView, ViewAction};
use bb_imager::sd::raw_device_path;

#[test]
fn stage_transitions_start_new_bars() {
    let mut v = ProgressView::new();
    assert_eq!(v.update(DownloadFlashingStatus::Preparing), ViewAction::Skip);
    assert_eq!(
        v.update(DownloadFlashingStatus::DownloadingProgress { done: 1, total: 4 }),
        ViewAction::NewBar { finish_previous: false, stage: 2, percent: 25 }
    );
    assert_eq!(v.update(DownloadFlashingStatus::DownloadingProgress { done: 1, total: 4 }), ViewAction::Skip);
    assert_eq!(v.update(DownloadFlashingStatus::DownloadingProgress { done: 2, total: 4 }), ViewAction::SetPosition(50));
    assert_eq!(
        v.update(DownloadFlashingStatus::FlashingProgress { done: 0, total: 4 }),
        ViewAction::NewBar { finish_previous: true, stage: 3, percent: 0 }
    );
    assert_eq!(v.update(DownloadFlashingStatus::Customizing), ViewAction::NewStage { finish_previous: true, stage: 4 });
    assert_eq!(v.update(DownloadFlashingStatus::Verifying), ViewAction::NewStage { finish_previous: false, stage: 5 });
}

#[test]
fn percent_is_capped() {
    assert_eq!(percent(1, 3), 33);
    assert_eq!(percent(5, 4), 100);
    assert_eq!(percent(5, 0), 0);
    assert_eq!(percent(u64::MAX - 1, u64::MAX), 99);
}

#[test]
fn download_progress_counts_bytes() {
    let mut p = DownloadProgress::new(None, 10);
    assert_eq!(p.expected, 10);
    assert_eq!(p.chunk(4), DownloadFlashingStatus::DownloadingProgress { done: 4, total: 10 });
    assert_eq!(p.chunk(8), DownloadFlashingStatus::DownloadingProgress { done: 10, total: 10 });
    assert_eq!(p.received, 12);
    let mut z = DownloadProgress::new(None, 0);
    assert_eq!(z.chunk(5), DownloadFlashingStatus::DownloadingProgress { done: 0, total: 0 });
    let q = DownloadProgress::new(Some(100), 10);
    assert_eq!(q.expected, 100);
}

#[test]
fn buffered_macos_paths_get_raw_twins() {
    assert_eq!(raw_device_path("/dev/disk4").as_deref(), Some("/dev/rdisk4"));
    assert_eq!(raw_device_path("/dev/rdisk4"), None);
    assert_eq!(raw_device_path("/dev/sda"), None);
}

#[test]
fn dfu_images_come_in_pairs() {
    let items = vec!["a".to_string(), "a.bin".to_string(), "b".to_string(), "b.bin".to_string()];
    let pairs = pair_images(&items).unwrap();
    assert_eq!(pairs, vec![("a".to_string(), "a.bin".to_string()), ("b".to_string(), "b.bin".to_string())]);
    assert!(pair_images(&vec!["a".to_string()]).is_none());
}
