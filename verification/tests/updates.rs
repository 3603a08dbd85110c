use better_sonar::updates::{check_expected_version, install_failure_text, no_update_text, DownloadCounter, UpdateInfo};

#[test]
fn only_the_confirmed_version_is_installed() {
    assert_eq!(check_expected_version("0.0.4", "0.0.4"), Ok(()));
    assert_eq!(
        check_expected_version("0.0.4", "0.0.5"),
        Err("확인한 버전(0.0.4)과 현재 배포 버전(0.0.5)이 다릅니다. 다시 확인해 주세요.".to_string())
    );
    assert_eq!(no_update_text(), "설치할 업데이트가 없습니다");
    assert_eq!(install_failure_text("bad signature"), "업데이트 검증 또는 설치에 실패했습니다: bad signature");
}

#[test]
fn download_progress_adds_chunks_and_ends_installing() {
    let (mut counter, first) = DownloadCounter::start();
    assert_eq!(first.stage, "downloading");
    assert_eq!(first.downloaded, 0);
    let report = counter.record_chunk(100, Some(250));
    assert_eq!((report.downloaded, report.total), (100, Some(250)));
    let report = counter.record_chunk(150, Some(250));
    assert_eq!(report.downloaded, 250);
    let done = counter.installing();
    assert_eq!(done.stage, "installing");
    assert_eq!(done.total, Some(250));
}

#[test]
fn download_counter_wraps_like_an_atomic() {
    let mut counter = DownloadCounter { downloaded: u64::MAX };
    assert_eq!(counter.record_chunk(2, None).downloaded, 1);
}

#[test]
fn update_info_holds_what_the_dialog_shows() {
    let info = UpdateInfo {
        current_version: "0.0.3".to_string(),
        version: "0.0.4".to_string(),
        notes: Some("변경 사항".to_string()),
        published_at: Some("2026-07-15T00:00:00Z".to_string()),
    };
    assert_eq!(info.clone(), info);
}
