use better_sonar::sonar::http::{master_write_failure, query_failure, redirect_failure};
use better_sonar::sonar::types::SonarError;

#[test]
fn query_statuses_map_to_errors() {
    assert_eq!(
        query_failure(404, "404 Not Found", "x"),
        Some(SonarError::ApiChanged("Sonar가 필요한 조회 경로를 지원하지 않습니다 (404 Not Found)".to_string()))
    );
    assert_eq!(query_failure(500, "500 Internal Server Error", "boom"), Some(SonarError::Transport("boom".to_string())));
    assert_eq!(query_failure(200, "200 OK", ""), None);
    assert_eq!(query_failure(302, "302 Found", ""), None);
}

#[test]
fn write_statuses_map_to_errors() {
    assert_eq!(master_write_failure(204, "204 No Content", ""), None);
    assert_eq!(
        master_write_failure(405, "405 Method Not Allowed", "x"),
        Some(SonarError::ApiChanged(
            "Sonar가 Master - Personal 변경 경로를 지원하지 않습니다 (405 Method Not Allowed)".to_string()
        ))
    );
    assert_eq!(master_write_failure(503, "503", "down"), Some(SonarError::Transport("down".to_string())));
    assert_eq!(redirect_failure(404, "gone"), Some(SonarError::Transport("gone".to_string())));
    assert_eq!(redirect_failure(200, ""), None);
}
