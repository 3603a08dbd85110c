use better_sonar::discovery::{
    accept_gg_address, accept_sonar_address, malformed_core_props, malformed_sub_apps, sonar_base, url_host,
    SonarAppInfo,
};
use better_sonar::sonar::types::SonarError;

fn app(enabled: bool, ready: bool, running: bool, address: &str) -> SonarAppInfo {
    SonarAppInfo { is_enabled: enabled, is_ready: ready, is_running: running, web_server_address: address.to_string() }
}

#[test]
fn sonar_base_follows_gg_state_and_trims_slashes() {
    assert_eq!(sonar_base(&app(false, true, true, "http://127.0.0.1:1")), Err(SonarError::SonarDisabled));
    assert_eq!(sonar_base(&app(true, false, true, "http://127.0.0.1:1")), Err(SonarError::SonarStarting));
    assert_eq!(sonar_base(&app(true, true, false, "http://127.0.0.1:1")), Err(SonarError::SonarStarting));
    assert_eq!(sonar_base(&app(true, true, true, "")), Err(SonarError::SonarStarting));
    assert_eq!(sonar_base(&app(true, true, true, "http://127.0.0.1:1//")), Ok("http://127.0.0.1:1".to_string()));
}

#[test]
fn only_local_http_sonar_addresses_are_accepted() {
    let refused = Err(SonarError::ApiChanged("안전을 위해 로컬 HTTP Sonar API 주소만 허용합니다".to_string()));
    let base = "http://LocalHost:9".to_string();
    assert_eq!(accept_sonar_address(base.clone(), false), Ok(base));
    let base = "http://127.0.0.1:9".to_string();
    assert_eq!(accept_sonar_address(base.clone(), true), Ok(base.clone()));
    assert_eq!(accept_sonar_address(base, false), refused.clone());
    assert_eq!(accept_sonar_address("https://localhost:9".to_string(), false), refused.clone());
    assert_eq!(accept_sonar_address("http://example.com".to_string(), false), refused);
    assert_eq!(
        accept_sonar_address("not a url".to_string(), true),
        Err(SonarError::ApiChanged("Sonar API 주소가 올바르지 않습니다".to_string()))
    );
}

#[test]
fn url_host_reads_the_host_of_a_url() {
    assert_eq!(url_host("http://LocalHost:9/x"), Some("localhost".to_string()));
    assert_eq!(url_host("http://127.0.0.1:41000"), Some("127.0.0.1".to_string()));
    assert_eq!(url_host("mailto:someone"), None);
    assert_eq!(url_host("not a url"), None);
}

#[test]
fn gg_addresses_must_be_loopback() {
    assert_eq!(accept_gg_address(Some(true)), Ok(()));
    assert_eq!(
        accept_gg_address(Some(false)),
        Err(SonarError::ApiChanged("안전을 위해 로컬이 아닌 GG 연결 주소는 거부했습니다".to_string()))
    );
    assert_eq!(
        accept_gg_address(None),
        Err(SonarError::ApiChanged("GG 연결 주소가 올바르지 않습니다".to_string()))
    );
    assert_eq!(malformed_core_props(), SonarError::ApiChanged("GG 연결 정보 형식이 예상과 다릅니다".to_string()));
    assert_eq!(malformed_sub_apps(), SonarError::ApiChanged("GG subApps 응답 형식이 예상과 다릅니다".to_string()));
}

#[test]
fn error_messages_match_what_the_user_sees() {
    assert_eq!(SonarError::WrongMode.message(), "현재 Sonar for Streamers 모드가 아닙니다");
    assert_eq!(
        SonarError::ApiChanged("x".to_string()).message(),
        "Sonar API가 변경되었을 수 있습니다: x"
    );
    assert_eq!(
        SonarError::Verification("y".to_string()).message(),
        "출력 전환 검증에 실패했습니다: y"
    );
}
