//! Finding the Sonar API through SteelSeries GG, limited to addresses on
//! this machine.

use vstd::prelude::*;
use crate::percent::optional_text;
use crate::sonar::types::SonarError;
use crate::text::{owned, same_ignoring_ascii_case, same_text, same_text_ignoring_ascii_case, trim_trailing, trimmed_end};

verus! {

/// What GG's `/subApps` says of Sonar.
#[derive(Clone, Debug, PartialEq, Eq)]
pub struct SonarAppInfo {
    pub is_enabled: bool,
    pub is_ready: bool,
    pub is_running: bool,
    pub web_server_address: String,
}

/// The Sonar API base GG announces: an error while Sonar is off or still
/// starting, otherwise its address without trailing slashes.
pub fn sonar_base(app: &SonarAppInfo) -> (base: Result<String, SonarError>)
    ensures
        !app.is_enabled ==> base == Err::<String, SonarError>(SonarError::SonarDisabled),
        app.is_enabled && (!app.is_ready || !app.is_running || app.web_server_address@.len() == 0)
            ==> base == Err::<String, SonarError>(SonarError::SonarStarting),
        app.is_enabled && app.is_ready && app.is_running && app.web_server_address@.len() > 0
            ==> (base matches Ok(address) && address@ == trim_trailing(app.web_server_address@, '/')),
{
    if !app.is_enabled {
        return Err(SonarError::SonarDisabled);
    }
    if !app.is_ready || !app.is_running || app.web_server_address.as_str().is_empty() {
        return Err(SonarError::SonarStarting);
    }
    Ok(trimmed_end(app.web_server_address.as_str(), '/'))
}

/// What `reqwest::Url::parse` gives for a text, as its scheme and its host:
/// `None` when the text is not a URL.
pub uninterp spec fn url_parts(text: Seq<char>) -> Option<(Seq<char>, Option<Seq<char>>)>;

/// The characters of a URL's scheme and host.
pub open spec fn parts_view(parts: Option<(String, Option<String>)>) -> Option<(Seq<char>, Option<Seq<char>>)> {
    match parts {
        Some((scheme, host)) => Some((scheme@, optional_text(host))),
        None => None,
    }
}

/// Calls `reqwest::Url::parse` and takes the scheme and the host of the URL;
/// the contract names the result.
#[verifier::external_body]
fn parse_url(text: &str) -> (parts: Option<(String, Option<String>)>)
    ensures
        parts_view(parts) == url_parts(text@),
{
    match reqwest::Url::parse(text) {
        Ok(url) => {
            let host = match url.host_str() {
                Some(host) => Some(host.to_string()),
                None => None,
            };
            Some((url.scheme().to_string(), host))
        },
        Err(_) => None,
    }
}

/// The host of a URL; `None` when the text is not a URL or names no host.
pub fn url_host(text: &str) -> (host: Option<String>)
    ensures
        optional_text(host) == match url_parts(text@) {
            Some((_, found)) => found,
            None => None,
        },
{
    match parse_url(text) {
        Some((_, host)) => host,
        None => None,
    }
}

/// The host is this machine: `localhost` in any case, or an IP address on
/// the loopback interface.
pub open spec fn is_local_host(host: Option<Seq<char>>, host_is_loopback_ip: bool) -> bool {
    host matches Some(name) && (same_ignoring_ascii_case(name, "localhost"@) || host_is_loopback_ip)
}

/// Accepts the Sonar API base only as a plain HTTP URL to this machine.
/// `host_is_loopback_ip` is whether the URL's host, as `url_host` gives it,
/// is an IP address on the loopback interface.
pub fn accept_sonar_address(base: String, host_is_loopback_ip: bool) -> (accepted: Result<String, SonarError>)
    ensures
        match url_parts(base@) {
            None => accepted matches Err(SonarError::ApiChanged(detail)) && detail@ == "Sonar API 주소가 올바르지 않습니다"@,
            Some((scheme, host)) => if scheme == "http"@ && is_local_host(host, host_is_loopback_ip) {
                accepted == Ok::<String, SonarError>(base)
            } else {
                accepted matches Err(SonarError::ApiChanged(detail))
                    && detail@ == "안전을 위해 로컬 HTTP Sonar API 주소만 허용합니다"@
            },
        },
{
    let (scheme, host) = match parse_url(base.as_str()) {
        None => return Err(SonarError::ApiChanged(owned("Sonar API 주소가 올바르지 않습니다"))),
        Some(parts) => parts,
    };
    let local = match &host {
        Some(name) => same_text_ignoring_ascii_case(name.as_str(), "localhost") || host_is_loopback_ip,
        None => false,
    };
    if same_text(scheme.as_str(), "http") && local {
        Ok(base)
    } else {
        Err(SonarError::ApiChanged(owned("안전을 위해 로컬 HTTP Sonar API 주소만 허용합니다")))
    }
}

/// Accepts GG's own address only on the loopback interface; `loopback` is
/// `None` when the address does not parse, else whether it is loopback.
pub fn accept_gg_address(loopback: Option<bool>) -> (accepted: Result<(), SonarError>)
    ensures
        loopback == Some(true) <==> accepted is Ok,
        loopback is None ==> (accepted matches Err(SonarError::ApiChanged(detail)) && detail@ == "GG 연결 주소가 올바르지 않습니다"@),
        loopback == Some(false) ==> (accepted matches Err(SonarError::ApiChanged(detail))
            && detail@ == "안전을 위해 로컬이 아닌 GG 연결 주소는 거부했습니다"@),
{
    match loopback {
        None => Err(SonarError::ApiChanged(owned("GG 연결 주소가 올바르지 않습니다"))),
        Some(false) => Err(SonarError::ApiChanged(owned("안전을 위해 로컬이 아닌 GG 연결 주소는 거부했습니다"))),
        Some(true) => Ok(()),
    }
}

/// The error for GG's connection file when it does not hold what is expected.
pub fn malformed_core_props() -> (error: SonarError)
    ensures
        error matches SonarError::ApiChanged(detail) && detail@ == "GG 연결 정보 형식이 예상과 다릅니다"@,
{
    SonarError::ApiChanged(owned("GG 연결 정보 형식이 예상과 다릅니다"))
}

/// The error for a `/subApps` answer that does not hold what is expected.
pub fn malformed_sub_apps() -> (error: SonarError)
    ensures
        error matches SonarError::ApiChanged(detail) && detail@ == "GG subApps 응답 형식이 예상과 다릅니다"@,
{
    SonarError::ApiChanged(owned("GG subApps 응답 형식이 예상과 다릅니다"))
}

} // verus!
