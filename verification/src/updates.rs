//! Self-update: what the user is shown of an update, the check that the
//! version installed is the one the user confirmed, and download progress.

use vstd::prelude::*;
use crate::text::{joined, joined3, owned, same_text};

verus! {

/// An available update as the user interface shows it.
#[derive(Clone, Debug, PartialEq, Eq)]
pub struct UpdateInfo {
    pub current_version: String,
    pub version: String,
    pub notes: Option<String>,
    pub published_at: Option<String>,
}

/// The text of a version that changed since the user confirmed it.
pub open spec fn version_mismatch_text(expected: Seq<char>, available: Seq<char>) -> Seq<char> {
    "확인한 버전("@ + expected + ")과 현재 배포 버전("@ + available + ")이 다릅니다. 다시 확인해 주세요."@
}

/// Installs only the version the user confirmed.
pub fn check_expected_version(expected: &str, available: &str) -> (checked: Result<(), String>)
    ensures
        expected@ == available@ ==> checked is Ok,
        expected@ != available@ ==> (checked matches Err(text) && text@ == version_mismatch_text(expected@, available@)),
{
    if same_text(expected, available) {
        Ok(())
    } else {
        let head = joined3("확인한 버전(", expected, ")과 현재 배포 버전(");
        Err(joined3(head.as_str(), available, ")이 다릅니다. 다시 확인해 주세요."))
    }
}

/// The text when there is no update to install.
pub fn no_update_text() -> (text: String)
    ensures
        text@ == "설치할 업데이트가 없습니다"@,
{
    owned("설치할 업데이트가 없습니다")
}

/// The text of a failed download or installation.
pub fn install_failure_text(detail: &str) -> (text: String)
    ensures
        text@ == "업데이트 검증 또는 설치에 실패했습니다: "@ + detail@,
{
    joined("업데이트 검증 또는 설치에 실패했습니다: ", detail)
}

/// One progress report of an update: the stage, the bytes downloaded, and the
/// total size when known.
#[derive(Clone, Debug, PartialEq, Eq)]
pub struct UpdateProgress {
    pub stage: String,
    pub downloaded: u64,
    pub total: Option<u64>,
}

/// The byte count of a download, adding chunks as they arrive; like an
/// atomic counter it wraps around at `u64::MAX`.
#[derive(Clone, Copy, Debug, PartialEq, Eq, Structural)]
pub struct DownloadCounter {
    pub downloaded: u64,
}

impl DownloadCounter {
    /// The report before the first chunk.
    pub fn start() -> (started: (Self, UpdateProgress))
        ensures
            started.0.downloaded == 0,
            started.1.stage@ == "downloading"@ && started.1.downloaded == 0 && started.1.total is None,
    {
        (DownloadCounter { downloaded: 0 }, UpdateProgress { stage: owned("downloading"), downloaded: 0, total: None })
    }

    /// Adds a chunk and reports the new count.
    pub fn record_chunk(&mut self, chunk: u64, total: Option<u64>) -> (report: UpdateProgress)
        ensures
            final(self).downloaded == old(self).downloaded.wrapping_add(chunk),
            report.stage@ == "downloading"@,
            report.downloaded == final(self).downloaded,
            report.total == total,
    {
        self.downloaded = self.downloaded.wrapping_add(chunk);
        UpdateProgress { stage: owned("downloading"), downloaded: self.downloaded, total }
    }

    /// The report when the download is complete and installation begins.
    pub fn installing(&self) -> (report: UpdateProgress)
        ensures
            report.stage@ == "installing"@,
            report.downloaded == self.downloaded,
            report.total == Some(self.downloaded),
    {
        UpdateProgress { stage: owned("installing"), downloaded: self.downloaded, total: Some(self.downloaded) }
    }
}

} // verus!
