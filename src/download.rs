use vstd::prelude::*;

use crate::error::ResolveError;

verus! {

/// `r` is the final path segment of `url`: what follows its last `/`, or all of it
/// when it has none.
pub open spec fn is_last_segment_of(url: Seq<char>, r: Seq<char>) -> bool {
    &&& r.len() <= url.len()
    &&& r == url.skip(url.len() - r.len())
    &&& forall|i: int| 0 <= i < r.len() ==> #[trigger] r[i] != '/'
    &&& r.len() < url.len() ==> url[url.len() - r.len() - 1] == '/'
}

/// The name under which an artifact is staged: the final path segment of its URL.
pub fn artifact_file_name(url: &str) -> (r: String)
    ensures
        is_last_segment_of(url@, r@),
{
    let n = url.unicode_len();
    let mut i: usize = n;
    while i > 0 && url.get_char(i - 1) != '/'
        invariant
            n == url@.len(),
            i <= n,
            forall|j: int| i <= j < n ==> url@[j] != '/',
        decreases i,
    {
        i -= 1;
    }
    let r = String::from_str(url.substring_char(i, n));
    assert(r@ =~= url@.skip(i as int));
    r
}

/// What the transfer of an artifact's body came to.
#[derive(Debug, Clone, Copy, PartialEq, Eq, Structural)]
pub struct DownloadReport {
    /// The HTTP status code of the response.
    pub status: u16,
    /// How many bytes of the body were written to the staged file.
    pub received: u64,
    /// The length that the response declared for its body, where it declared one.
    pub declared: Option<u64>,
    /// Whether the connection failed, or the stream ended with a transport error.
    pub interrupted: bool,
    /// Whether writing to the staged file failed.
    pub write_failed: bool,
}

/// A file written in full to the staging area, not yet verified.
#[derive(Debug, Clone, PartialEq, Eq)]
pub struct StagedArtifact {
    pub file_name: String,
    pub length: u64,
}

pub open spec fn is_success_status(status: u16) -> bool {
    200 <= status < 300
}

/// The number of bytes of a complete download, or why the staged file is not valid.
pub open spec fn download_verdict(report: DownloadReport) -> Result<u64, ResolveError> {
    if report.interrupted {
        Err(ResolveError::TransportError)
    } else if report.write_failed {
        Err(ResolveError::IoError)
    } else if !is_success_status(report.status) {
        Err(ResolveError::HttpError)
    } else if report.declared matches Some(n) && report.received < n {
        Err(ResolveError::TransportError)
    } else {
        Ok(report.received)
    }
}

/// Judges a finished transfer: a broken stream, a failed write, a failed status or a
/// body shorter than declared leaves nothing valid.
pub fn check_download(report: &DownloadReport) -> (r: Result<u64, ResolveError>)
    ensures
        r == download_verdict(*report),
{
    if report.interrupted {
        return Err(ResolveError::TransportError);
    }
    if report.write_failed {
        return Err(ResolveError::IoError);
    }
    if report.status < 200 || report.status >= 300 {
        return Err(ResolveError::HttpError);
    }
    match report.declared {
        Some(n) => if report.received < n {
            return Err(ResolveError::TransportError);
        },
        None => {},
    }
    Ok(report.received)
}

/// The staged artifact that a finished transfer from `url` produced, if it is complete.
pub fn staged_artifact(url: &str, report: &DownloadReport) -> (r: Result<StagedArtifact, ResolveError>)
    ensures
        match download_verdict(*report) {
            Ok(n) => r matches Ok(a) && a.length == n && is_last_segment_of(url@, a.file_name@),
            Err(e) => r == Err::<StagedArtifact, ResolveError>(e),
        },
{
    let length = check_download(report)?;
    Ok(StagedArtifact { file_name: artifact_file_name(url), length })
}

} // verus!
