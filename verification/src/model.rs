//! The job and outcome records and the failure taxonomy.
use vstd::prelude::*;

verus! {

use vstd::string::StringExecFns;
use crate::codec::dec_chars;

/// One unit of work: fetch the image at `url`, store the original under
/// `target_path` and its thumbnail under `target_thumbnail_path`, and
/// correlate the outcome back to the caller by `correlation_id`.
#[derive(Debug, Clone)]
pub struct DownloadTask {
    pub correlation_id: u32,
    pub url: String,
    pub target_path: String,
    pub target_thumbnail_path: String,
}

/// Whether a job was handled successfully.
#[derive(Clone, Copy, PartialEq, Eq, Structural, Debug)]
pub enum ProcessingResult {
    Succeeded,
    Failed,
}

/// The outcome record reported for one parsed job: its correlation id, the
/// outcome, and a human-readable failure description (empty on success).
#[derive(Debug)]
pub struct DownloadResult {
    pub correlation_id: u32,
    pub res: ProcessingResult,
    pub description: String,
}

/// The failure taxonomy of a job: the fetch hit the size cap (carrying the
/// byte count at the abort), the fetch failed with an HTTP reason, the store
/// bucket handle could not be made, or the store put itself failed.
#[derive(Debug)]
pub enum NetworkError {
    DownloadSizeLimitReached(usize),
    DownloadError(String),
    UploadBucketAccessError(String),
    UploadPutError(String),
}

impl NetworkError {
    /// The human-readable description of this failure: its kind, a colon,
    /// and its payload.
    pub open spec fn describe_spec(&self) -> Seq<char> {
        match self {
            NetworkError::DownloadSizeLimitReached(n) => "DownloadSizeLimitReached: "@ + dec_chars(
                *n as nat,
            ),
            NetworkError::DownloadError(m) => "DownloadError: "@ + m@,
            NetworkError::UploadBucketAccessError(m) => "UploadBucketAccessError: "@ + m@,
            NetworkError::UploadPutError(m) => "UploadPutError: "@ + m@,
        }
    }

    /// Renders the failure description.
    pub fn describe(&self) -> (r: String)
        ensures
            r@ == self.describe_spec(),
    {
        match self {
            NetworkError::DownloadSizeLimitReached(n) => {
                let digits = crate::codec::decimal_string(*n);
                "DownloadSizeLimitReached: ".to_owned().concat(digits.as_str())
            },
            NetworkError::DownloadError(m) => "DownloadError: ".to_owned().concat(m.as_str()),
            NetworkError::UploadBucketAccessError(m) => "UploadBucketAccessError: ".to_owned()
                .concat(m.as_str()),
            NetworkError::UploadPutError(m) => "UploadPutError: ".to_owned().concat(m.as_str()),
        }
    }
}

/// The outcome record for a job that completed every step.
pub fn success_result(correlation_id: u32) -> (r: DownloadResult)
    ensures
        r.correlation_id == correlation_id,
        r.res is Succeeded,
        r.description@ == Seq::<char>::empty(),
{
    let description = String::new();
    proof {
        assert(description@ =~= Seq::<char>::empty());
    }
    DownloadResult { correlation_id, res: ProcessingResult::Succeeded, description }
}

/// The outcome record for a job whose pipeline stopped at `error`.
pub fn failure_result(correlation_id: u32, error: &NetworkError) -> (r: DownloadResult)
    ensures
        r.correlation_id == correlation_id,
        r.res is Failed,
        r.description@ == error.describe_spec(),
{
    DownloadResult { correlation_id, res: ProcessingResult::Failed, description: error.describe() }
}

/// The outcome record for a job that failed with a plain message, as a
/// decode failure does.
pub fn failure_result_message(correlation_id: u32, description: String) -> (r: DownloadResult)
    ensures
        r.correlation_id == correlation_id,
        r.res is Failed,
        r.description@ == description@,
{
    DownloadResult { correlation_id, res: ProcessingResult::Failed, description }
}

} // verus!
