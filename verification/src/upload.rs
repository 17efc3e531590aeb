//! The upload coordinator's verified parts: storage key derivation, the
//! storage locator format, the strategy plans, and the diagnostic message
//! rules. The transfers themselves are network work the caller performs.

use vstd::prelude::*;
use vstd::string::StringExecFns;
use crate::utils::{dec_of, u64_to_string};

verus! {

/// How long an issued read credential stays valid, in seconds.
pub const PRESIGNED_EXPIRY_SECS: u64 = 86400;

/// The write-once outputs of one upload: the storage locator and the
/// time-limited read URL. Never regenerated for the same artifact without
/// re-uploading.
pub struct UploadResult {
    pub storage_url: String,
    pub read_url: String,
}

/// The derived storage key: the artifact prefix, the application id, the
/// version, and the upload timestamp with the archive extension, so that
/// repeated uploads of the same version never collide.
pub open spec fn spec_storage_key(app_id: Seq<char>, version: Seq<char>, ts: nat) -> Seq<char> {
    "artifacts/"@ + app_id + "/"@ + version + "/"@ + dec_of(ts) + ".tar.gz"@
}

pub fn derive_storage_key(app_id: &str, version: &str, timestamp: u64) -> (r: String)
    ensures
        r@ == spec_storage_key(app_id@, version@, timestamp as nat),
{
    let mut s = String::from_str("artifacts/");
    s.append(app_id);
    s.append("/");
    s.append(version);
    s.append("/");
    s.append(u64_to_string(timestamp).as_str());
    s.append(".tar.gz");
    proof {
        assert(s@ =~= spec_storage_key(app_id@, version@, timestamp as nat));
    }
    s
}

/// The opaque storage locator for a bucket and key.
pub open spec fn spec_storage_locator(bucket: Seq<char>, key: Seq<char>) -> Seq<char> {
    "s3://"@ + bucket + "/"@ + key
}

pub fn storage_locator(bucket: &str, key: &str) -> (r: String)
    ensures
        r@ == spec_storage_locator(bucket@, key@),
{
    let mut s = String::from_str("s3://");
    s.append(bucket);
    s.append("/");
    s.append(key);
    proof {
        assert(s@ =~= spec_storage_locator(bucket@, key@));
    }
    s
}

/// The two supported upload strategies, interchangeable from the caller's
/// view.
pub enum UploadStrategy {
    /// Request a time-limited write credential from the control plane,
    /// then transfer directly to storage with it.
    Presigned,
    /// Use long-lived bucket-scoped credentials, checking reachability
    /// before the real transfer.
    DirectBucket,
}

/// The ordered side effects of one upload under a strategy.
pub enum UploadStep {
    RequestWriteCredential,
    CheckReachability,
    Transfer,
    IssueReadCredential,
}

pub open spec fn spec_upload_plan(strategy: UploadStrategy) -> Seq<UploadStep> {
    match strategy {
        UploadStrategy::Presigned => seq![
            UploadStep::RequestWriteCredential,
            UploadStep::Transfer,
            UploadStep::IssueReadCredential,
        ],
        UploadStrategy::DirectBucket => seq![
            UploadStep::CheckReachability,
            UploadStep::Transfer,
            UploadStep::IssueReadCredential,
        ],
    }
}

/// Plans one upload: both strategies transfer exactly once and end by
/// issuing the read credential; they differ only in how write access is
/// obtained.
pub fn upload_plan(strategy: &UploadStrategy) -> (r: Vec<UploadStep>)
    ensures
        r@ == spec_upload_plan(*strategy),
{
    let mut r: Vec<UploadStep> = Vec::new();
    match strategy {
        UploadStrategy::Presigned => {
            r.push(UploadStep::RequestWriteCredential);
        },
        UploadStrategy::DirectBucket => {
            r.push(UploadStep::CheckReachability);
        },
    }
    r.push(UploadStep::Transfer);
    r.push(UploadStep::IssueReadCredential);
    proof {
        assert(r@ =~= spec_upload_plan(*strategy));
    }
    r
}

/// The operator-facing transfer failure text: it names the underlying
/// error, the bucket and the storage key — the context an operator needs —
/// and is built from those alone, so no credential can reach it.
pub open spec fn spec_upload_failure_message(
    detail: Seq<char>,
    bucket: Seq<char>,
    key: Seq<char>,
) -> Seq<char> {
    "Failed to upload to S3: "@ + detail + "\nBucket: "@ + bucket + "\nKey: "@ + key
}

pub fn upload_failure_message(detail: &str, bucket: &str, key: &str) -> (r: String)
    ensures
        r@ == spec_upload_failure_message(detail@, bucket@, key@),
{
    let mut s = String::from_str("Failed to upload to S3: ");
    s.append(detail);
    s.append("\nBucket: ");
    s.append(bucket);
    s.append("\nKey: ");
    s.append(key);
    proof {
        assert(s@ =~= spec_upload_failure_message(detail@, bucket@, key@));
    }
    s
}

} // verus!
