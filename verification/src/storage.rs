//! Object-storage operator factory.
//!
//! The storage section is handed to opendal's S3 service builder, which
//! yields an operator bound to endpoint, credentials, bucket and region, or
//! a construction error when the backend configuration is structurally
//! invalid. Construction never verifies connectivity; only the health
//! probe's round trip can discover unreachability.

use vstd::prelude::*;

use crate::configuration::OpendalConfig;

verus! {

#[verifier::external_type_specification]
#[verifier::external_body]
pub struct ExOperator(opendal::Operator);

#[verifier::external_type_specification]
#[verifier::external_body]
pub struct ExOpendalError(opendal::Error);

/// A fatal startup failure: the storage backend configuration is
/// structurally invalid, as the backend client's own validation judges it.
pub struct StorageError {
    pub message: String,
}

/// A bucket named for the backend's S3 Express One Zone service, which the
/// builder constructs along a separate path with rules of its own.
pub open spec fn is_express_bucket(bucket: Seq<char>) -> bool {
    bucket.len() >= 6 && bucket.subrange(bucket.len() - 6, bucket.len() as int) == "--x-s3"@
}

/// Relies on opendal's S3 service builder and `opendal::Operator::new`:
/// they bind an S3-backed operator to the given endpoint, credentials,
/// bucket and region, and their validation alone decides the outcome. The
/// builder refuses an empty bucket outright; for a non-empty bucket outside
/// the S3 Express naming scheme it succeeds whenever the region is given
/// (an empty region falls back to the process environment, so nothing is
/// promised there). No connectivity is verified.
#[verifier::external_body]
fn build_s3_operator(
    endpoint: &str,
    access_key: &str,
    secret_key: &str,
    bucket: &str,
    region: &str,
) -> (r: Result<opendal::Operator, opendal::Error>)
    ensures
        bucket@.len() == 0 ==> r is Err,
        bucket@.len() > 0 && !is_express_bucket(bucket@) && region@.len() > 0 ==> r is Ok,
{
    let builder = opendal::services::S3::default()
        .endpoint(endpoint)
        .access_key_id(access_key)
        .secret_access_key(secret_key)
        .bucket(bucket)
        .region(region);
    opendal::Operator::new(builder)
}

/// Relies on `opendal::Error`'s display formatting for the startup
/// diagnostic that accompanies a refused configuration.
#[verifier::external_body]
fn storage_error_message(e: &opendal::Error) -> (r: String) {
    format!("{e}")
}

impl OpendalConfig {
    /// Builds the storage operator bound to this section's endpoint,
    /// credentials, bucket and region. The backend's own structural
    /// validation decides the outcome: an empty bucket is always refused,
    /// and a non-empty bucket outside the S3 Express naming scheme with a
    /// given region always succeeds. No network round trip is made either
    /// way; a refusal carries the backend's diagnostic.
    pub fn get_opendal_operator(&self) -> (r: Result<opendal::Operator, StorageError>)
        ensures
            self@.bucket.len() == 0 ==> r is Err,
            self@.bucket.len() > 0 && !is_express_bucket(self@.bucket) && self@.region.len() > 0
                ==> r is Ok,
    {
        match build_s3_operator(
            self.endpoint.as_str(),
            self.access_key.as_str(),
            self.secret_key.as_str(),
            self.bucket.as_str(),
            self.region.as_str(),
        ) {
            Ok(op) => Ok(op),
            Err(e) => Err(StorageError { message: storage_error_message(&e) }),
        }
    }
}

} // verus!
