use vstd::prelude::*;

use crate::builder::EmptyBucket;
use crate::builder::EmptyClientId;
use crate::builder::EmptySecret;
use crate::builder::EmptyUrl;
use crate::builder::R2ManagerBuilder;
use crate::errors::R2Error;
use std::sync::Arc;

verus! {

#[verifier::external_type_specification]
#[verifier::external_body]
pub struct ExClient(aws_sdk_s3::Client);

/// Relies on aws_sdk_s3::config::Builder and aws_sdk_s3::Client::from_conf:
/// wires a connector to the given endpoint with static credentials, the
/// fixed region `us-east-1`, and the latest behavior version. `from_conf`
/// panics only when no behavior version is set, or when retries, timeouts
/// or identity caching are enabled without a sleep implementation; the
/// configuration built here sets the behavior version and leaves the rest
/// at their defaults, so no input makes it panic.
#[verifier::external_body]
pub(crate) fn make_client(url: &str, client_id: &str, secret_key: &str) -> aws_sdk_s3::Client {
    let credentials = aws_sdk_s3::config::Credentials::new(
        client_id,
        secret_key,
        None,
        None,
        "custom_provider",
    );
    let conf = aws_sdk_s3::config::Builder::new()
        .behavior_version(aws_sdk_s3::config::BehaviorVersion::latest())
        .region(aws_sdk_s3::config::Region::new("us-east-1"))
        .endpoint_url(url)
        .credentials_provider(credentials)
        .build();
    aws_sdk_s3::Client::from_conf(conf)
}

/// The content type that a best-effort MIME lookup derives from a key's
/// file extension, `application/octet-stream` when nothing better is known.
pub uninterp spec fn mime_of(key: Seq<char>) -> Seq<char>;

/// Relies on mime_guess::from_path and MimeGuess::first_or_octet_stream:
/// the guess is computed from the path's extension against a fixed table,
/// so it depends on the key alone, and it falls back to
/// `application/octet-stream` when the table offers nothing.
#[verifier::external_body]
fn guess_content_type(key: &str) -> (r: String)
    ensures
        r@ == mime_of(key@),
{
    mime_guess::from_path(key).first_or_octet_stream().to_string()
}

/// Everything one put request carries: the bucket and key it addresses,
/// the bytes of the body, and the content type derived from the key.
pub struct PutRequest {
    pub bucket: String,
    pub key: String,
    pub body: Vec<u8>,
    pub content_type: String,
}

/// A client for one bucket: the bucket's name and a shared handle to the
/// connector that performs the signed requests.
pub struct CloudFlareR2 {
    pub(crate) bucket_name: String,
    pub(crate) client: Arc<aws_sdk_s3::Client>,
}

impl View for CloudFlareR2 {
    type V = Seq<char>;

    closed spec fn view(&self) -> Seq<char> {
        self.bucket_name@
    }
}

impl CloudFlareR2 {
    /// Binds a bucket name to a connector handle.
    pub(crate) fn from_parts(bucket_name: String, client: Arc<aws_sdk_s3::Client>) -> (r:
        CloudFlareR2)
        ensures
            r@ == bucket_name@,
    {
        CloudFlareR2 { bucket_name, client }
    }

    /// A fresh builder with no field supplied.
    pub fn builder() -> (r: R2ManagerBuilder<EmptyUrl, EmptyBucket, EmptyClientId, EmptySecret>)
        ensures
            r@ == crate::builder::empty_config(),
    {
        R2ManagerBuilder::new()
    }

    /// The name of the bucket every operation of this client addresses.
    pub fn get_bucket_name(&self) -> (r: &str)
        ensures
            r@ == self@,
    {
        self.bucket_name.as_str()
    }

    /// The shared connector handle, for the caller that issues the requests.
    pub fn connector(&self) -> &Arc<aws_sdk_s3::Client> {
        &self.client
    }

    /// Assembles the one put request an upload issues: this client's bucket,
    /// the given key and body, and the content type derived from the key.
    pub fn put_request(&self, key: &str, body: Vec<u8>) -> (r: PutRequest)
        ensures
            r.bucket@ == self@,
            r.key@ == key@,
            r.body@ == body@,
            r.content_type@ == mime_of(key@),
    {
        PutRequest {
            bucket: self.bucket_name.clone(),
            key: key.to_owned(),
            content_type: guess_content_type(key),
            body,
        }
    }
}

/// The outcome a bucket create or delete reports: success is unit, any
/// failure of the request is `BucketOpFailed`.
pub fn bucket_op_outcome(succeeded: bool) -> (r: Result<(), R2Error>)
    ensures
        succeeded ==> r == Ok::<(), R2Error>(()),
        !succeeded ==> r == Err::<(), R2Error>(R2Error::BucketOpFailed),
{
    if succeeded {
        Ok(())
    } else {
        Err(R2Error::BucketOpFailed)
    }
}

/// The outcome an upload reports: the key is echoed back on success, any
/// failure of the request is `ObjectOpFailed`.
pub fn put_object_outcome(key: &str, succeeded: bool) -> (r: Result<String, R2Error>)
    ensures
        succeeded ==> (r matches Ok(k) && k@ == key@),
        !succeeded ==> r == Err::<String, R2Error>(R2Error::ObjectOpFailed),
{
    if succeeded {
        Ok(key.to_owned())
    } else {
        Err(R2Error::ObjectOpFailed)
    }
}

/// The outcome an object delete reports: confirmation on success, any
/// failure of the request is `ObjectOpFailed`.
pub fn delete_object_outcome(succeeded: bool) -> (r: Result<bool, R2Error>)
    ensures
        succeeded ==> r == Ok::<bool, R2Error>(true),
        !succeeded ==> r == Err::<bool, R2Error>(R2Error::ObjectOpFailed),
{
    if succeeded {
        Ok(true)
    } else {
        Err(R2Error::ObjectOpFailed)
    }
}

/// The outcome an object fetch or listing reports: the value the service
/// handed back, unchanged, or `ObjectOpFailed` when there is none --
/// not-found is not told apart from any other failure.
pub fn object_op_outcome<T>(fetched: Option<T>) -> (r: Result<T, R2Error>)
    ensures
        fetched matches Some(v) ==> (r matches Ok(w) && w == v),
        fetched is None ==> (r matches Err(e) && e == R2Error::ObjectOpFailed),
{
    match fetched {
        Some(v) => Ok(v),
        None => Err(R2Error::ObjectOpFailed),
    }
}

} // verus!
