//! Response publisher: the port that submits the thumbnail as the platform's
//! response, and the observability taxonomy of submission failures.
use vstd::prelude::*;

verus! {

/// How a submission failed, by origin. The platform adapter classifies the
/// transport's error into one of these; they steer logging only, never a
/// retry.
#[derive(Clone, Debug)]
pub enum PublishError {
    /// The outgoing request could not be constructed.
    ConstructionFailure,
    /// The request never reached the platform; the flags say what the
    /// transport reported (they are independent, several can hold at once).
    DispatchFailure { io: bool, timeout: bool, user: bool, other: bool },
    /// The platform's reply was malformed.
    ResponseError,
    /// The attempt timed out.
    TimeoutError,
    /// The platform rejected the write and said why.
    ServiceError { code: String, message: String, meta: String },
    /// Anything the transport reports that fits none of the above.
    Uncategorized,
}

/// Capability port for submitting a byte payload as the response bound to a
/// one-time route and token pair. The platform adapter implements it over the
/// storage platform's client; tests implement it with scripted fakes. The
/// token is single-use, so one call makes exactly one attempt.
pub trait PutFile {
    fn put_file(&self, route: String, token: String, contents: Vec<u8>) -> (r: Result<
        String,
        PublishError,
    >);
}

/// What one submission declares beside its body: the fixed output content
/// type, the payload's exact length, and the fixed success status.
pub struct ResponseMeta {
    pub content_type: &'static str,
    pub content_length: usize,
    pub status_code: u16,
}

/// The declaration owed for a payload of `payload_len` bytes: PNG content
/// type, that exact length, and status 200.
pub fn response_meta(payload_len: usize) -> (m: ResponseMeta)
    ensures
        m.content_type@ == "image/png"@,
        m.content_length == payload_len,
        m.status_code == 200,
{
    ResponseMeta { content_type: "image/png", content_length: payload_len, status_code: 200 }
}

/// The log labels owed for a classified submission failure: the subtype's own
/// label, then, for a dispatch failure, one label per transport flag that
/// holds, in a fixed order.
pub open spec fn spec_error_labels(e: PublishError) -> Seq<Seq<char>> {
    match e {
        PublishError::ConstructionFailure => seq!["ConstructionFailure"@],
        PublishError::DispatchFailure { io, timeout, user, other } => {
            seq!["DispatchFailure"@] + (if io {
                seq!["IO error"@]
            } else {
                Seq::empty()
            }) + (if timeout {
                seq!["Timeout error"@]
            } else {
                Seq::empty()
            }) + (if user {
                seq!["User error"@]
            } else {
                Seq::empty()
            }) + (if other {
                seq!["Other error"@]
            } else {
                Seq::empty()
            })
        },
        PublishError::ResponseError => seq!["ResponseError"@],
        PublishError::TimeoutError => seq!["TimeoutError"@],
        PublishError::ServiceError { .. } => seq!["ServiceError"@],
        PublishError::Uncategorized => seq!["other error"@],
    }
}

/// Classifies a submission failure into the exact sequence of labels that
/// `spec_error_labels` owes it; the caller logs them.
pub fn check_error(error: &PublishError) -> (labels: Vec<&'static str>)
    ensures
        labels@.map_values(|s: &'static str| s@) == spec_error_labels(*error),
{
    let mut labels: Vec<&'static str> = Vec::new();
    match error {
        PublishError::ConstructionFailure => {
            labels.push("ConstructionFailure");
        },
        PublishError::DispatchFailure { io, timeout, user, other } => {
            labels.push("DispatchFailure");
            if *io {
                labels.push("IO error");
            }
            if *timeout {
                labels.push("Timeout error");
            }
            if *user {
                labels.push("User error");
            }
            if *other {
                labels.push("Other error");
            }
        },
        PublishError::ResponseError => {
            labels.push("ResponseError");
        },
        PublishError::TimeoutError => {
            labels.push("TimeoutError");
        },
        PublishError::ServiceError { .. } => {
            labels.push("ServiceError");
        },
        PublishError::Uncategorized => {
            labels.push("other error");
        },
    }
    proof {
        assert(labels@.map_values(|s: &'static str| s@) =~= spec_error_labels(*error));
    }
    labels
}

} // verus!
