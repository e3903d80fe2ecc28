use vstd::prelude::*;

verus! {

/// HTTP protocol version of a request or a response.
#[derive(Clone, Copy, Debug, PartialEq, Eq, Structural)]
pub enum YahaHttpVersion {
    Http09,
    Http10,
    Http11,
    Http2,
    Http3,
}

/// The terminal outcome of one request/response exchange. Exactly one of
/// these is reported per request.
#[derive(Clone, Copy, Debug, PartialEq, Eq, Structural)]
pub enum CompletionReason {
    Success,
    Error,
    Aborted,
}

/// Outcome of one attempt to enqueue outbound body bytes.
#[derive(Clone, Copy, Debug, PartialEq, Eq, Structural)]
pub enum WriteResult {
    Success,
    Full,
    AlreadyCompleted,
}

#[verifier::external_type_specification]
#[verifier::external_body]
pub struct ExVersion(hyper::Version);

impl YahaHttpVersion {
    /// Relies on hyper::Version's five named constants: each maps to the
    /// matching variant; a version this library does not know yields None.
    #[verifier::external_body]
    pub fn from_hyper(value: hyper::Version) -> (r: Option<YahaHttpVersion>)
    {
        if value == hyper::Version::HTTP_09 {
            Some(YahaHttpVersion::Http09)
        } else if value == hyper::Version::HTTP_10 {
            Some(YahaHttpVersion::Http10)
        } else if value == hyper::Version::HTTP_11 {
            Some(YahaHttpVersion::Http11)
        } else if value == hyper::Version::HTTP_2 {
            Some(YahaHttpVersion::Http2)
        } else if value == hyper::Version::HTTP_3 {
            Some(YahaHttpVersion::Http3)
        } else {
            None
        }
    }

    /// Relies on hyper::Version's five named constants: the inverse of
    /// `from_hyper`, used when the pending request is materialized.
    #[verifier::external_body]
    pub fn to_hyper(&self) -> (r: hyper::Version)
    {
        match self {
            YahaHttpVersion::Http09 => hyper::Version::HTTP_09,
            YahaHttpVersion::Http10 => hyper::Version::HTTP_10,
            YahaHttpVersion::Http11 => hyper::Version::HTTP_11,
            YahaHttpVersion::Http2 => hyper::Version::HTTP_2,
            YahaHttpVersion::Http3 => hyper::Version::HTTP_3,
        }
    }
}

} // verus!
