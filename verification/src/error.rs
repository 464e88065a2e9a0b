//! The library's error type.
use vstd::prelude::*;
use crate::text::{decimal, decimal_string};

verus! {

#[verifier::external_type_specification]
#[verifier::external_body]
pub struct ExReqwestError(reqwest::Error);

/// What can go wrong in a Redfish exchange.
#[derive(Debug)]
pub enum RedfishError {
    /// The HTTP transport failed.
    Http(reqwest::Error),
    /// The service answered with a status that the operation does not accept.
    Api { status: u16, message: String },
    /// The session could not be established.
    AuthFailed,
    /// The resource at the URL does not exist (status 404).
    NotFound(String),
    /// The credentials were refused (status 401).
    SessionExpired,
    /// A reply body is not valid JSON.
    Parse(String),
}

/// The result of a Redfish operation.
pub type Result<T> = std::result::Result<T, RedfishError>;

/// A `RedfishError` as plain values; the transport error itself is opaque.
pub enum ErrorView {
    Http,
    Api { status: u16, message: Seq<char> },
    AuthFailed,
    NotFound(Seq<char>),
    SessionExpired,
    Parse(Seq<char>),
}

impl View for RedfishError {
    type V = ErrorView;

    open spec fn view(&self) -> ErrorView {
        match self {
            RedfishError::Http(_) => ErrorView::Http,
            RedfishError::Api { status, message } => ErrorView::Api { status: *status, message: message@ },
            RedfishError::AuthFailed => ErrorView::AuthFailed,
            RedfishError::NotFound(url) => ErrorView::NotFound(url@),
            RedfishError::SessionExpired => ErrorView::SessionExpired,
            RedfishError::Parse(msg) => ErrorView::Parse(msg@),
        }
    }
}

impl ErrorView {
    /// The message of each error, for every kind but `Http`, whose message
    /// is `"HTTP error: "` followed by the transport error's own `Display` text.
    pub open spec fn message(self) -> Seq<char> {
        match self {
            ErrorView::Http => "HTTP error: "@,
            ErrorView::Api { status, message } => "API error "@ + decimal(status as nat) + ": "@ + message,
            ErrorView::AuthFailed => "Authentication failed"@,
            ErrorView::NotFound(url) => "Resource not found: "@ + url,
            ErrorView::SessionExpired => "Session expired"@,
            ErrorView::Parse(msg) => "Parse error: "@ + msg,
        }
    }
}

impl RedfishError {
    /// The human-readable description of the error.
    pub fn message(&self) -> (r: String)
        ensures
            self !is Http ==> r@ == self@.message(),
            self is Http ==> self@.message().is_prefix_of(r@),
            self matches RedfishError::Http(e) ==> exists|detail: String|
                vstd::string::to_string_from_display_ensures::<reqwest::Error>(&e, detail) && r@
                    == "HTTP error: "@ + detail@,
    {
        match self {
            RedfishError::Http(e) => {
                let detail = e.to_string();
                let r = String::from_str("HTTP error: ").concat(detail.as_str());
                assert("HTTP error: "@.is_prefix_of(r@)) by {
                    assert(r@.subrange(0, "HTTP error: "@.len() as int) =~= "HTTP error: "@);
                }
                r
            },
            RedfishError::Api { status, message } => {
                let mut r = String::from_str("API error ");
                let digits = decimal_string(*status);
                r.append(digits.as_str());
                r.append(": ");
                r.append(message.as_str());
                r
            },
            RedfishError::AuthFailed => String::from_str("Authentication failed"),
            RedfishError::NotFound(url) => String::from_str("Resource not found: ").concat(url.as_str()),
            RedfishError::SessionExpired => String::from_str("Session expired"),
            RedfishError::Parse(msg) => String::from_str("Parse error: ").concat(msg.as_str()),
        }
    }
}

} // verus!
