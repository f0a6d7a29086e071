//! What travels over the wire: the two reply bodies of the time endpoint and
//! the body of the health endpoint. Each is flat, built fresh for one request
//! and never changed afterwards.

use vstd::prelude::*;

verus! {

/// A successful answer of the time endpoint.
#[derive(Clone, Debug, PartialEq, Eq)]
pub struct TimeResponse {
    /// The current time, offset-aware, as the resolved zone shows it.
    pub timestamp: String,
    /// The zone name as the caller wrote it.
    pub timezone: String,
    /// The identifier that correlates the request across both hops.
    pub request_id: String,
    /// Which hop produced this answer.
    pub source: String,
}

/// The text of a [`TimeResponse`], field by field.
pub struct TimeResponseView {
    pub timestamp: Seq<char>,
    pub timezone: Seq<char>,
    pub request_id: Seq<char>,
    pub source: Seq<char>,
}

impl View for TimeResponse {
    type V = TimeResponseView;

    open spec fn view(&self) -> TimeResponseView {
        TimeResponseView {
            timestamp: self.timestamp@,
            timezone: self.timezone@,
            request_id: self.request_id@,
            source: self.source@,
        }
    }
}

/// The body of a failed answer of the gateway's time endpoint.
#[derive(Clone, Debug, PartialEq, Eq)]
pub struct ErrorResponse {
    /// What went wrong, for a human reader.
    pub error: String,
    /// The identifier of the request that failed.
    pub request_id: String,
    /// When the failure was noticed.
    pub timestamp: String,
}

/// The text of an [`ErrorResponse`], field by field.
pub struct ErrorResponseView {
    pub error: Seq<char>,
    pub request_id: Seq<char>,
    pub timestamp: Seq<char>,
}

impl View for ErrorResponse {
    type V = ErrorResponseView;

    open spec fn view(&self) -> ErrorResponseView {
        ErrorResponseView {
            error: self.error@,
            request_id: self.request_id@,
            timestamp: self.timestamp@,
        }
    }
}

/// The body of a health endpoint's answer.
#[derive(Clone, Debug, PartialEq, Eq)]
pub struct Health {
    pub status: String,
    pub service: String,
    pub timestamp: String,
}

/// The text of a [`Health`], field by field.
pub struct HealthView {
    pub status: Seq<char>,
    pub service: Seq<char>,
    pub timestamp: Seq<char>,
}

impl View for Health {
    type V = HealthView;

    open spec fn view(&self) -> HealthView {
        HealthView { status: self.status@, service: self.service@, timestamp: self.timestamp@ }
    }
}

} // verus!
