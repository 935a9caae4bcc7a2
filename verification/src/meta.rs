//! Exchanges: responses, what was asked, and when.

use vstd::prelude::*;

verus! {

/// A point in time of the system clock.
#[verifier::external_type_specification]
#[verifier::external_body]
pub struct ExSystemTime(std::time::SystemTime);

/// Trusted: `SystemTime::now` of std reads the clock. Nothing is claimed of the
/// time that it gives.
pub assume_specification[ std::time::SystemTime::now ]() -> std::time::SystemTime
;

/// Trusted: `SystemTime::duration_since` of std, from the Unix epoch. Nothing is
/// claimed of the span, which rests on the clock; there is none for a time
/// before the epoch.
#[verifier::external_body]
fn since_epoch(t: std::time::SystemTime) -> (r: Option<std::time::Duration>) {
    t.duration_since(std::time::UNIX_EPOCH).ok()
}

/// Trusted: `Duration::as_millis` of std. Nothing is claimed of the number,
/// which rests on the clock.
pub assume_specification[ std::time::Duration::as_millis ](d: &std::time::Duration) -> u128
;

/// The milliseconds that a clock reading stands for: the reading as a signed
/// number, and 0 before the epoch.
pub open spec fn epoch_ms(elapsed: Option<u128>) -> i64 {
    match elapsed {
        Some(ms) => ms as i64,
        None => 0,
    }
}

/// The milliseconds that a clock reading stands for.
pub fn to_epoch_ms(elapsed: Option<u128>) -> (r: i64)
    ensures
        r == epoch_ms(elapsed),
{
    match elapsed {
        Some(ms) => #[verifier::truncate] (ms as i64),
        None => 0,
    }
}

/// The current Unix time in milliseconds, and 0 before the epoch.
pub fn now_ms() -> (r: i64)
    ensures
        exists|elapsed: Option<u128>| r == #[trigger] epoch_ms(elapsed),
{
    let elapsed = match since_epoch(std::time::SystemTime::now()) {
        Some(d) => Some(d.as_millis()),
        None => None,
    };
    to_epoch_ms(elapsed)
}

/// What is shown and recorded of a request that was made.
#[derive(Debug)]
pub struct ResponseMeta {
    /// The method, or nothing where none is shown.
    pub method: String,
    /// The URL.
    pub url: String,
    /// The endpoint's file, relative to the workspace.
    pub endpoint_path: Option<String>,
    /// When the request was made, in Unix milliseconds.
    pub executed_at_ms: i64,
}

impl ResponseMeta {
    /// A copy of `self`.
    pub fn copy(&self) -> (r: ResponseMeta)
        ensures
            r == *self,
    {
        ResponseMeta {
            method: self.method.clone(),
            url: self.url.clone(),
            endpoint_path: match &self.endpoint_path {
                Some(p) => Some(p.clone()),
                None => None,
            },
            executed_at_ms: self.executed_at_ms,
        }
    }
}

/// What is shown of a sequence step that failed at a time: the endpoint stands for the
/// URL and for the file.
pub fn sequence_step_meta_at(endpoint: &str, at_ms: i64) -> (r: ResponseMeta)
    ensures
        r.method@.len() == 0,
        r.url@ == endpoint@,
        r.endpoint_path matches Some(p) && p@ == endpoint@,
        r.executed_at_ms == at_ms,
{
    ResponseMeta {
        method: String::new(),
        url: endpoint.to_owned(),
        endpoint_path: Some(endpoint.to_owned()),
        executed_at_ms: at_ms,
    }
}

/// What is shown of a sequence step that failed now.
pub fn sequence_step_meta(endpoint: &str) -> (r: ResponseMeta)
    ensures
        r.method@.len() == 0,
        r.url@ == endpoint@,
        r.endpoint_path matches Some(p) && p@ == endpoint@,
{
    sequence_step_meta_at(endpoint, now_ms())
}

/// What is shown of a copy of a load run that failed at a time: its URL.
pub fn load_result_meta_at(url: &str, at_ms: i64) -> (r: ResponseMeta)
    ensures
        r.method@.len() == 0,
        r.url@ == url@,
        r.endpoint_path is None,
        r.executed_at_ms == at_ms,
{
    ResponseMeta {
        method: String::new(),
        url: url.to_owned(),
        endpoint_path: None,
        executed_at_ms: at_ms,
    }
}

/// What is shown of a copy of a load run that failed now.
pub fn load_result_meta(url: &str) -> (r: ResponseMeta)
    ensures
        r.method@.len() == 0,
        r.url@ == url@,
        r.endpoint_path is None,
{
    load_result_meta_at(url, now_ms())
}

/// A response as it arrived.
#[derive(Debug)]
pub struct Response {
    /// The status code.
    pub status: u16,
    /// The headers in order.
    pub headers: Vec<(String, String)>,
    /// The body.
    pub body: Vec<u8>,
    /// Whether the body was cut at the size limit.
    pub truncated: bool,
    /// The whole time that the exchange took, in milliseconds.
    pub total_ms: u64,
}

} // verus!
