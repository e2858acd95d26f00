use vstd::prelude::*;

use std::time::{Duration, SystemTime};

use crate::api::ConstraintsApiError;

verus! {

#[verifier::external_type_specification]
#[verifier::external_body]
pub struct ExSystemTime(SystemTime);

/// Relies on std::time::SystemTime::now: the host's wall clock, of which
/// nothing is known in advance.
#[verifier::external_body]
fn system_now() -> (r: SystemTime) {
    SystemTime::now()
}

/// Relies on std::time::SystemTime::duration_since: the time elapsed since
/// the Unix epoch, or `None` when the clock stands before it.
#[verifier::external_body]
fn since_unix_epoch(t: &SystemTime) -> (r: Option<Duration>) {
    t.duration_since(std::time::UNIX_EPOCH).ok()
}

/// Relies on std::time::Duration::as_nanos: the whole nanoseconds in a
/// duration.
#[verifier::external_body]
fn duration_nanos(d: &Duration) -> (r: u128) {
    d.as_nanos()
}

/// A nanosecond count cut down to 64 bits, as a timestamp of a trace.
pub fn nanos_to_timestamp(nanos: u128) -> (r: u64)
    ensures
        r == nanos % 0x1_0000_0000_0000_0000,
{
    (nanos % 0x1_0000_0000_0000_0000u128) as u64
}

/// The timestamp for a clock reading given as nanoseconds since the Unix
/// epoch, cut down to 64 bits; `None`, a clock before the epoch, gives
/// `InternalError`.
pub fn timestamp_from(nanos: Option<u128>) -> (r: Result<u64, ConstraintsApiError>)
    ensures
        r == match nanos {
            Some(n) => Ok::<u64, ConstraintsApiError>((n % 0x1_0000_0000_0000_0000) as u64),
            None => Err(ConstraintsApiError::InternalError),
        },
{
    match nanos {
        Some(n) => Ok(nanos_to_timestamp(n)),
        None => Err(ConstraintsApiError::InternalError),
    }
}

/// Returns the wall-clock time in nanoseconds since the Unix epoch, cut down
/// to 64 bits, as `timestamp_from` gives it for the clock's reading; fails
/// with `InternalError` when the clock stands before the epoch.
pub fn get_nanos_timestamp() -> (r: Result<u64, ConstraintsApiError>)
    ensures
        r is Err ==> r == Err::<u64, ConstraintsApiError>(ConstraintsApiError::InternalError),
{
    let now = system_now();
    let nanos = match since_unix_epoch(&now) {
        Some(d) => Some(duration_nanos(&d)),
        None => None,
    };
    timestamp_from(nanos)
}

/// Nanosecond timestamps of the stages of one request; a stage that has not
/// been reached holds 0.
#[derive(Debug, Clone, Copy, Default)]
pub struct ConstraintSubmissionTrace {
    pub receive: u64,
    pub decode: u64,
    pub verify_signature: u64,
    pub auctioneer_update: u64,
    pub request_finish: u64,
}

/// `later - earlier`, or 0 when `later` comes first.
pub open spec fn elapsed(earlier: u64, later: u64) -> u64 {
    if later >= earlier {
        (later - earlier) as u64
    } else {
        0
    }
}

impl ConstraintSubmissionTrace {
    /// A trace of a request received at `receive`, no later stage reached.
    pub fn received_at(receive: u64) -> (r: ConstraintSubmissionTrace)
        ensures
            r.receive == receive,
            r.decode == 0,
            r.verify_signature == 0,
            r.auctioneer_update == 0,
            r.request_finish == 0,
    {
        ConstraintSubmissionTrace {
            receive,
            decode: 0,
            verify_signature: 0,
            auctioneer_update: 0,
            request_finish: 0,
        }
    }

    /// Time from receipt to the end of decoding.
    pub fn decode_latency_ns(&self) -> (r: u64)
        ensures
            r == elapsed(self.receive, self.decode),
    {
        self.decode.saturating_sub(self.receive)
    }

    /// Time from the end of decoding to the store's answer.
    pub fn auctioneer_latency_ns(&self) -> (r: u64)
        ensures
            r == elapsed(self.decode, self.auctioneer_update),
    {
        self.auctioneer_update.saturating_sub(self.decode)
    }

    /// Time from receipt to the end of the request.
    pub fn request_duration_ns(&self) -> (r: u64)
        ensures
            r == elapsed(self.receive, self.request_finish),
    {
        self.request_finish.saturating_sub(self.receive)
    }
}

} // verus!
