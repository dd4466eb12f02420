use super::error::{ApiError, STATUS_BAD_REQUEST};
use crate::domain::shared::{quality_named, Quality};
use crate::text::{concat3, decimal, decimal_of};
use vstd::prelude::*;

verus! {

/// The message a request missing its quality is rejected with.
pub const MISSING_QUALITY: &'static str = "Quality must be one of \"high\", \"mid\", or \"low\" (missing)";

/// The message a request missing its playback position is rejected with.
pub const MISSING_POSITION: &'static str = "Playback position must not be negative (missing)";

/// Unwraps a field the request must carry, rejecting the request with a
/// `400 Bad Request` whose message is `missing_message` when it is absent.
pub fn required<T>(value: Option<T>, missing_message: &str) -> (r: Result<T, ApiError>)
    ensures
        match value {
            Some(v) => r == Ok::<T, ApiError>(v),
            None => r matches Err(e) && e@ == (STATUS_BAD_REQUEST, missing_message@),
        },
{
    match value {
        Some(v) => Ok(v),
        None => Err(ApiError::bad_request(missing_message.to_string())),
    }
}

/// The message a request naming an unknown quality is rejected with.
pub open spec fn invalid_quality_message(name: Seq<char>) -> Seq<char> {
    "Quality must be one of \"high\", \"mid\", or \"low\" (got \""@ + name + "\")"@
}

/// The quality a request names, or the message it is rejected with: the
/// quality is required and must be one of the three names.
pub open spec fn quality_checked(value: Option<Seq<char>>) -> Result<Quality, Seq<char>> {
    match value {
        None => Err(MISSING_QUALITY@),
        Some(name) => match quality_named(name) {
            Some(q) => Ok(q),
            None => Err(invalid_quality_message(name)),
        },
    }
}

/// Reads the quality a request names, rejecting the request with a `400 Bad
/// Request` when it names none or an unknown one.
pub fn required_quality(value: Option<String>) -> (r: Result<Quality, ApiError>)
    ensures
        match quality_checked(opt_text(value)) {
            Ok(q) => r == Ok::<Quality, ApiError>(q),
            Err(m) => r matches Err(e) && e@ == (STATUS_BAD_REQUEST, m),
        },
{
    let name = required(value, MISSING_QUALITY)?;
    match Quality::new(name.as_str()) {
        Some(q) => Ok(q),
        None => Err(
            ApiError::bad_request(
                concat3("Quality must be one of \"high\", \"mid\", or \"low\" (got \"", name.as_str(), "\")"),
            ),
        ),
    }
}

/// The text an optional request field holds, if any.
pub open spec fn opt_text(value: Option<String>) -> Option<Seq<char>> {
    match value {
        Some(s) => Some(s@),
        None => None,
    }
}

/// The message a negative playback position is rejected with.
pub open spec fn negative_position_message(position: int) -> Seq<char> {
    "Playback position must not be negative (got "@ + decimal_of(position) + ")"@
}

/// The playback position a request names, or the message it is rejected
/// with: the position is required and must not be negative.
pub open spec fn position_checked(value: Option<i64>) -> Result<i64, Seq<char>> {
    match value {
        None => Err(MISSING_POSITION@),
        Some(p) => if p < 0 {
            Err(negative_position_message(p as int))
        } else {
            Ok(p)
        },
    }
}

/// Reads the playback position a request names, rejecting the request with
/// a `400 Bad Request` when it names none or a negative one.
pub fn required_position(value: Option<i64>) -> (r: Result<i64, ApiError>)
    ensures
        match position_checked(value) {
            Ok(p) => r == Ok::<i64, ApiError>(p),
            Err(m) => r matches Err(e) && e@ == (STATUS_BAD_REQUEST, m),
        },
{
    let p = required(value, MISSING_POSITION)?;
    if p < 0 {
        Err(
            ApiError::bad_request(
                concat3(
                    "Playback position must not be negative (got ",
                    decimal(p).as_str(),
                    ")",
                ),
            ),
        )
    } else {
        Ok(p)
    }
}

/// An accepted quality is the one its name names, and an accepted playback
/// position is the one the request records, never negative.
pub proof fn lemma_accepted_fields_are_what_was_sent(name: Option<Seq<char>>, position: Option<i64>)
    ensures
        quality_checked(name) matches Ok(q) ==> name is Some && quality_named(name->0) == Some(q),
        position_checked(position) matches Ok(p) ==> position == Some(p) && p >= 0,
{
}

} // verus!
