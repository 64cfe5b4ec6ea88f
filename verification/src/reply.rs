use crate::error;
use crate::error::{error_response, ErrorReply, Message};
use crate::json::Json;
use crate::text;
use crate::text::{trim, Text};
use vstd::prelude::*;

verus! {

/// What a successful answer carries.
pub enum Body {
    Empty,
    Value(Json),
    /// An object with this one member.
    Named { name: &'static str, value: Json },
    /// An object with a flag that is set, and one member.
    Flagged { flag: &'static str, name: &'static str, value: Json },
    /// An object that tells the outcome in words, and one member.
    Outcome { outcome: &'static str, name: &'static str, value: Json },
    /// An object that tells that an objective is deleted, its identifier, and how it ended.
    Deleted { objective: Json },
    /// An object that tells why a change was not made, and the current state.
    Conflict {
        error: Text,
        outcome: Option<&'static str>,
        name: &'static str,
        current: Json,
    },
}

/// A successful answer.
pub struct Reply {
    pub status: u16,
    pub body: Body,
}

pub fn value_reply(status: u16, value: Json) -> (r: Reply)
    ensures
        r == (Reply { status, body: Body::Value(value) }),
{
    Reply { status, body: Body::Value(value) }
}

/// The answer to any failure of the runtime itself.
pub open spec fn internal_reply() -> ErrorReply {
    error::error_reply(500, Message::Fixed(error::INTERNAL_MESSAGE))
}

pub fn internal_response() -> (r: ErrorReply)
    ensures
        r == internal_reply(),
        forall|message: Message| r == #[trigger] error::error_reply(500, message),
{
    error_response(500, Message::Fixed(error::INTERNAL_MESSAGE))
}

/// A number kept within bounds.
pub open spec fn clamped(n: u64, low: u64, high: u64) -> u64 {
    if n < low {
        low
    } else if n > high {
        high
    } else {
        n
    }
}

/// The number of items that a query asks for: the given one or the fallback, within bounds.
pub fn bounded_limit(given: Option<u64>, fallback: u64, low: u64, high: u64) -> (r: u64)
    requires
        low <= high,
    ensures
        r == clamped(
            match given {
                Some(n) => n,
                None => fallback,
            },
            low,
            high,
        ),
        low <= r <= high,
{
    let n: u64 = match given {
        Some(n) => n,
        None => fallback,
    };
    if n < low {
        low
    } else if n > high {
        high
    } else {
        n
    }
}

/// The reason that a caller gave, trimmed, else a fixed one.
pub open spec fn reason_text(reason: Option<String>, fallback: &'static str) -> Seq<char> {
    match reason {
        Some(given) if text::trimmed(given@).len() > 0 => text::trimmed(given@),
        _ => fallback@,
    }
}

pub fn reason_or(reason: &Option<String>, fallback: &'static str) -> (r: Text)
    ensures
        r@ == reason_text(*reason, fallback),
{
    match reason {
        Some(given) => {
            let rest = trim(given.as_str());
            if rest.is_empty() {
                Text::Fixed(fallback)
            } else {
                Text::Owned(rest.to_owned())
            }
        },
        None => Text::Fixed(fallback),
    }
}

/// What it means whether something that a path names is there.
pub fn require_found(found: Result<bool, String>, missing: &'static str) -> (r: Result<
    (),
    ErrorReply,
>)
    ensures
        r == match found {
            Ok(true) => Ok::<(), ErrorReply>(()),
            Ok(false) => Err(error::error_reply(404, Message::Fixed(missing))),
            Err(_) => Err(internal_reply()),
        },
{
    match found {
        Ok(true) => Ok(()),
        Ok(false) => Err(error_response(404, Message::Fixed(missing))),
        Err(_) => Err(internal_response()),
    }
}

/// A number is kept within bounds and moved no further than it has to be.
pub proof fn law_numbers_are_kept_within_bounds(n: u64, low: u64, high: u64)
    requires
        low <= high,
    ensures
        low <= clamped(n, low, high) <= high,
        low <= n <= high ==> clamped(n, low, high) == n,
        n < low ==> clamped(n, low, high) == low,
        n > high ==> clamped(n, low, high) == high,
{
}

/// A reason is the one that was given, trimmed; a blank one, or none, is replaced by the fixed one.
pub proof fn law_reasons_are_the_given_ones(given: String, fallback: &'static str)
    ensures
        text::trimmed(given@).len() > 0 ==> reason_text(Some(given), fallback) == text::trimmed(
            given@,
        ),
        text::trimmed(given@).len() == 0 ==> reason_text(Some(given), fallback) == fallback@,
        reason_text(None, fallback) == fallback@,
        internal_reply().status == 500,
        internal_reply().code == error::ErrorCode::Internal,
        internal_reply().message@ == "The server could not complete the request"@,
{
}

} // verus!
