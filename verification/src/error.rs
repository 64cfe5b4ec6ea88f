use crate::ident::{identifier_fault_text, principal_fault_text, IdentifierFault, PrincipalFault};
use crate::text::{decimal_text, join};
use vstd::prelude::*;

verus! {

/// What a failed request is told in words: a fixed sentence, a sentence that the backend wrote, or
/// one with a value filled in.
pub enum Message {
    Fixed(&'static str),
    Owned(String),
    Identifier { kind: &'static str, fault: IdentifierFault },
    Principal(PrincipalFault),
    Header(&'static str),
    Around { before: &'static str, value: String, after: &'static str },
    Pair {
        before: &'static str,
        first: String,
        between: &'static str,
        second: String,
        after: &'static str,
    },
    Numbers { before: &'static str, first: u64, between: &'static str, second: u64 },
}

impl Message {
    /// The sentence itself.
    pub open spec fn view(&self) -> Seq<char> {
        match self {
            Message::Fixed(text) => text@,
            Message::Owned(text) => text@,
            Message::Identifier { kind, fault } => crate::ident::identifier_fault_message(
                kind@,
                *fault,
            ),
            Message::Principal(fault) => crate::ident::principal_fault_message(*fault),
            Message::Header(name) => "missing or invalid Header: "@ + name@,
            Message::Around { before, value, after } => before@ + value@ + after@,
            Message::Pair { before, first, between, second, after } => before@ + first@ + between@
                + second@ + after@,
            Message::Numbers { before, first, between, second } => before@ + crate::text::decimal(
                *first as nat,
            ) + between@ + crate::text::decimal(*second as nat),
        }
    }

    pub fn text(&self) -> (r: String)
        ensures
            r@ == self@,
    {
        match self {
            Message::Fixed(text) => (*text).to_owned(),
            Message::Owned(text) => text.clone(),
            Message::Identifier { kind, fault } => identifier_fault_text(kind, *fault),
            Message::Principal(fault) => principal_fault_text(*fault),
            Message::Header(name) => join("missing or invalid Header: ", name),
            Message::Around { before, value, after } => join(
                join(before, value.as_str()).as_str(),
                after,
            ),
            Message::Pair { before, first, between, second, after } => {
                let head = join(join(before, first.as_str()).as_str(), between);
                join(join(head.as_str(), second.as_str()).as_str(), after)
            },
            Message::Numbers { before, first, between, second } => {
                let head = join(join(before, decimal_text(*first).as_str()).as_str(), between);
                join(head.as_str(), decimal_text(*second).as_str())
            },
        }
    }
}

/// The stable machine-readable codes of the error envelope.
#[derive(PartialEq, Eq, Structural, Clone, Copy, Debug)]
pub enum ErrorCode {
    InvalidArgument,
    Unauthorized,
    Forbidden,
    NotFound,
    Conflict,
    ResourceExhausted,
    Unavailable,
    DeadlineExceeded,
    Internal,
    RequestFailed,
}

impl ErrorCode {
    pub open spec fn spec_as_str(self) -> &'static str {
        match self {
            ErrorCode::InvalidArgument => "invalid_argument",
            ErrorCode::Unauthorized => "unauthorized",
            ErrorCode::Forbidden => "forbidden",
            ErrorCode::NotFound => "not_found",
            ErrorCode::Conflict => "conflict",
            ErrorCode::ResourceExhausted => "resource_exhausted",
            ErrorCode::Unavailable => "unavailable",
            ErrorCode::DeadlineExceeded => "deadline_exceeded",
            ErrorCode::Internal => "internal",
            ErrorCode::RequestFailed => "request_failed",
        }
    }

    pub fn as_str(self) -> (r: &'static str)
        ensures
            r == self.spec_as_str(),
    {
        match self {
            ErrorCode::InvalidArgument => "invalid_argument",
            ErrorCode::Unauthorized => "unauthorized",
            ErrorCode::Forbidden => "forbidden",
            ErrorCode::NotFound => "not_found",
            ErrorCode::Conflict => "conflict",
            ErrorCode::ResourceExhausted => "resource_exhausted",
            ErrorCode::Unavailable => "unavailable",
            ErrorCode::DeadlineExceeded => "deadline_exceeded",
            ErrorCode::Internal => "internal",
            ErrorCode::RequestFailed => "request_failed",
        }
    }
}

/// How the backend classifies a refused or failed command.
#[derive(PartialEq, Eq, Structural, Clone, Copy, Debug)]
pub enum SdkErrorCode {
    InvalidArgument,
    ResourceExhausted,
    Unauthorized,
    Forbidden,
    NotFound,
    Conflict,
    Unavailable,
    Internal,
}

/// A refused or failed backend command.
pub struct SdkError {
    pub code: SdkErrorCode,
    pub message: Message,
}

/// An error answer: the HTTP status and the two fields of its JSON envelope.
pub struct ErrorReply {
    pub status: u16,
    pub code: ErrorCode,
    pub message: Message,
}

/// The one sentence that an internal failure shows.
pub const INTERNAL_MESSAGE: &'static str = "The server could not complete the request";

pub open spec fn code_for_status(status: u16) -> ErrorCode {
    if status == 400 || status == 416 || status == 422 {
        ErrorCode::InvalidArgument
    } else if status == 401 {
        ErrorCode::Unauthorized
    } else if status == 403 {
        ErrorCode::Forbidden
    } else if status == 404 {
        ErrorCode::NotFound
    } else if status == 409 {
        ErrorCode::Conflict
    } else if status == 413 || status == 429 {
        ErrorCode::ResourceExhausted
    } else if status == 503 {
        ErrorCode::Unavailable
    } else if status == 504 {
        ErrorCode::DeadlineExceeded
    } else if 500 <= status < 600 {
        ErrorCode::Internal
    } else {
        ErrorCode::RequestFailed
    }
}

pub open spec fn status_for_sdk(code: SdkErrorCode) -> u16 {
    match code {
        SdkErrorCode::InvalidArgument => 400,
        SdkErrorCode::ResourceExhausted => 413,
        SdkErrorCode::Unauthorized => 401,
        SdkErrorCode::Forbidden => 403,
        SdkErrorCode::NotFound => 404,
        SdkErrorCode::Conflict => 409,
        SdkErrorCode::Unavailable => 503,
        SdkErrorCode::Internal => 500,
    }
}

pub open spec fn code_for_sdk(code: SdkErrorCode) -> ErrorCode {
    match code {
        SdkErrorCode::InvalidArgument => ErrorCode::InvalidArgument,
        SdkErrorCode::ResourceExhausted => ErrorCode::ResourceExhausted,
        SdkErrorCode::Unauthorized => ErrorCode::Unauthorized,
        SdkErrorCode::Forbidden => ErrorCode::Forbidden,
        SdkErrorCode::NotFound => ErrorCode::NotFound,
        SdkErrorCode::Conflict => ErrorCode::Conflict,
        SdkErrorCode::Unavailable => ErrorCode::Unavailable,
        SdkErrorCode::Internal => ErrorCode::Internal,
    }
}

/// The answer for a failure with this status: an internal one hides its message.
pub open spec fn error_reply(status: u16, message: Message) -> ErrorReply {
    if status == 500 {
        ErrorReply {
            status,
            code: ErrorCode::Internal,
            message: Message::Fixed(INTERNAL_MESSAGE),
        }
    } else {
        ErrorReply { status, code: code_for_status(status), message }
    }
}

/// The answer for a refused or failed backend command: an internal one hides its message.
pub open spec fn sdk_reply(error: SdkError) -> ErrorReply {
    ErrorReply {
        status: status_for_sdk(error.code),
        code: code_for_sdk(error.code),
        message: if error.code == SdkErrorCode::Internal {
            Message::Fixed(INTERNAL_MESSAGE)
        } else {
            error.message
        },
    }
}

/// The answer to a request without a valid credential.
pub open spec fn unauthorized_reply() -> ErrorReply {
    error_reply(401, Message::Fixed("Authentication is required"))
}

pub fn http_error_code(status: u16) -> (r: ErrorCode)
    ensures
        r == code_for_status(status),
{
    if status == 400 || status == 416 || status == 422 {
        ErrorCode::InvalidArgument
    } else if status == 401 {
        ErrorCode::Unauthorized
    } else if status == 403 {
        ErrorCode::Forbidden
    } else if status == 404 {
        ErrorCode::NotFound
    } else if status == 409 {
        ErrorCode::Conflict
    } else if status == 413 || status == 429 {
        ErrorCode::ResourceExhausted
    } else if status == 503 {
        ErrorCode::Unavailable
    } else if status == 504 {
        ErrorCode::DeadlineExceeded
    } else if 500 <= status && status < 600 {
        ErrorCode::Internal
    } else {
        ErrorCode::RequestFailed
    }
}

pub fn error_response(status: u16, message: Message) -> (r: ErrorReply)
    ensures
        r == error_reply(status, message),
{
    if status == 500 {
        ErrorReply {
            status,
            code: ErrorCode::Internal,
            message: Message::Fixed(INTERNAL_MESSAGE),
        }
    } else {
        ErrorReply { status, code: http_error_code(status), message }
    }
}

pub fn unauthorized_response() -> (r: ErrorReply)
    ensures
        r == unauthorized_reply(),
{
    error_response(401, Message::Fixed("Authentication is required"))
}

pub fn sdk_error_response(error: SdkError) -> (r: ErrorReply)
    ensures
        r == sdk_reply(error),
{
    let SdkError { code, message } = error;
    match code {
        SdkErrorCode::InvalidArgument => ErrorReply {
            status: 400,
            code: ErrorCode::InvalidArgument,
            message,
        },
        SdkErrorCode::ResourceExhausted => ErrorReply {
            status: 413,
            code: ErrorCode::ResourceExhausted,
            message,
        },
        SdkErrorCode::Unauthorized => ErrorReply {
            status: 401,
            code: ErrorCode::Unauthorized,
            message,
        },
        SdkErrorCode::Forbidden => ErrorReply { status: 403, code: ErrorCode::Forbidden, message },
        SdkErrorCode::NotFound => ErrorReply { status: 404, code: ErrorCode::NotFound, message },
        SdkErrorCode::Conflict => ErrorReply { status: 409, code: ErrorCode::Conflict, message },
        SdkErrorCode::Unavailable => ErrorReply {
            status: 503,
            code: ErrorCode::Unavailable,
            message,
        },
        SdkErrorCode::Internal => ErrorReply {
            status: 500,
            code: ErrorCode::Internal,
            message: Message::Fixed(INTERNAL_MESSAGE),
        },
    }
}

/// An internal failure is answered the same way whatever went wrong.
pub proof fn law_internal_failures_hide_their_message(a: Message, b: Message)
    ensures
        error_reply(500, a) == error_reply(500, b),
        sdk_reply(SdkError { code: SdkErrorCode::Internal, message: a }) == error_reply(500, b),
{
}

/// Any other failure shows its message as it is.
pub proof fn law_other_failures_show_their_message(status: u16, message: Message, error: SdkError)
    requires
        status != 500,
        error.code != SdkErrorCode::Internal,
    ensures
        error_reply(status, message).message == message,
        error_reply(status, message).status == status,
        sdk_reply(error).message == error.message,
{
}

/// Statuses have these codes.
pub proof fn law_statuses_have_their_codes(status: u16)
    ensures
        status == 400 || status == 416 || status == 422 ==> code_for_status(status)
            == ErrorCode::InvalidArgument,
        status == 401 ==> code_for_status(status) == ErrorCode::Unauthorized,
        status == 403 ==> code_for_status(status) == ErrorCode::Forbidden,
        status == 404 ==> code_for_status(status) == ErrorCode::NotFound,
        status == 409 ==> code_for_status(status) == ErrorCode::Conflict,
        status == 413 || status == 429 ==> code_for_status(status) == ErrorCode::ResourceExhausted,
        status == 503 ==> code_for_status(status) == ErrorCode::Unavailable,
        status == 504 ==> code_for_status(status) == ErrorCode::DeadlineExceeded,
        500 <= status <= 599 && status != 503 && status != 504 ==> code_for_status(status)
            == ErrorCode::Internal,
        code_for_status(status) == ErrorCode::RequestFailed <==> !(500 <= status <= 599) && status
            != 400 && status != 401 && status != 403 && status != 404 && status != 409 && status
            != 413 && status != 416 && status != 422 && status != 429,
{
}

/// What the backend refuses is answered with the status whose code it is, and the two ways to answer
/// agree: a refusal looks as if it had been found here.
pub proof fn law_refusals_of_the_backend_keep_their_meaning(error: SdkError)
    ensures
        error.code == SdkErrorCode::InvalidArgument ==> sdk_reply(error).status == 400,
        error.code == SdkErrorCode::Unauthorized ==> sdk_reply(error).status == 401,
        error.code == SdkErrorCode::Forbidden ==> sdk_reply(error).status == 403,
        error.code == SdkErrorCode::NotFound ==> sdk_reply(error).status == 404,
        error.code == SdkErrorCode::Conflict ==> sdk_reply(error).status == 409,
        error.code == SdkErrorCode::ResourceExhausted ==> sdk_reply(error).status == 413,
        error.code == SdkErrorCode::Internal ==> sdk_reply(error).status == 500,
        error.code == SdkErrorCode::Unavailable ==> sdk_reply(error).status == 503,
        sdk_reply(error) == error_reply(sdk_reply(error).status, error.message),
        sdk_reply(error).code == code_for_status(sdk_reply(error).status),
{
}

/// Codes are written in these words.
pub proof fn law_codes_are_written_in_fixed_words(code: ErrorCode)
    ensures
        code == ErrorCode::InvalidArgument ==> code.spec_as_str() == "invalid_argument",
        code == ErrorCode::Unauthorized ==> code.spec_as_str() == "unauthorized",
        code == ErrorCode::Forbidden ==> code.spec_as_str() == "forbidden",
        code == ErrorCode::NotFound ==> code.spec_as_str() == "not_found",
        code == ErrorCode::Conflict ==> code.spec_as_str() == "conflict",
        code == ErrorCode::ResourceExhausted ==> code.spec_as_str() == "resource_exhausted",
        code == ErrorCode::Unavailable ==> code.spec_as_str() == "unavailable",
        code == ErrorCode::DeadlineExceeded ==> code.spec_as_str() == "deadline_exceeded",
        code == ErrorCode::Internal ==> code.spec_as_str() == "internal",
        code == ErrorCode::RequestFailed ==> code.spec_as_str() == "request_failed",
{
}

/// An answer tells the status, the code that goes with it, and the words; an internal one tells the
/// fixed words whatever happened, and a request without a credential is told that it needs one.
pub proof fn law_answers_tell_status_code_and_words(status: u16, message: Message)
    ensures
        error_reply(status, message).status == status,
        error_reply(status, message).code == code_for_status(status),
        error_reply(status, message).message@ == if status == 500 {
            "The server could not complete the request"@
        } else {
            message@
        },
        unauthorized_reply().status == 401,
        unauthorized_reply().code == ErrorCode::Unauthorized,
        unauthorized_reply().message@ == "Authentication is required"@,
{
}

/// Messages are put together from their parts in order.
pub proof fn law_messages_are_put_together_in_order(
    a: &'static str,
    b: &'static str,
    c: &'static str,
    x: String,
    y: String,
    m: u64,
    n: u64,
)
    ensures
        Message::Fixed(a)@ == a@,
        Message::Owned(x)@ == x@,
        (Message::Around { before: a, value: x, after: b })@ == a@ + x@ + b@,
        (Message::Pair { before: a, first: x, between: b, second: y, after: c })@ == a@ + x@ + b@
            + y@ + c@,
        (Message::Numbers { before: a, first: m, between: b, second: n })@ == a@
            + crate::text::decimal(m as nat) + b@ + crate::text::decimal(n as nat),
        Message::Header(a)@ == "missing or invalid Header: "@ + a@,
{
}

/// An internal failure says nothing of its cause: whatever the cause was, the words are these.
pub proof fn law_internal_failures_keep_their_cause(message: Message)
    ensures
        error_reply(500, message).message@ == "The server could not complete the request"@,
        error_reply(500, message).code == ErrorCode::Internal,
        sdk_reply(SdkError { code: SdkErrorCode::Internal, message }).message@
            == "The server could not complete the request"@,
{
}

} // verus!
