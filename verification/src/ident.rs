use crate::text::{
    byte_count, char_is_alphanumeric, char_is_control, chars_of, decimal_text, join, same,
    signed_decimal_text, take_chars, trim,
};
use crate::text;
use vstd::prelude::*;

verus! {

/// Why a resource identifier was refused.
#[derive(PartialEq, Eq, Structural, Clone, Copy, Debug)]
pub enum IdentifierFault {
    Length,
    Characters,
}

/// Why an asserted principal identifier was refused.
#[derive(PartialEq, Eq, Structural, Clone, Copy, Debug)]
pub enum PrincipalFault {
    Length,
    Whitespace,
    Control,
}

pub open spec fn identifier_char(c: char) -> bool {
    text::is_alphanumeric(c) || c == '-' || c == '_' || c == '.' || c == ':'
}

/// What is wrong with a resource identifier, `None` where nothing is.
pub open spec fn identifier_fault(value: Seq<char>) -> Option<IdentifierFault> {
    if value.len() == 0 || text::byte_len(value) > 128 {
        Some(IdentifierFault::Length)
    } else if exists|i: int| 0 <= i < value.len() && !identifier_char(#[trigger] value[i]) {
        Some(IdentifierFault::Characters)
    } else {
        None
    }
}

/// What is wrong with a principal identifier, `None` where nothing is.
pub open spec fn principal_fault(value: Seq<char>) -> Option<PrincipalFault> {
    if value.len() == 0 || text::byte_len(value) > 512 {
        Some(PrincipalFault::Length)
    } else if text::trimmed(value) != value {
        Some(PrincipalFault::Whitespace)
    } else if exists|i: int| 0 <= i < value.len() && text::is_control(#[trigger] value[i]) {
        Some(PrincipalFault::Control)
    } else {
        None
    }
}

pub open spec fn identifier_fault_message(kind: Seq<char>, fault: IdentifierFault) -> Seq<char> {
    match fault {
        IdentifierFault::Length => kind + " length must be 1..=128"@,
        IdentifierFault::Characters => kind
            + " may contain only ASCII letters, digits, dots, hyphens, underscores, or colons"@,
    }
}

pub open spec fn principal_fault_message(fault: PrincipalFault) -> Seq<char> {
    match fault {
        PrincipalFault::Length => "principal_id length must be 1..=512 bytes"@,
        PrincipalFault::Whitespace =>
            "principal_id must not contain leading or trailing whitespace"@,
        PrincipalFault::Control => "principal_id must not contain control characters"@,
    }
}

pub fn identifier_fault_text(kind: &str, fault: IdentifierFault) -> (r: String)
    ensures
        r@ == identifier_fault_message(kind@, fault),
{
    match fault {
        IdentifierFault::Length => join(kind, " length must be 1..=128"),
        IdentifierFault::Characters => join(
            kind,
            " may contain only ASCII letters, digits, dots, hyphens, underscores, or colons",
        ),
    }
}

pub fn principal_fault_text(fault: PrincipalFault) -> (r: String)
    ensures
        r@ == principal_fault_message(fault),
{
    match fault {
        PrincipalFault::Length => "principal_id length must be 1..=512 bytes".to_owned(),
        PrincipalFault::Whitespace =>
            "principal_id must not contain leading or trailing whitespace".to_owned(),
        PrincipalFault::Control => "principal_id must not contain control characters".to_owned(),
    }
}

pub fn check_identifier(value: &str) -> (r: Option<IdentifierFault>)
    ensures
        r == identifier_fault(value@),
{
    if value.is_empty() || byte_count(value) > 128 {
        return Some(IdentifierFault::Length);
    }
    let chars = chars_of(value);
    let mut i: usize = 0;
    while i < chars.len()
        invariant
            chars@ == value@,
            0 <= i <= chars.len(),
            value@.len() > 0,
            text::byte_len(value@) <= 128,
            forall|j: int| 0 <= j < i ==> identifier_char(#[trigger] value@[j]),
        decreases chars.len() - i,
    {
        let c: char = chars[i];
        if !(char_is_alphanumeric(c) || c == '-' || c == '_' || c == '.' || c == ':') {
            proof {
                assert(!identifier_char(value@[i as int]));
            }
            return Some(IdentifierFault::Characters);
        }
        i = i + 1;
    }
    None
}

pub fn check_principal_id(value: &str) -> (r: Option<PrincipalFault>)
    ensures
        r == principal_fault(value@),
{
    if value.is_empty() || byte_count(value) > 512 {
        return Some(PrincipalFault::Length);
    }
    if !same(trim(value), value) {
        return Some(PrincipalFault::Whitespace);
    }
    let chars = chars_of(value);
    let mut i: usize = 0;
    while i < chars.len()
        invariant
            chars@ == value@,
            0 <= i <= chars.len(),
            value@.len() > 0,
            text::byte_len(value@) <= 512,
            text::trimmed(value@) == value@,
            forall|j: int| 0 <= j < i ==> !text::is_control(#[trigger] value@[j]),
        decreases chars.len() - i,
    {
        if char_is_control(chars[i]) {
            proof {
                assert(text::is_control(value@[i as int]));
            }
            return Some(PrincipalFault::Control);
        }
        i = i + 1;
    }
    None
}

/// Validates a resource identifier of the given kind.
pub fn validate_identifier(kind: &str, value: &str) -> (r: Result<(), String>)
    ensures
        match identifier_fault(value@) {
            None => r is Ok,
            Some(fault) => r matches Err(message) && message@ == identifier_fault_message(
                kind@,
                fault,
            ),
        },
{
    match check_identifier(value) {
        None => Ok(()),
        Some(fault) => Err(identifier_fault_text(kind, fault)),
    }
}

/// Validates an externally asserted principal identifier.
///
/// Such an identifier is opaque and belongs to an identity provider, so provider-native values
/// (an email address, a namespaced subject) need not fit the grammar of resource identifiers.
pub fn validate_principal_id(value: &str) -> (r: Result<(), String>)
    ensures
        match principal_fault(value@) {
            None => r is Ok,
            Some(fault) => r matches Err(message) && message@ == principal_fault_message(fault),
        },
{
    match check_principal_id(value) {
        None => Ok(()),
        Some(fault) => Err(principal_fault_text(fault)),
    }
}

pub open spec fn title_limit() -> nat {
    200
}

/// A title: the given one, or the fallback, trimmed and cut to 200 characters.
pub open spec fn bounded_title_of(value: Option<String>, fallback: Seq<char>) -> Seq<char> {
    text::first_chars(
        text::trimmed(
            match value {
                Some(text) => text@,
                None => fallback,
            },
        ),
        title_limit(),
    )
}

pub fn bounded_title(value: Option<String>, fallback: &str) -> (r: String)
    ensures
        r@ == bounded_title_of(value, fallback@),
{
    match value {
        Some(text) => take_chars(trim(text.as_str()), 200).to_owned(),
        None => take_chars(trim(fallback), 200).to_owned(),
    }
}

pub open spec fn trace_id_char(c: char) -> bool {
    text::is_alphanumeric(c) || c == '-' || c == '_' || c == '.'
}

pub open spec fn is_trace_id(value: Seq<char>) -> bool {
    &&& 0 < value.len() <= 128
    &&& forall|i: int| 0 <= i < value.len() ==> trace_id_char(#[trigger] value[i])
}

/// Whether a caller's trace identifier is taken over as it is.
pub fn valid_trace_id(value: &str) -> (r: bool)
    ensures
        r == is_trace_id(value@),
{
    let chars = chars_of(value);
    if chars.len() == 0 || chars.len() > 128 {
        return false;
    }
    let mut i: usize = 0;
    while i < chars.len()
        invariant
            chars@ == value@,
            0 <= i <= chars.len(),
            0 < chars.len() <= 128,
            forall|j: int| 0 <= j < i ==> trace_id_char(#[trigger] value@[j]),
        decreases chars.len() - i,
    {
        let c: char = chars[i];
        if !(char_is_alphanumeric(c) || c == '-' || c == '_' || c == '.') {
            proof {
                assert(!trace_id_char(value@[i as int]));
            }
            return false;
        }
        i = i + 1;
    }
    true
}

/// A title never grows past the limit.
pub proof fn law_titles_are_bounded(value: Option<String>, fallback: Seq<char>)
    ensures
        bounded_title_of(value, fallback).len() <= title_limit(),
{
}

/// Every accepted resource identifier is also an acceptable principal identifier.
pub proof fn law_identifiers_are_principal_ids(value: Seq<char>)
    requires
        identifier_fault(value) is None,
    ensures
        principal_fault(value) is None,
{
    assert(identifier_char(value[0]));
    assert(identifier_char(value.last()));
    assert(!text::is_space(value[0]) && !text::is_space(value.last()));
    assert(text::trim_start(value) == value);
    assert(text::trim_end(value) == value);
    assert forall|i: int| 0 <= i < value.len() implies !text::is_control(#[trigger] value[i]) by {
        assert(identifier_char(value[i]));
    }
}

/// The text of an identifier that the API makes up.
pub open spec fn api_id_text(prefix: Seq<char>, nanos: int, counter: nat) -> Seq<char> {
    prefix + "_"@ + text::signed_decimal(nanos) + "_"@ + text::decimal(counter)
}

/// `chrono::Utc::now`, then `timestamp_nanos_opt`: the current time in nanoseconds since the Unix
/// epoch, where that fits. It depends on the clock, so nothing is claimed of it.
#[verifier::external_body]
pub(crate) fn clock_nanos() -> (r: Option<i64>) {
    chrono::Utc::now().timestamp_nanos_opt()
}

/// The identifier for a time and a running number.
pub fn api_id_at(prefix: &str, nanos: Option<i64>, counter: u64) -> (r: String)
    ensures
        r@ == api_id_text(
            prefix@,
            match nanos {
                Some(n) => n as int,
                None => 0,
            },
            counter as nat,
        ),
{
    let time: i64 = match nanos {
        Some(n) => n,
        None => 0,
    };
    let head = join(join(prefix, "_").as_str(), signed_decimal_text(time).as_str());
    join(join(head.as_str(), "_").as_str(), decimal_text(counter).as_str())
}

/// A fresh identifier: the prefix, the current time and a running number.
pub fn api_id(prefix: &str, counter: u64) -> (r: String)
    ensures
        exists|nanos: int| r@ == #[trigger] api_id_text(prefix@, nanos, counter as nat),
{
    api_id_at(prefix, clock_nanos(), counter)
}

/// The text of an identifier begins with its prefix and ends in its running number.
pub proof fn lemma_api_id_is_numbered(prefix: Seq<char>, nanos: int, counter: nat)
    ensures
        text::starts_with(api_id_text(prefix, nanos, counter), prefix + "_"@),
        text::is_numbered(api_id_text(prefix, nanos, counter), counter),
{
    reveal_strlit("_");
    let id = api_id_text(prefix, nanos, counter);
    let head = prefix + "_"@;
    let tail = seq!['_'] + text::decimal(counter);
    assert(id.subrange(0, head.len() as int) =~= head);
    assert(id.subrange(id.len() - tail.len(), id.len() as int) =~= tail);
}

/// Two identifiers with different running numbers are different, whatever their prefixes and times.
pub proof fn law_running_numbers_keep_identifiers_apart(
    prefix_a: Seq<char>,
    nanos_a: int,
    counter_a: nat,
    prefix_b: Seq<char>,
    nanos_b: int,
    counter_b: nat,
)
    requires
        counter_a != counter_b,
    ensures
        api_id_text(prefix_a, nanos_a, counter_a) != api_id_text(prefix_b, nanos_b, counter_b),
{
    lemma_api_id_is_numbered(prefix_a, nanos_a, counter_a);
    lemma_api_id_is_numbered(prefix_b, nanos_b, counter_b);
    text::lemma_numbers_tell_texts_apart(
        api_id_text(prefix_a, nanos_a, counter_a),
        counter_a,
        api_id_text(prefix_b, nanos_b, counter_b),
        counter_b,
    );
}

/// A title that has yet to be written out.
pub enum Title {
    Fixed(&'static str),
    Owned(String),
    /// The given title or the fallback, trimmed and cut.
    Bounded { given: Option<String>, fallback: &'static str },
}

impl Title {
    pub open spec fn view(&self) -> Seq<char> {
        match self {
            Title::Fixed(text) => text@,
            Title::Owned(text) => text@,
            Title::Bounded { given, fallback } => bounded_title_of(*given, fallback@),
        }
    }

    pub fn into_text(self) -> (r: String)
        ensures
            r@ == self@,
    {
        match self {
            Title::Fixed(text) => text.to_owned(),
            Title::Owned(text) => text,
            Title::Bounded { given, fallback } => bounded_title(given, fallback),
        }
    }
}

/// A resource identifier is good where it has from one to 128 bytes and is made of ASCII letters,
/// digits, hyphens, underscores, dots and colons; else its length is at fault, or its characters.
pub proof fn law_identifiers_are_short_and_plain(value: Seq<char>)
    ensures
        ({
            let length = value.len() > 0 && text::byte_len(value) <= 128;
            let plain = forall|i: int|
                0 <= i < value.len() ==> ('0' <= #[trigger] value[i] <= '9' || 'a' <= value[i]
                    <= 'z' || 'A' <= value[i] <= 'Z' || value[i] == '-' || value[i] == '_'
                    || value[i] == '.' || value[i] == ':');
            &&& identifier_fault(value) is None <==> length && plain
            &&& !length ==> identifier_fault(value) == Some(IdentifierFault::Length)
            &&& length && !plain ==> identifier_fault(value) == Some(IdentifierFault::Characters)
        }),
{
    assert forall|i: int| 0 <= i < value.len() implies identifier_char(#[trigger] value[i]) == ('0'
        <= value[i] <= '9' || 'a' <= value[i] <= 'z' || 'A' <= value[i] <= 'Z' || value[i] == '-'
        || value[i] == '_' || value[i] == '.' || value[i] == ':') by {}
}

/// A principal identifier is opaque: it is good where it has from one to 512 bytes, no spaces around
/// it, and no control characters.
pub proof fn law_principal_identifiers_are_opaque(value: Seq<char>)
    ensures
        ({
            let length = value.len() > 0 && text::byte_len(value) <= 512;
            let controlled = exists|i: int|
                0 <= i < value.len() && text::is_control(#[trigger] value[i]);
            &&& principal_fault(value) is None <==> length && text::trimmed(value) == value
                && !controlled
            &&& !length ==> principal_fault(value) == Some(PrincipalFault::Length)
            &&& length && text::trimmed(value) != value ==> principal_fault(value) == Some(
                PrincipalFault::Whitespace,
            )
            &&& length && text::trimmed(value) == value && controlled ==> principal_fault(value)
                == Some(PrincipalFault::Control)
        }),
{
}

/// What is wrong with an identifier is said in these words.
pub proof fn law_identifier_faults_are_named(kind: Seq<char>, a: IdentifierFault, b: PrincipalFault)
    ensures
        a == IdentifierFault::Length ==> identifier_fault_message(kind, a) == kind
            + " length must be 1..=128"@,
        a == IdentifierFault::Characters ==> identifier_fault_message(kind, a) == kind
            + " may contain only ASCII letters, digits, dots, hyphens, underscores, or colons"@,
        b == PrincipalFault::Length ==> principal_fault_message(b)
            == "principal_id length must be 1..=512 bytes"@,
        b == PrincipalFault::Whitespace ==> principal_fault_message(b)
            == "principal_id must not contain leading or trailing whitespace"@,
        b == PrincipalFault::Control ==> principal_fault_message(b)
            == "principal_id must not contain control characters"@,
{
}

/// A trace identifier has from one to 128 characters: ASCII letters, digits, hyphens, underscores and
/// dots.
pub proof fn law_trace_identifiers_are_short_and_plain(value: Seq<char>)
    ensures
        is_trace_id(value) <==> 1 <= value.len() <= 128 && forall|i: int|
            0 <= i < value.len() ==> ('0' <= #[trigger] value[i] <= '9' || 'a' <= value[i] <= 'z'
                || 'A' <= value[i] <= 'Z' || value[i] == '-' || value[i] == '_' || value[i] == '.'),
{
    assert forall|i: int| 0 <= i < value.len() implies trace_id_char(#[trigger] value[i]) == ('0'
        <= value[i] <= '9' || 'a' <= value[i] <= 'z' || 'A' <= value[i] <= 'Z' || value[i] == '-'
        || value[i] == '_' || value[i] == '.') by {}
}

/// A title is the given one where there is one, else the fallback; trimmed, and cut to 200
/// characters.
pub proof fn law_titles_are_the_given_ones(given: String, fallback: Seq<char>)
    ensures
        bounded_title_of(Some(given), fallback) == text::first_chars(text::trimmed(given@), 200),
        bounded_title_of(None, fallback) == text::first_chars(text::trimmed(fallback), 200),
        (Title::Bounded { given: Some(given), fallback: "x" })@ == text::first_chars(
            text::trimmed(given@),
            200,
        ),
        Title::Owned(given)@ == given@,
{
}

/// An identifier that the API makes up is its prefix, the time and the running number, with
/// underscores between them.
pub proof fn law_made_up_identifiers_tell_time_and_number(
    prefix: Seq<char>,
    nanos: int,
    counter: nat,
)
    ensures
        api_id_text(prefix, nanos, counter) == prefix + seq!['_'] + text::signed_decimal(nanos)
            + seq!['_'] + text::decimal(counter),
{
    reveal_strlit("_");
    assert("_"@ =~= seq!['_']);
}

} // verus!
