use crate::error;
use crate::error::{error_response, ErrorReply, Message};
use crate::text;
use crate::text::{parse_u64, same, strip_prefix, trim};
use vstd::prelude::*;

verus! {

/// One request header: its lower-case name, and its value where that is readable as text.
pub struct Header {
    pub name: String,
    pub value: Option<String>,
}

/// The headers of a request, in the order in which they came.
pub struct HeaderMap {
    pub entries: Vec<Header>,
}

/// What a request says under one header name.
pub enum HeaderText<'a> {
    Absent,
    Unreadable,
    Text(&'a str),
}

/// The mathematical form of [`HeaderText`].
pub enum HeaderView {
    Absent,
    Unreadable,
    Text(Seq<char>),
}

impl<'a> HeaderText<'a> {
    pub open spec fn view(&self) -> HeaderView {
        match self {
            HeaderText::Absent => HeaderView::Absent,
            HeaderText::Unreadable => HeaderView::Unreadable,
            HeaderText::Text(text) => HeaderView::Text(text@),
        }
    }

    /// The text, where there is one.
    pub fn readable(self) -> (r: Option<&'a str>)
        ensures
            opt_view(r) == self.view().readable(),
    {
        match self {
            HeaderText::Text(text) => Some(text),
            _ => None,
        }
    }
}

impl HeaderView {
    pub open spec fn readable(self) -> Option<Seq<char>> {
        match self {
            HeaderView::Text(text) => Some(text),
            _ => None,
        }
    }
}

/// The characters of an optional borrowed string.
pub open spec fn opt_view(value: Option<&str>) -> Option<Seq<char>> {
    match value {
        Some(text) => Some(text@),
        None => None,
    }
}

/// The characters of an optional string.
pub open spec fn opt_string(value: Option<String>) -> Option<Seq<char>> {
    match value {
        Some(text) => Some(text@),
        None => None,
    }
}

/// The optional string, borrowed.
pub fn opt_str(value: &Option<String>) -> (r: Option<&str>)
    ensures
        opt_view(r) == opt_string(*value),
        r is Some == *value is Some,
{
    match value {
        Some(text) => Some(text.as_str()),
        None => None,
    }
}

/// The first of `entries` that has this name.
pub open spec fn first_named(entries: Seq<Header>, name: Seq<char>) -> HeaderView
    decreases entries.len(),
{
    if entries.len() == 0 {
        HeaderView::Absent
    } else if entries[0].name@ == name {
        match entries[0].value {
            Some(text) => HeaderView::Text(text@),
            None => HeaderView::Unreadable,
        }
    } else {
        first_named(entries.drop_first(), name)
    }
}

impl HeaderMap {
    pub open spec fn header(&self, name: Seq<char>) -> HeaderView {
        first_named(self.entries@, name)
    }

    pub fn new() -> (r: HeaderMap)
        ensures
            r.entries@.len() == 0,
    {
        HeaderMap { entries: Vec::new() }
    }

    pub fn append(&mut self, name: String, value: Option<String>)
        ensures
            final(self).entries@ == old(self).entries@.push(Header { name, value }),
    {
        self.entries.push(Header { name, value });
    }

    pub fn get(&self, name: &str) -> (r: HeaderText<'_>)
        ensures
            r@ == self.header(name@),
    {
        let mut i: usize = 0;
        proof {
            assert(self.entries@.subrange(0, self.entries@.len() as int) =~= self.entries@);
        }
        while i < self.entries.len()
            invariant
                0 <= i <= self.entries.len(),
                self.header(name@) == first_named(
                    self.entries@.subrange(i as int, self.entries@.len() as int),
                    name@,
                ),
            decreases self.entries.len() - i,
        {
            proof {
                let rest = self.entries@.subrange(i as int, self.entries@.len() as int);
                assert(rest.drop_first() =~= self.entries@.subrange(
                    i + 1,
                    self.entries@.len() as int,
                ));
            }
            if same(self.entries[i].name.as_str(), name) {
                match &self.entries[i].value {
                    Some(text) => {
                        return HeaderText::Text(text.as_str());
                    },
                    None => {
                        return HeaderText::Unreadable;
                    },
                }
            }
            i = i + 1;
        }
        HeaderText::Absent
    }
}

/// The credential of an `Authorization: Bearer` header, as it was sent.
pub open spec fn bearer_token(headers: &HeaderMap) -> Option<Seq<char>> {
    match headers.header("authorization"@).readable() {
        Some(text) => text::after_prefix(text, "Bearer "@),
        None => None,
    }
}

pub fn bearer<'a>(headers: &'a HeaderMap) -> (r: Option<&'a str>)
    ensures
        opt_view(r) == bearer_token(headers),
{
    match headers.get("authorization") {
        HeaderText::Text(text) => strip_prefix(text, "Bearer "),
        _ => None,
    }
}

/// The trimmed text, where anything is left of it.
pub open spec fn nonempty_trimmed(value: Option<Seq<char>>) -> Option<Seq<char>> {
    match value {
        Some(text) if text::trimmed(text).len() > 0 => Some(text::trimmed(text)),
        _ => None,
    }
}

pub fn trim_nonempty<'a>(value: Option<&'a str>) -> (r: Option<&'a str>)
    ensures
        opt_view(r) == nonempty_trimmed(opt_view(value)),
{
    match value {
        Some(text) => {
            let rest = trim(text);
            if rest.is_empty() {
                None
            } else {
                Some(rest)
            }
        },
        None => None,
    }
}

pub open spec fn device_token_refusal() -> ErrorReply {
    error::error_reply(
        401,
        Message::Fixed("Edge Node requires Authorization: Bearer <device-token>"),
    )
}

pub open spec fn claim_token_refusal() -> ErrorReply {
    error::error_reply(401, Message::Fixed("Edge Artifact channel requires x-morphz-claim-token"))
}

/// The device token with which an edge node signs its requests.
pub fn node_device_token<'a>(headers: &'a HeaderMap) -> (r: Result<&'a str, ErrorReply>)
    ensures
        match nonempty_trimmed(bearer_token(headers)) {
            Some(token) => r matches Ok(text) && text@ == token,
            None => r == Err::<&str, ErrorReply>(device_token_refusal()),
        },
{
    match trim_nonempty(bearer(headers)) {
        Some(token) => Ok(token),
        None => Err(
            error_response(
                401,
                Message::Fixed("Edge Node requires Authorization: Bearer <device-token>"),
            ),
        ),
    }
}

/// The token that proves the claim of an edge command.
pub fn edge_claim_token<'a>(headers: &'a HeaderMap) -> (r: Result<&'a str, ErrorReply>)
    ensures
        match nonempty_trimmed(headers.header("x-morphz-claim-token"@).readable()) {
            Some(token) => r matches Ok(text) && text@ == token,
            None => r == Err::<&str, ErrorReply>(claim_token_refusal()),
        },
{
    match trim_nonempty(headers.get("x-morphz-claim-token").readable()) {
        Some(token) => Ok(token),
        None => Err(
            error_response(
                401,
                Message::Fixed("Edge Artifact channel requires x-morphz-claim-token"),
            ),
        ),
    }
}

/// The number that a header carries.
pub open spec fn header_number(headers: &HeaderMap, name: Seq<char>) -> Option<u64> {
    match headers.header(name).readable() {
        Some(text) => text::parsed_u64(text),
        None => None,
    }
}

pub fn required_u64_header(headers: &HeaderMap, name: &'static str) -> (r: Result<u64, ErrorReply>)
    ensures
        r == match header_number(headers, name@) {
            Some(n) => Ok::<u64, ErrorReply>(n),
            None => Err(error::error_reply(400, Message::Header(name))),
        },
{
    match headers.get(name) {
        HeaderText::Text(text) => match parse_u64(text) {
            Some(n) => Ok(n),
            None => Err(error_response(400, Message::Header(name))),
        },
        _ => Err(error_response(400, Message::Header(name))),
    }
}

/// What a request says under a name is the first header with that name.
pub proof fn law_headers_are_found_by_name(entries: Seq<Header>, name: Seq<char>)
    ensures
        match first_named(entries, name) {
            HeaderView::Absent => forall|j: int|
                0 <= j < entries.len() ==> (#[trigger] entries[j]).name@ != name,
            HeaderView::Unreadable => exists|i: int|
                0 <= i < entries.len() && (#[trigger] entries[i]).name@ == name && entries[i].value
                    is None && forall|j: int|
                    0 <= j < i ==> (#[trigger] entries[j]).name@ != name,
            HeaderView::Text(text) => exists|i: int|
                0 <= i < entries.len() && (#[trigger] entries[i]).name@ == name && opt_string(
                    entries[i].value,
                ) == Some(text) && forall|j: int|
                    0 <= j < i ==> (#[trigger] entries[j]).name@ != name,
        },
    decreases entries.len(),
{
    if entries.len() > 0 && entries[0].name@ != name {
        let rest = entries.drop_first();
        law_headers_are_found_by_name(rest, name);
        assert forall|j: int| 0 < j < entries.len() implies #[trigger] entries[j] == rest[j - 1] by {}
        if !(first_named(rest, name) is Absent) {
            let i = choose|i: int|
                0 <= i < rest.len() && (#[trigger] rest[i]).name@ == name && (
                first_named(rest, name) matches HeaderView::Text(text) ==> opt_string(rest[i].value)
                    == Some(text)) && (first_named(rest, name) is Unreadable ==> rest[i].value
                    is None) && forall|j: int| 0 <= j < i ==> (#[trigger] rest[j]).name@ != name;
            assert(entries[i + 1].name@ == name);
            assert forall|j: int| 0 <= j < i + 1 implies (#[trigger] entries[j]).name@ != name by {
                if j > 0 {
                    assert(rest[j - 1].name@ != name);
                }
            }
        }
    }
}

/// The credential of a request is what stands behind `Bearer ` in its authorization, and there is
/// none where the authorization is missing, unreadable or of another kind.
pub proof fn law_bearer_tokens_stand_in_the_authorization(headers: &HeaderMap, token: Seq<char>)
    ensures
        bearer_token(headers) == Some(token) <==> headers.header("authorization"@)
            == HeaderView::Text("Bearer "@ + token),
        !(headers.header("authorization"@) is Text) ==> bearer_token(headers) is None,
{
    text::law_prefixes_and_suffixes("Bearer "@, token);
    if headers.header("authorization"@) is Text {
        let found = headers.header("authorization"@)->Text_0;
        text::law_prefixes_and_suffixes(found, "Bearer "@);
    }
}

/// A text counts where something is left of it without the spaces around it, and then as what is
/// left.
pub proof fn law_blank_texts_do_not_count(value: Seq<char>)
    ensures
        nonempty_trimmed(None) is None,
        text::trimmed(value).len() == 0 ==> nonempty_trimmed(Some(value)) is None,
        text::trimmed(value).len() > 0 ==> nonempty_trimmed(Some(value)) == Some(
            text::trimmed(value),
        ),
{
}

/// A header carries the number that its text writes, and none where it is missing or writes none.
pub proof fn law_header_numbers_are_read_as_written(headers: &HeaderMap, name: Seq<char>, n: u64)
    ensures
        headers.header(name) == HeaderView::Text(text::decimal(n as nat)) ==> header_number(
            headers,
            name,
        ) == Some(n),
        !(headers.header(name) is Text) ==> header_number(headers, name) is None,
        header_number(headers, name) is Some ==> (headers.header(name) matches HeaderView::Text(
            text,
        ) && text::parsed_u64(text) == header_number(headers, name)),
        device_token_refusal().status == 401,
        claim_token_refusal().status == 401,
{
    text::law_numbers_are_read_back(n, Seq::empty());
}

/// What is there is seen as its characters, and what is absent as absent.
pub proof fn law_optional_texts_are_seen_as_they_are(text: &str, owned: String)
    ensures
        opt_view(Some(text)) == Some(text@),
        opt_view(None) is None,
        opt_string(Some(owned)) == Some(owned@),
        opt_string(None) is None,
{
}

} // verus!
