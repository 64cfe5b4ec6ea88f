use vstd::hash_set::StringHashSet;
use vstd::prelude::*;
use vstd::std_specs::iter::*;
use vstd::string::*;
use vstd::utf8::*;

verus! {

/// Characters with the Unicode `White_Space` property.
pub open spec fn is_space(c: char) -> bool {
    ||| 0x9 <= c as u32 <= 0xd
    ||| c as u32 == 0x20
    ||| c as u32 == 0x85
    ||| c as u32 == 0xa0
    ||| c as u32 == 0x1680
    ||| 0x2000 <= c as u32 <= 0x200a
    ||| c as u32 == 0x2028
    ||| c as u32 == 0x2029
    ||| c as u32 == 0x202f
    ||| c as u32 == 0x205f
    ||| c as u32 == 0x3000
}

/// Characters of the Unicode general category `Cc`.
pub open spec fn is_control(c: char) -> bool {
    c as u32 <= 0x1f || 0x7f <= c as u32 <= 0x9f
}

pub open spec fn is_digit(c: char) -> bool {
    '0' <= c <= '9'
}

pub open spec fn is_alphanumeric(c: char) -> bool {
    is_digit(c) || 'a' <= c <= 'z' || 'A' <= c <= 'Z'
}

/// The number of bytes that `s` takes in UTF-8.
pub open spec fn byte_len(s: Seq<char>) -> nat {
    encode_utf8(s).len()
}

/// `s` without its leading whitespace.
pub open spec fn trim_start(s: Seq<char>) -> Seq<char>
    decreases s.len(),
{
    if s.len() > 0 && is_space(s[0]) {
        trim_start(s.drop_first())
    } else {
        s
    }
}

/// `s` without its trailing whitespace.
pub open spec fn trim_end(s: Seq<char>) -> Seq<char>
    decreases s.len(),
{
    if s.len() > 0 && is_space(s.last()) {
        trim_end(s.drop_last())
    } else {
        s
    }
}

/// `s` without its leading and trailing whitespace.
pub open spec fn trimmed(s: Seq<char>) -> Seq<char> {
    trim_end(trim_start(s))
}

/// The first `n` characters of `s`, or all of them where it has fewer.
pub open spec fn first_chars(s: Seq<char>, n: nat) -> Seq<char> {
    if s.len() <= n {
        s
    } else {
        s.subrange(0, n as int)
    }
}

pub open spec fn starts_with(s: Seq<char>, prefix: Seq<char>) -> bool {
    prefix.len() <= s.len() && s.subrange(0, prefix.len() as int) == prefix
}

pub open spec fn ends_with(s: Seq<char>, suffix: Seq<char>) -> bool {
    suffix.len() <= s.len() && s.subrange(s.len() - suffix.len(), s.len() as int) == suffix
}

/// What follows `prefix` in `s`, where `s` starts with it.
pub open spec fn after_prefix(s: Seq<char>, prefix: Seq<char>) -> Option<Seq<char>> {
    if starts_with(s, prefix) {
        Some(s.subrange(prefix.len() as int, s.len() as int))
    } else {
        None
    }
}

/// `n` in decimal digits, without leading zeros.
pub open spec fn decimal(n: nat) -> Seq<char>
    decreases n,
{
    if n < 10 {
        seq![digit_char(n)]
    } else {
        decimal(n / 10).push(digit_char(n % 10))
    }
}

pub open spec fn digit_char(d: nat) -> char {
    (('0' as nat) + d) as char
}

/// The value of the decimal digits `s`, `None` where a character is no digit.
pub open spec fn digits_value(s: Seq<char>) -> Option<nat>
    decreases s.len(),
{
    if s.len() == 0 {
        Some(0)
    } else {
        match digits_value(s.drop_last()) {
            Some(n) if is_digit(s.last()) => Some((n * 10 + (s.last() as nat - '0' as nat)) as nat),
            _ => None,
        }
    }
}

/// The unsigned number that `s` writes in decimal, with an optional leading `+`.
pub open spec fn parsed_u64(s: Seq<char>) -> Option<u64> {
    let digits = if s.len() > 0 && s[0] == '+' {
        s.drop_first()
    } else {
        s
    };
    match digits_value(digits) {
        Some(n) if digits.len() > 0 && n <= u64::MAX => Some(n as u64),
        _ => None,
    }
}

pub fn char_is_space(c: char) -> (r: bool)
    ensures
        r == is_space(c),
{
    let v: u32 = c as u32;
    (0x9 <= v && v <= 0xd) || v == 0x20 || v == 0x85 || v == 0xa0 || v == 0x1680 || (0x2000 <= v
        && v <= 0x200a) || v == 0x2028 || v == 0x2029 || v == 0x202f || v == 0x205f || v == 0x3000
}

pub fn char_is_control(c: char) -> (r: bool)
    ensures
        r == is_control(c),
{
    let v: u32 = c as u32;
    v <= 0x1f || (0x7f <= v && v <= 0x9f)
}

pub fn char_is_alphanumeric(c: char) -> (r: bool)
    ensures
        r == is_alphanumeric(c),
{
    ('0' <= c && c <= '9') || ('a' <= c && c <= 'z') || ('A' <= c && c <= 'Z')
}

/// The characters of `s`, in order.
pub fn chars_of(s: &str) -> (v: Vec<char>)
    ensures
        v@ == s@,
{
    broadcast use group_string_axioms;

    let mut v: Vec<char> = Vec::new();
    let mut it = s.chars();
    let ghost all = s@;
    proof {
        assert(v@ + IteratorSpec::remaining(&it) =~= all);
    }
    loop
        invariant
            v@ + IteratorSpec::remaining(&it) == all,
            IteratorSpec::decrease(&it) is Some,
            IteratorSpec::obeys_prophetic_iter_laws(&it),
        ensures
            v@ == all,
        decreases IteratorSpec::decrease(&it)->0,
    {
        broadcast use group_string_axioms;

        let ghost before = it;
        match it.next() {
            Some(c) => {
                proof {
                    assert(IteratorSpec::remaining(&before) =~= seq![c] + IteratorSpec::remaining(&it));
                    assert(v@.push(c) + IteratorSpec::remaining(&it) =~= all);
                }
                v.push(c);
            },
            None => {
                proof {
                    assert(v@ =~= all);
                }
                break;
            },
        }
    }
    v
}

/// Whether two strings hold the same characters.
pub fn same(a: &str, b: &str) -> (r: bool)
    ensures
        r == (a@ == b@),
{
    let x = chars_of(a);
    let y = chars_of(b);
    if x.len() != y.len() {
        return false;
    }
    let mut i: usize = 0;
    while i < x.len()
        invariant
            x@ == a@,
            y@ == b@,
            x.len() == y.len(),
            0 <= i <= x.len(),
            forall|j: int| 0 <= j < i ==> x[j] == y[j],
        decreases x.len() - i,
    {
        if x[i] != y[i] {
            return false;
        }
        i = i + 1;
    }
    proof {
        assert(a@ =~= b@);
    }
    true
}

/// The number of UTF-8 bytes of `s`.
pub fn byte_count(s: &str) -> (n: usize)
    ensures
        n == byte_len(s@),
{
    s.as_bytes().len()
}

/// The bytes of two texts in a row are those of the first and those of the second.
pub proof fn lemma_byte_len_concat(a: Seq<char>, b: Seq<char>)
    ensures
        byte_len(a + b) == byte_len(a) + byte_len(b),
    decreases a.len(),
{
    if a.len() == 0 {
        assert(a + b =~= b);
    } else {
        lemma_byte_len_concat(a.drop_first(), b);
        assert((a + b).drop_first() =~= a.drop_first() + b);
    }
}

/// A number is written in one way only, with digits alone.
pub proof fn lemma_decimal_is_read_back(n: nat)
    ensures
        decimal(n).len() > 0,
        forall|i: int| 0 <= i < decimal(n).len() ==> is_digit(#[trigger] decimal(n)[i]),
        digits_value(decimal(n)) == Some(n),
    decreases n,
{
    if n < 10 {
        assert(decimal(n).drop_last() =~= Seq::<char>::empty());
        assert(digits_value(decimal(n).drop_last()) == Some(0nat));
    } else {
        lemma_decimal_is_read_back(n / 10);
        assert(decimal(n).drop_last() =~= decimal(n / 10));
    }
}

/// Whether a text ends in an underscore and a number.
pub open spec fn is_numbered(s: Seq<char>, n: nat) -> bool {
    ends_with(s, seq!['_'] + decimal(n))
}

/// A text ends in one number at most.
pub proof fn lemma_numbers_tell_texts_apart(a: Seq<char>, n: nat, b: Seq<char>, m: nat)
    requires
        is_numbered(a, n),
        is_numbered(b, m),
        n != m,
    ensures
        a != b,
{
    if a == b {
        lemma_decimal_is_read_back(n);
        lemma_decimal_is_read_back(m);
        let x = seq!['_'] + decimal(n);
        let y = seq!['_'] + decimal(m);
        let i = a.len() - x.len();
        let j = a.len() - y.len();
        assert(a.subrange(i, a.len() as int) == x);
        assert(a.subrange(j, a.len() as int) == y);
        assert(a[i] == x[0]);
        assert(a[j] == y[0]);
        if i < j {
            assert(a[j] == x[j - i]);
            assert(x[j - i] == decimal(n)[j - i - 1]);
        } else if j < i {
            assert(a[i] == y[i - j]);
            assert(y[i - j] == decimal(m)[i - j - 1]);
        } else {
            assert(decimal(n) =~= x.subrange(1, x.len() as int));
            assert(decimal(m) =~= y.subrange(1, y.len() as int));
        }
    }
}

proof fn lemma_trim_start_skip(s: Seq<char>, i: int)
    requires
        0 <= i <= s.len(),
        forall|j: int| 0 <= j < i ==> is_space(s[j]),
    ensures
        trim_start(s) == trim_start(s.subrange(i, s.len() as int)),
    decreases i,
{
    if i == 0 {
        assert(s.subrange(0, s.len() as int) =~= s);
    } else {
        lemma_trim_start_skip(s.drop_first(), i - 1);
        assert(s.drop_first().subrange(i - 1, s.len() - 1) =~= s.subrange(i, s.len() as int));
    }
}

proof fn lemma_trim_end_skip(s: Seq<char>, n: int)
    requires
        0 <= n <= s.len(),
        forall|j: int| n <= j < s.len() ==> is_space(s[j]),
    ensures
        trim_end(s) == trim_end(s.subrange(0, n)),
    decreases s.len() - n,
{
    if n == s.len() {
        assert(s.subrange(0, n) =~= s);
    } else {
        lemma_trim_end_skip(s.drop_last(), n);
        assert(s.drop_last().subrange(0, n) =~= s.subrange(0, n));
    }
}

/// `s` without its leading and trailing whitespace.
pub fn trim(s: &str) -> (r: &str)
    ensures
        r@ == trimmed(s@),
{
    let v = chars_of(s);
    let mut from: usize = 0;
    while from < v.len() && char_is_space(v[from])
        invariant
            v@ == s@,
            0 <= from <= v.len(),
            forall|j: int| 0 <= j < from ==> is_space(v[j]),
        decreases v.len() - from,
    {
        from = from + 1;
    }
    let mut to: usize = v.len();
    while to > from && char_is_space(v[to - 1])
        invariant
            v@ == s@,
            0 <= from <= to <= v.len(),
            forall|j: int| to <= j < v.len() ==> is_space(v[j]),
        decreases to,
    {
        to = to - 1;
    }
    proof {
        let rest = s@.subrange(from as int, s@.len() as int);
        lemma_trim_start_skip(s@, from as int);
        assert(trim_start(s@) == rest);
        lemma_trim_end_skip(rest, to - from);
        assert(rest.subrange(0, to - from) =~= s@.subrange(from as int, to as int));
    }
    s.substring_char(from, to)
}

/// The first `n` characters of `s`.
pub fn take_chars(s: &str, n: usize) -> (r: &str)
    ensures
        r@ == first_chars(s@, n as nat),
{
    let len: usize = s.unicode_len();
    if len <= n {
        s
    } else {
        s.substring_char(0, n)
    }
}

/// What follows `prefix` in `s`.
pub fn strip_prefix<'a>(s: &'a str, prefix: &str) -> (r: Option<&'a str>)
    ensures
        match (r, after_prefix(s@, prefix@)) {
            (Some(rest), Some(spec)) => rest@ == spec,
            (None, None) => true,
            _ => false,
        },
{
    let n: usize = prefix.unicode_len();
    let len: usize = s.unicode_len();
    if n > len {
        return None;
    }
    if same(s.substring_char(0, n), prefix) {
        Some(s.substring_char(n, len))
    } else {
        None
    }
}

pub fn has_prefix(s: &str, prefix: &str) -> (r: bool)
    ensures
        r == starts_with(s@, prefix@),
{
    strip_prefix(s, prefix).is_some()
}

pub fn has_suffix(s: &str, suffix: &str) -> (r: bool)
    ensures
        r == ends_with(s@, suffix@),
{
    let n: usize = suffix.unicode_len();
    let len: usize = s.unicode_len();
    n <= len && same(s.substring_char(len - n, len), suffix)
}

/// The characters of `a` followed by those of `b`.
pub fn join(a: &str, b: &str) -> (r: String)
    ensures
        r@ == a@ + b@,
{
    let mut out = a.to_owned();
    out.append(b);
    out
}

fn digit_text(d: u64) -> (r: &'static str)
    requires
        d < 10,
    ensures
        r@ == seq![digit_char(d as nat)],
{
    proof {
        reveal_strlit("0");
        reveal_strlit("1");
        reveal_strlit("2");
        reveal_strlit("3");
        reveal_strlit("4");
        reveal_strlit("5");
        reveal_strlit("6");
        reveal_strlit("7");
        reveal_strlit("8");
        reveal_strlit("9");
    }
    if d == 0 {
        "0"
    } else if d == 1 {
        "1"
    } else if d == 2 {
        "2"
    } else if d == 3 {
        "3"
    } else if d == 4 {
        "4"
    } else if d == 5 {
        "5"
    } else if d == 6 {
        "6"
    } else if d == 7 {
        "7"
    } else if d == 8 {
        "8"
    } else {
        "9"
    }
}

/// `n` in decimal digits.
pub fn decimal_text(n: u64) -> (r: String)
    ensures
        r@ == decimal(n as nat),
    decreases n,
{
    if n < 10 {
        digit_text(n).to_owned()
    } else {
        let mut out = decimal_text(n / 10);
        out.append(digit_text(n % 10));
        proof {
            assert(out@ =~= decimal(n as nat));
        }
        out
    }
}

proof fn lemma_digits_prefix(s: Seq<char>, i: int)
    requires
        0 <= i <= s.len(),
    ensures
        digits_value(s.subrange(0, i)) is None ==> digits_value(s) is None,
        match (digits_value(s.subrange(0, i)), digits_value(s)) {
            (Some(a), Some(b)) => a <= b,
            _ => true,
        },
    decreases s.len() - i,
{
    if i == s.len() {
        assert(s.subrange(0, i) =~= s);
    } else {
        lemma_digits_prefix(s, i + 1);
        assert(s.subrange(0, i + 1).drop_last() =~= s.subrange(0, i));
    }
}

/// The unsigned number that `s` writes in decimal.
pub fn parse_u64(s: &str) -> (r: Option<u64>)
    ensures
        r == parsed_u64(s@),
{
    let v = chars_of(s);
    let mut i: usize = 0;
    if v.len() > 0 && v[0] == '+' {
        i = 1;
    }
    let start: usize = i;
    let ghost digits = s@.subrange(start as int, s@.len() as int);
    proof {
        if start == 0 {
            assert(digits =~= s@);
        } else {
            assert(digits =~= s@.drop_first());
        }
        assert(digits.subrange(0, 0) =~= Seq::<char>::empty());
    }
    if i >= v.len() {
        return None;
    }
    let mut n: u64 = 0;
    while i < v.len()
        invariant
            v@ == s@,
            digits == s@.subrange(start as int, s@.len() as int),
            digits == (if s@.len() > 0 && s@[0] == '+' {
                s@.drop_first()
            } else {
                s@
            }),
            0 <= start <= i <= v.len(),
            start < v.len(),
            digits_value(digits.subrange(0, i - start)) == Some(n as nat),
        decreases v.len() - i,
    {
        let c: char = v[i];
        proof {
            assert(digits.subrange(0, i - start + 1).drop_last() =~= digits.subrange(
                0,
                i - start,
            ));
            assert(digits.subrange(0, i - start + 1).last() == c);
            lemma_digits_prefix(digits, i - start + 1);
        }
        if !('0' <= c && c <= '9') {
            return None;
        }
        let d: u64 = (c as u32 - '0' as u32) as u64;
        if n > 1844674407370955161 || (n == 1844674407370955161 && d > 5) {
            return None;
        }
        n = n * 10 + d;
        i = i + 1;
    }
    proof {
        assert(digits.subrange(0, v.len() - start) =~= digits);
    }
    Some(n)
}

/// The pieces of `s` between the occurrences of `sep`, empty ones included.
pub open spec fn split(s: Seq<char>, sep: char) -> Seq<Seq<char>>
    decreases s.len(),
{
    if s.len() == 0 {
        seq![Seq::<char>::empty()]
    } else {
        let before = split(s.drop_last(), sep);
        if s.last() == sep {
            before.push(Seq::<char>::empty())
        } else {
            before.update(before.len() - 1, before.last().push(s.last()))
        }
    }
}

pub proof fn lemma_split_nonempty(s: Seq<char>, sep: char)
    ensures
        split(s, sep).len() >= 1,
    decreases s.len(),
{
    if s.len() > 0 {
        lemma_split_nonempty(s.drop_last(), sep);
    }
}

/// No piece holds the separator, and every character of a piece is one of `s`.
pub proof fn lemma_split_pieces(s: Seq<char>, sep: char)
    ensures
        forall|i: int, j: int|
            0 <= i < split(s, sep).len() && 0 <= j < split(s, sep)[i].len()
                ==> #[trigger] split(s, sep)[i][j] != sep && s.contains(split(s, sep)[i][j]),
    decreases s.len(),
{
    if s.len() > 0 {
        let front = s.drop_last();
        let before = split(front, sep);
        lemma_split_nonempty(front, sep);
        lemma_split_pieces(front, sep);
        assert forall|i: int, j: int|
            0 <= i < split(s, sep).len() && 0 <= j < split(s, sep)[i].len() implies #[trigger] split(
            s,
            sep,
        )[i][j] != sep && s.contains(split(s, sep)[i][j]) by {
            let c = split(s, sep)[i][j];
            if i < before.len() && j < before[i].len() {
                assert(c == before[i][j]);
                let k = choose|k: int| 0 <= k < front.len() && front[k] == c;
                assert(s[k] == c);
            } else {
                assert(c == s[s.len() - 1]);
            }
        }
    }
}

/// Splitting goes piece by piece: a separator between two texts keeps their pieces apart.
pub proof fn lemma_split_concat(a: Seq<char>, b: Seq<char>, sep: char)
    ensures
        split(a.push(sep) + b, sep) == split(a, sep) + split(b, sep),
    decreases b.len(),
{
    lemma_split_nonempty(a, sep);
    if b.len() == 0 {
        assert(a.push(sep) + b =~= a.push(sep));
        assert(a.push(sep).drop_last() =~= a);
        assert(split(a.push(sep), sep) =~= split(a, sep) + split(b, sep));
    } else {
        let whole = a.push(sep) + b;
        lemma_split_concat(a, b.drop_last(), sep);
        lemma_split_nonempty(b.drop_last(), sep);
        assert(whole.drop_last() =~= a.push(sep) + b.drop_last());
        assert(whole.last() == b.last());
        assert(split(whole, sep) =~= split(a, sep) + split(b, sep));
    }
}

/// A text without the separator is its only piece.
pub proof fn lemma_split_single(s: Seq<char>, sep: char)
    requires
        forall|i: int| 0 <= i < s.len() ==> s[i] != sep,
    ensures
        split(s, sep) == seq![s],
    decreases s.len(),
{
    if s.len() == 0 {
        assert(s =~= Seq::<char>::empty());
    } else {
        lemma_split_single(s.drop_last(), sep);
        assert(s.drop_last().push(s.last()) =~= s);
        assert(split(s, sep) =~= seq![s]);
    }
}

/// The pieces of `s` between the occurrences of `sep`.
pub fn split_on(s: &str, sep: char) -> (r: Vec<String>)
    ensures
        r.len() == split(s@, sep).len(),
        forall|i: int| 0 <= i < r.len() ==> (#[trigger] r[i])@ == split(s@, sep)[i],
{
    let v = chars_of(s);
    let mut pieces: Vec<String> = Vec::new();
    let mut start: usize = 0;
    let mut i: usize = 0;
    proof {
        assert(s@.subrange(0, 0) =~= Seq::<char>::empty());
    }
    while i < v.len()
        invariant
            v@ == s@,
            0 <= start <= i <= v.len(),
            split(s@.subrange(0, i as int), sep).len() == pieces.len() + 1,
            forall|j: int|
                0 <= j < pieces.len() ==> (#[trigger] pieces[j])@ == split(
                    s@.subrange(0, i as int),
                    sep,
                )[j],
            split(s@.subrange(0, i as int), sep).last() == s@.subrange(start as int, i as int),
        decreases v.len() - i,
    {
        proof {
            assert(s@.subrange(0, i + 1).drop_last() =~= s@.subrange(0, i as int));
            assert(s@.subrange(0, i + 1).last() == v[i as int]);
        }
        if v[i] == sep {
            pieces.push(s.substring_char(start, i).to_owned());
            start = i + 1;
            proof {
                assert(s@.subrange(start as int, start as int) =~= Seq::<char>::empty());
            }
        } else {
            proof {
                assert(s@.subrange(start as int, i + 1) =~= s@.subrange(
                    start as int,
                    i as int,
                ).push(v[i as int]));
            }
        }
        i = i + 1;
    }
    proof {
        assert(s@.subrange(0, v.len() as int) =~= s@);
    }
    pieces.push(s.substring_char(start, v.len()).to_owned());
    pieces
}

/// Where `pattern` first occurs in `s`, at position `i` or later.
pub open spec fn find_from(s: Seq<char>, pattern: Seq<char>, i: int) -> Option<int>
    decreases s.len() + 1 - i,
{
    if i < 0 || i + pattern.len() > s.len() {
        None
    } else if s.subrange(i, i + pattern.len()) == pattern {
        Some(i)
    } else {
        find_from(s, pattern, i + 1)
    }
}

/// `s` with the first occurrence of `pattern` replaced.
pub open spec fn replace_first(s: Seq<char>, pattern: Seq<char>, by: Seq<char>) -> Seq<char> {
    match find_from(s, pattern, 0) {
        Some(i) => s.subrange(0, i) + by + s.subrange(i + pattern.len(), s.len() as int),
        None => s,
    }
}

fn matches_at(v: &Vec<char>, pattern: &Vec<char>, at: usize) -> (r: bool)
    requires
        at + pattern.len() <= v.len(),
    ensures
        r == (v@.subrange(at as int, at + pattern.len()) == pattern@),
{
    let mut j: usize = 0;
    while j < pattern.len()
        invariant
            at + pattern.len() <= v.len(),
            0 <= j <= pattern.len(),
            forall|k: int| 0 <= k < j ==> v[at + k] == pattern[k],
        decreases pattern.len() - j,
    {
        if v[at + j] != pattern[j] {
            proof {
                assert(v@.subrange(at as int, at + pattern.len())[j as int] != pattern@[j as int]);
            }
            return false;
        }
        j = j + 1;
    }
    proof {
        assert(v@.subrange(at as int, at + pattern.len()) =~= pattern@);
    }
    true
}

/// Where `pattern` first occurs in `s`.
pub fn find(s: &str, pattern: &str) -> (r: Option<usize>)
    ensures
        match find_from(s@, pattern@, 0) {
            Some(i) => r == Some(i as usize) && 0 <= i && i + pattern@.len() <= s@.len() <= usize::MAX,
            None => r is None,
        },
{
    let v = chars_of(s);
    let p = chars_of(pattern);
    if p.len() > v.len() {
        return None;
    }
    let last: usize = v.len() - p.len();
    let mut i: usize = 0;
    loop
        invariant
            v@ == s@,
            p@ == pattern@,
            last + p.len() == v.len(),
            0 <= i <= last,
            find_from(s@, pattern@, 0) == find_from(s@, pattern@, i as int),
        decreases last - i,
    {
        if matches_at(&v, &p, i) {
            return Some(i);
        }
        if i == last {
            proof {
                assert(find_from(s@, pattern@, i + 1) is None);
            }
            return None;
        }
        i = i + 1;
    }
}

/// `s` with the first occurrence of `pattern` replaced.
pub fn replacen_first(s: &str, pattern: &str, by: &str) -> (r: String)
    ensures
        r@ == replace_first(s@, pattern@, by@),
{
    match find(s, pattern) {
        Some(i) => {
            let n: usize = pattern.unicode_len();
            let len: usize = s.unicode_len();
            join(join(s.substring_char(0, i), by).as_str(), s.substring_char(i + n, len))
        },
        None => s.to_owned(),
    }
}

/// `n` in decimal digits, with a minus sign where it is negative.
pub open spec fn signed_decimal(n: int) -> Seq<char> {
    if n < 0 {
        "-"@ + decimal((-n) as nat)
    } else {
        decimal(n as nat)
    }
}

pub fn signed_decimal_text(n: i64) -> (r: String)
    ensures
        r@ == signed_decimal(n as int),
{
    if n >= 0 {
        decimal_text(n as u64)
    } else if n == i64::MIN {
        join("-", decimal_text(9223372036854775808).as_str())
    } else {
        join("-", decimal_text((-n) as u64).as_str())
    }
}

/// A text that is fixed or was given.
pub enum Text {
    Fixed(&'static str),
    Owned(String),
}

impl Text {
    pub open spec fn view(&self) -> Seq<char> {
        match self {
            Text::Fixed(text) => text@,
            Text::Owned(text) => text@,
        }
    }

    pub fn as_str(&self) -> (r: &str)
        ensures
            r@ == self@,
    {
        match self {
            Text::Fixed(text) => text,
            Text::Owned(text) => text.as_str(),
        }
    }
}

/// `String::push`: the character goes to the end of the text.
pub assume_specification[ std::string::String::push ](string: &mut String, ch: char)
    ensures
        final(string)@ == old(string)@.push(ch),
;

/// A character with an ASCII capital made small.
pub open spec fn lower_char(c: char) -> char {
    if 'A' <= c <= 'Z' {
        (c as u8 + 32) as char
    } else {
        c
    }
}

/// A text with its ASCII capitals made small.
pub open spec fn lowercase(s: Seq<char>) -> Seq<char> {
    s.map_values(|c: char| lower_char(c))
}

pub fn ascii_lowercase(s: &str) -> (r: String)
    ensures
        r@ == lowercase(s@),
{
    let chars = chars_of(s);
    let mut out = String::new();
    let mut i: usize = 0;
    proof {
        assert(lowercase(s@.subrange(0, 0)) =~= Seq::<char>::empty());
    }
    while i < chars.len()
        invariant
            chars@ == s@,
            0 <= i <= chars.len(),
            out@ == lowercase(s@.subrange(0, i as int)),
        decreases chars.len() - i,
    {
        let c: char = chars[i];
        if 'A' <= c && c <= 'Z' {
            out.push((c as u8 + 32) as char);
        } else {
            out.push(c);
        }
        proof {
            assert(out@ =~= lowercase(s@.subrange(0, i + 1)));
        }
        i = i + 1;
    }
    proof {
        assert(s@.subrange(0, s@.len() as int) =~= s@);
    }
    out
}

/// The parts in order, with a separator between them.
pub open spec fn joined_with(parts: Seq<String>, separator: Seq<char>) -> Seq<char>
    decreases parts.len(),
{
    if parts.len() == 0 {
        Seq::empty()
    } else if parts.len() == 1 {
        parts[0]@
    } else {
        joined_with(parts.drop_last(), separator) + separator + parts.last()@
    }
}

pub fn join_parts(parts: &Vec<String>, separator: &str) -> (r: String)
    ensures
        r@ == joined_with(parts@, separator@),
{
    if parts.len() == 0 {
        return String::new();
    }
    let mut out = parts[0].clone();
    let mut i: usize = 1;
    proof {
        assert(parts@.subrange(0, 1) =~= seq![parts@[0]]);
    }
    while i < parts.len()
        invariant
            1 <= i <= parts.len(),
            out@ == joined_with(parts@.subrange(0, i as int), separator@),
        decreases parts.len() - i,
    {
        proof {
            assert(parts@.subrange(0, i + 1).drop_last() =~= parts@.subrange(0, i as int));
        }
        out.append(separator);
        out.append(parts[i].as_str());
        i = i + 1;
    }
    proof {
        assert(parts@.subrange(0, parts@.len() as int) =~= parts@);
    }
    out
}

/// The texts of some strings, as a set.
pub open spec fn texts_of(items: Seq<String>) -> Set<Seq<char>>
    decreases items.len(),
{
    if items.len() == 0 {
        Set::empty()
    } else {
        texts_of(items.drop_last()).insert(items.last()@)
    }
}

pub fn text_set(items: &Vec<String>) -> (r: StringHashSet)
    ensures
        r@ == texts_of(items@),
{
    let mut found = StringHashSet::new();
    let mut i: usize = 0;
    proof {
        assert(items@.subrange(0, 0) =~= Seq::<String>::empty());
    }
    while i < items.len()
        invariant
            0 <= i <= items.len(),
            found@ == texts_of(items@.subrange(0, i as int)),
        decreases items.len() - i,
    {
        proof {
            assert(items@.subrange(0, i + 1).drop_last() =~= items@.subrange(0, i as int));
        }
        found.insert(items[i].clone());
        i = i + 1;
    }
    proof {
        assert(items@.subrange(0, items@.len() as int) =~= items@);
    }
    found
}

/// Trimming takes spaces off both ends and nothing else: what is left is a stretch of the text, what
/// is gone are spaces, and no space is left at an end.
pub proof fn law_trimming_takes_off_spaces_only(s: Seq<char>)
    ensures
        exists|a: int, b: int|
            0 <= a <= b <= s.len() && trimmed(s) == #[trigger] s.subrange(a, b) && (forall|i: int|
                0 <= i < a ==> is_space(#[trigger] s[i])) && (forall|i: int|
                b <= i < s.len() ==> is_space(#[trigger] s[i])),
        trimmed(s).len() > 0 ==> !is_space(trimmed(s)[0]) && !is_space(trimmed(s).last()),
{
    lemma_trim_start_is_a_tail(s);
    let t = trim_start(s);
    lemma_trim_end_is_a_head(t);
    let a = s.len() - t.len();
    let b = a + trim_end(t).len();
    assert(trimmed(s) =~= s.subrange(a, b));
    assert forall|i: int| b <= i < s.len() implies is_space(#[trigger] s[i]) by {
        assert(t[i - a] == s[i]);
    }
    if trim_end(t).len() > 0 {
        assert(trim_end(t)[0] == t[0]);
    }
}

proof fn lemma_trim_start_is_a_tail(s: Seq<char>)
    ensures
        trim_start(s).len() <= s.len(),
        trim_start(s) == s.subrange(s.len() - trim_start(s).len(), s.len() as int),
        forall|i: int| 0 <= i < s.len() - trim_start(s).len() ==> is_space(#[trigger] s[i]),
        trim_start(s).len() > 0 ==> !is_space(trim_start(s)[0]),
    decreases s.len(),
{
    if s.len() > 0 && is_space(s[0]) {
        let rest = s.drop_first();
        lemma_trim_start_is_a_tail(rest);
        let n = s.len() - trim_start(s).len();
        assert(s.subrange(n, s.len() as int) =~= rest.subrange(n - 1, rest.len() as int));
        assert forall|i: int| 0 <= i < n implies is_space(#[trigger] s[i]) by {
            if i > 0 {
                assert(rest[i - 1] == s[i]);
            }
        }
    } else {
        assert(s.subrange(0, s.len() as int) =~= s);
    }
}

proof fn lemma_trim_end_is_a_head(s: Seq<char>)
    ensures
        trim_end(s).len() <= s.len(),
        trim_end(s) == s.subrange(0, trim_end(s).len() as int),
        forall|i: int| trim_end(s).len() <= i < s.len() ==> is_space(#[trigger] s[i]),
        trim_end(s).len() > 0 ==> !is_space(trim_end(s).last()),
    decreases s.len(),
{
    if s.len() > 0 && is_space(s.last()) {
        let front = s.drop_last();
        lemma_trim_end_is_a_head(front);
        assert(s.subrange(0, trim_end(s).len() as int) =~= front.subrange(
            0,
            trim_end(s).len() as int,
        ));
        assert forall|i: int| trim_end(s).len() <= i < s.len() implies is_space(#[trigger] s[i]) by {
            if i < front.len() {
                assert(front[i] == s[i]);
            }
        }
    } else {
        assert(s.subrange(0, s.len() as int) =~= s);
    }
}

/// A blank, a tab and the ends of lines are spaces; visible ASCII characters are not. The first 32
/// characters are controls, a visible one is none.
pub proof fn law_spaces_and_controls_are_told_from_letters(c: char)
    ensures
        is_space(' ') && is_space('\t') && is_space('\n') && is_space('\r'),
        '!' <= c <= '~' ==> !is_space(c) && !is_control(c),
        c as u32 <= 0x1f ==> is_control(c),
        !is_control(' '),
        is_alphanumeric(c) <==> '0' <= c <= '9' || 'a' <= c <= 'z' || 'A' <= c <= 'Z',
{
}

/// The first characters are the front of the text, all of it where it is short enough.
pub proof fn law_cutting_keeps_the_front(s: Seq<char>, n: nat)
    ensures
        first_chars(s, n).len() == if s.len() < n {
            s.len()
        } else {
            n
        },
        forall|i: int| 0 <= i < first_chars(s, n).len() ==> #[trigger] first_chars(s, n)[i] == s[i],
{
}

/// A text starts with its prefix and ends with its suffix, and taking the prefix off leaves the rest.
pub proof fn law_prefixes_and_suffixes(a: Seq<char>, b: Seq<char>)
    ensures
        starts_with(a + b, a),
        ends_with(a + b, b),
        after_prefix(a + b, a) == Some(b),
        starts_with(a, b) ==> b + after_prefix(a, b)->0 == a,
        ends_with(a, b) ==> a == a.subrange(0, a.len() - b.len()) + b,
        after_prefix(a, b) is Some <==> starts_with(a, b),
{
    assert((a + b).subrange(0, a.len() as int) =~= a);
    assert((a + b).subrange(a.len() as int, (a + b).len() as int) =~= b);
    if starts_with(a, b) {
        assert(b + a.subrange(b.len() as int, a.len() as int) =~= a);
    }
    if ends_with(a, b) {
        assert(a =~= a.subrange(0, a.len() - b.len()) + b);
    }
}

/// A number is read back from its digits, with or without a plus sign, and no other text is read as
/// a number.
pub proof fn law_numbers_are_read_back(n: u64, s: Seq<char>)
    ensures
        parsed_u64(decimal(n as nat)) == Some(n),
        parsed_u64(seq!['+'] + decimal(n as nat)) == Some(n),
        parsed_u64(s) is Some ==> s.len() > 0 && forall|i: int|
            0 < i < s.len() ==> is_digit(#[trigger] s[i]),
        parsed_u64(s) is Some ==> s[0] == '+' || is_digit(s[0]),
        parsed_u64(Seq::<char>::empty()) is None,
{
    lemma_decimal_is_read_back(n as nat);
    assert(is_digit(decimal(n as nat)[0]));
    assert((seq!['+'] + decimal(n as nat)).drop_first() =~= decimal(n as nat));
    if parsed_u64(s) is Some {
        let digits = if s.len() > 0 && s[0] == '+' {
            s.drop_first()
        } else {
            s
        };
        lemma_read_digits_are_digits(digits);
        assert forall|i: int| 0 < i < s.len() implies is_digit(#[trigger] s[i]) by {
            if s[0] == '+' {
                assert(digits[i - 1] == s[i]);
            }
        }
    }
}

proof fn lemma_read_digits_are_digits(s: Seq<char>)
    requires
        digits_value(s) is Some,
    ensures
        forall|i: int| 0 <= i < s.len() ==> is_digit(#[trigger] s[i]),
    decreases s.len(),
{
    if s.len() > 0 {
        lemma_read_digits_are_digits(s.drop_last());
        assert forall|i: int| 0 <= i < s.len() implies is_digit(#[trigger] s[i]) by {
            if i < s.len() - 1 {
                assert(s.drop_last()[i] == s[i]);
            }
        }
    }
}

/// The value of digits is that of their decimal number: one more digit makes it ten times as much and
/// adds the digit.
pub proof fn law_digits_are_decimal(s: Seq<char>, d: nat)
    requires
        digits_value(s) is Some,
        d < 10,
    ensures
        digits_value(s.push((48 + d) as char)) == Some((digits_value(s)->0 * 10 + d) as nat),
        d == 0 ==> decimal(d) == seq!['0'],
        d == 7 ==> decimal(d) == seq!['7'],
        signed_decimal(-(d as int) - 1) == seq!['-'] + decimal(d + 1),
{
    reveal_strlit("-");
    assert(s.push((48 + d) as char).drop_last() =~= s);
    assert("-"@ =~= seq!['-']);
    assert('0' as nat == 48);
}

/// A pattern is found where it first occurs: it stands there, and nowhere before.
pub proof fn law_patterns_are_found_where_they_first_occur(
    s: Seq<char>,
    pattern: Seq<char>,
    from: int,
)
    requires
        0 <= from,
    ensures
        match find_from(s, pattern, from) {
            Some(i) => {
                &&& from <= i && i + pattern.len() <= s.len()
                &&& s.subrange(i, i + pattern.len()) == pattern
                &&& forall|j: int|
                    from <= j < i ==> #[trigger] s.subrange(j, j + pattern.len()) != pattern
            },
            None => forall|j: int|
                from <= j && j + pattern.len() <= s.len() ==> #[trigger] s.subrange(
                    j,
                    j + pattern.len(),
                ) != pattern,
        },
    decreases s.len() + 1 - from,
{
    if from + pattern.len() <= s.len() && s.subrange(from, from + pattern.len()) != pattern {
        law_patterns_are_found_where_they_first_occur(s, pattern, from + 1);
    }
}

/// Replacing puts the new text in the place of the first occurrence, and leaves everything else.
pub proof fn law_replacing_changes_the_first_occurrence_only(
    s: Seq<char>,
    pattern: Seq<char>,
    by: Seq<char>,
)
    ensures
        match find_from(s, pattern, 0) {
            Some(i) => replace_first(s, pattern, by) == s.subrange(0, i) + by + s.subrange(
                i + pattern.len(),
                s.len() as int,
            ),
            None => replace_first(s, pattern, by) == s,
        },
{
}

/// Making capitals small changes the letters from A to Z and nothing else.
pub proof fn law_lowercase_changes_capitals_only(s: Seq<char>, i: int)
    requires
        0 <= i < s.len(),
    ensures
        lowercase(s).len() == s.len(),
        'A' <= s[i] <= 'Z' ==> lowercase(s)[i] as u32 == s[i] as u32 + 32,
        !('A' <= s[i] <= 'Z') ==> lowercase(s)[i] == s[i],
        !('A' <= lowercase(s)[i] <= 'Z'),
{
}

/// Parts are joined in order, with the separator between two of them and nowhere else.
pub proof fn law_parts_are_joined_in_order(parts: Seq<String>, last: String, separator: Seq<char>)
    ensures
        joined_with(Seq::<String>::empty(), separator) == Seq::<char>::empty(),
        joined_with(seq![last], separator) == last@,
        parts.len() > 0 ==> joined_with(parts.push(last), separator) == joined_with(
            parts,
            separator,
        ) + separator + last@,
{
    assert(parts.push(last).drop_last() =~= parts);
}

/// A set of texts holds those that were listed.
pub proof fn law_sets_hold_the_listed_texts(items: Seq<String>, text: Seq<char>)
    ensures
        texts_of(items).contains(text) <==> exists|i: int|
            0 <= i < items.len() && (#[trigger] items[i])@ == text,
    decreases items.len(),
{
    if items.len() > 0 {
        let front = items.drop_last();
        law_sets_hold_the_listed_texts(front, text);
        assert(items.last() == items[items.len() - 1]);
        if texts_of(front).contains(text) {
            let i = choose|i: int| 0 <= i < front.len() && (#[trigger] front[i])@ == text;
            assert(items[i]@ == text);
        }
        if exists|i: int| 0 <= i < items.len() && (#[trigger] items[i])@ == text {
            let i = choose|i: int| 0 <= i < items.len() && (#[trigger] items[i])@ == text;
            if i < front.len() {
                assert(front[i]@ == text);
            }
        }
    }
}

/// Splitting cuts at every separator: a text without one is its only piece, no piece holds one, and
/// the pieces of two texts with a separator between them are those of the first and of the second.
pub proof fn law_splitting_cuts_at_every_separator(a: Seq<char>, b: Seq<char>, sep: char)
    ensures
        split(a.push(sep) + b, sep) == split(a, sep) + split(b, sep),
        (forall|i: int| 0 <= i < a.len() ==> a[i] != sep) ==> split(a, sep) == seq![a],
        forall|i: int, j: int|
            0 <= i < split(a, sep).len() && 0 <= j < split(a, sep)[i].len()
                ==> #[trigger] split(a, sep)[i][j] != sep,
{
    lemma_split_concat(a, b, sep);
    lemma_split_pieces(a, sep);
    if forall|i: int| 0 <= i < a.len() ==> a[i] != sep {
        lemma_split_single(a, sep);
    }
}

/// These characters are spaces, and no others.
pub proof fn law_spaces_are_these_characters(c: char)
    ensures
        is_space(c) <==> ({
            let n = c as u32 as int;
            ||| 8 < n < 14
            ||| c == ' '
            ||| c == '\u{85}'
            ||| c == '\u{a0}'
            ||| c == '\u{1680}'
            ||| '\u{2000}' <= c <= '\u{200a}'
            ||| c == '\u{2028}' || c == '\u{2029}'
            ||| c == '\u{202f}'
            ||| c == '\u{205f}'
            ||| c == '\u{3000}'
        }),
{
}

/// A number below zero is written with a minus before its amount, and every other as it is.
pub proof fn law_negative_numbers_have_a_minus(n: nat)
    ensures
        signed_decimal(n as int) == decimal(n),
        n > 0 ==> signed_decimal(-(n as int)) == "-"@ + decimal(n),
{
}

} // verus!
