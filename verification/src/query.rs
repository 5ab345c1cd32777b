//! The query string of the callback address, read the way a browser's
//! `URLSearchParams` reads it: pairs separated by `&`, name and value
//! separated by the first `=`, `+` for a space and `%XX` for a byte.

use vstd::prelude::*;
use vstd::utf8::decode_utf8;
use vstd::utf8::encode_utf8;
use vstd::utf8::encode_utf8_decode_utf8;
use vstd::utf8::encode_utf8_valid_utf8;
use vstd::utf8::is_ascii_chars;
use vstd::utf8::is_ascii_chars_encode_utf8;
use vstd::utf8::valid_utf8;

verus! {

pub const AMPERSAND: u8 = 0x26;

pub const EQUALS: u8 = 0x3d;

pub const PERCENT: u8 = 0x25;

pub const PLUS: u8 = 0x2b;

pub const SPACE: u8 = 0x20;

pub const QUESTION_MARK: u8 = 0x3f;

/// The number that an ASCII hexadecimal digit stands for.
pub open spec fn hex_digit(b: u8) -> Option<u8> {
    if 0x30 <= b <= 0x39 {
        Some((b - 0x30) as u8)
    } else if 0x41 <= b <= 0x46 {
        Some((b - 0x41 + 10) as u8)
    } else if 0x61 <= b <= 0x66 {
        Some((b - 0x61 + 10) as u8)
    } else {
        None
    }
}

/// Whether `raw` starts with a percent sign and two hexadecimal digits.
pub open spec fn starts_with_escape(raw: Seq<u8>) -> bool {
    &&& raw.len() >= 3
    &&& raw[0] == PERCENT
    &&& hex_digit(raw[1]) is Some
    &&& hex_digit(raw[2]) is Some
}

/// The bytes that a raw name or value stands for. A percent sign that no two
/// hexadecimal digits follow stands for itself.
pub open spec fn percent_decode(raw: Seq<u8>) -> Seq<u8>
    decreases raw.len(),
{
    if raw.len() == 0 {
        Seq::empty()
    } else if starts_with_escape(raw) {
        seq![(16 * hex_digit(raw[1]).unwrap() + hex_digit(raw[2]).unwrap()) as u8]
            + percent_decode(raw.skip(3))
    } else if raw[0] == PLUS {
        seq![SPACE] + percent_decode(raw.skip(1))
    } else {
        seq![raw[0]] + percent_decode(raw.skip(1))
    }
}

/// Where `sep` first occurs in `s`; the length of `s` if it does not occur.
pub open spec fn position(s: Seq<u8>, sep: u8) -> nat
    decreases s.len(),
{
    if s.len() == 0 || s[0] == sep {
        0
    } else {
        1 + position(s.skip(1), sep)
    }
}

/// The raw name of a pair: what stands before its first `=`.
pub open spec fn raw_name(pair: Seq<u8>) -> Seq<u8> {
    pair.take(position(pair, EQUALS) as int)
}

/// The raw value of a pair: what stands behind its first `=`, and nothing if
/// it has none.
pub open spec fn raw_value(pair: Seq<u8>) -> Seq<u8> {
    if position(pair, EQUALS) < pair.len() {
        pair.skip(position(pair, EQUALS) as int + 1)
    } else {
        Seq::empty()
    }
}

/// The decoded value of the first pair of `query` whose decoded name is
/// `name`. Empty pairs, as in `a=1&&b=2`, are passed over.
pub open spec fn lookup(query: Seq<u8>, name: Seq<u8>) -> Option<Seq<u8>>
    decreases query.len(),
{
    let end = position(query, AMPERSAND) as int;
    let pair = query.take(end);
    if pair.len() > 0 && percent_decode(raw_name(pair)) == name {
        Some(percent_decode(raw_value(pair)))
    } else if end < query.len() {
        lookup(query.skip(end + 1), name)
    } else {
        None
    }
}

/// The query without the question mark that may lead it.
pub open spec fn without_question_mark(search: Seq<u8>) -> Seq<u8> {
    if search.len() > 0 && search[0] == QUESTION_MARK {
        search.skip(1)
    } else {
        search
    }
}

/// The text that `String::from_utf8_lossy` makes of `bytes`.
pub uninterp spec fn lossy_text(bytes: Seq<u8>) -> Seq<char>;

/// The text of a decoded value: the text that the bytes encode where they
/// are UTF-8, and what `String::from_utf8_lossy` makes of them where not.
pub open spec fn text_of_bytes(bytes: Seq<u8>) -> Seq<char> {
    if valid_utf8(bytes) {
        decode_utf8(bytes)
    } else {
        lossy_text(bytes)
    }
}

/// The value of parameter `name` in the query string `search`, as text.
pub open spec fn param_of(search: Seq<char>, name: Seq<char>) -> Option<Seq<char>> {
    match lookup(without_question_mark(encode_utf8(search)), encode_utf8(name)) {
        Some(value) => Some(text_of_bytes(value)),
        None => None,
    }
}

/// A character that stands for itself in a query string: an ASCII letter or
/// digit, or one of `-`, `.`, `_` and `~`.
pub open spec fn is_unreserved(c: char) -> bool {
    ||| 'a' <= c <= 'z'
    ||| 'A' <= c <= 'Z'
    ||| '0' <= c <= '9'
    ||| c == '-'
    ||| c == '.'
    ||| c == '_'
    ||| c == '~'
}

/// A text of characters that stand for themselves.
pub open spec fn is_plain(s: Seq<char>) -> bool {
    forall|i: int| 0 <= i < s.len() ==> is_unreserved(#[trigger] s[i])
}

/// A byte that neither separates nor escapes.
pub open spec fn is_plain_byte(b: u8) -> bool {
    b != AMPERSAND && b != EQUALS && b != PERCENT && b != PLUS
}

/// Bytes that neither separate nor escape.
pub open spec fn are_plain_bytes(s: Seq<u8>) -> bool {
    forall|i: int| 0 <= i < s.len() ==> is_plain_byte(#[trigger] s[i])
}

/// The query string `?n1=v1&n2=v2`.
pub open spec fn two_pairs(n1: Seq<char>, v1: Seq<char>, n2: Seq<char>, v2: Seq<char>) -> Seq<
    char,
> {
    seq!['?'] + n1 + seq!['='] + v1 + seq!['&'] + n2 + seq!['='] + v2
}

/// `position` is the one index before which `sep` does not occur and at which
/// it does, or the sequence ends.
pub proof fn lemma_position(s: Seq<u8>, sep: u8, k: int)
    requires
        0 <= k <= s.len(),
        forall|j: int| 0 <= j < k ==> s[j] != sep,
        k == s.len() || s[k] == sep,
    ensures
        position(s, sep) == k,
    decreases s.len(),
{
    if k > 0 {
        let tail = s.skip(1);
        assert forall|j: int| 0 <= j < k - 1 implies tail[j] != sep by {
            assert(tail[j] == s[j + 1]);
        }
        lemma_position(tail, sep, k - 1);
    }
}

/// Plain bytes stand for themselves.
pub proof fn lemma_decode_plain(raw: Seq<u8>)
    requires
        are_plain_bytes(raw),
    ensures
        percent_decode(raw) == raw,
    decreases raw.len(),
{
    if raw.len() > 0 {
        let tail = raw.skip(1);
        assert forall|i: int| 0 <= i < tail.len() implies is_plain_byte(#[trigger] tail[i]) by {
            assert(tail[i] == raw[i + 1]);
        }
        lemma_decode_plain(tail);
        assert(is_plain_byte(raw[0]));
        assert(seq![raw[0]] + tail =~= raw);
    }
}

/// A query of one pair with plain name and value holds that value under
/// that name and nothing under any other.
pub proof fn lemma_lookup_one_pair(n: Seq<u8>, v: Seq<u8>, name: Seq<u8>)
    requires
        are_plain_bytes(n),
        are_plain_bytes(v),
    ensures
        lookup(n + seq![EQUALS] + v, name) == (if name == n {
            Some(v)
        } else {
            None
        }),
{
    let query = n + seq![EQUALS] + v;
    assert forall|j: int| 0 <= j < query.len() implies query[j] != AMPERSAND by {
        if j < n.len() {
            assert(is_plain_byte(n[j]));
        } else if j > n.len() {
            assert(is_plain_byte(v[j - n.len() - 1]));
        }
    }
    lemma_position(query, AMPERSAND, query.len() as int);
    let pair = query.take(query.len() as int);
    assert(pair =~= query);
    assert forall|j: int| 0 <= j < n.len() implies pair[j] != EQUALS by {
        assert(is_plain_byte(n[j]));
    }
    lemma_position(pair, EQUALS, n.len() as int);
    assert(raw_name(pair) =~= n);
    assert(raw_value(pair) =~= v);
    lemma_decode_plain(n);
    lemma_decode_plain(v);
}

/// A query of two pairs with plain names and values holds the first value
/// under the first name, the second value under the second name if that is
/// another name, and nothing under any other name.
pub proof fn lemma_lookup_two_pairs(
    n1: Seq<u8>,
    v1: Seq<u8>,
    n2: Seq<u8>,
    v2: Seq<u8>,
    name: Seq<u8>,
)
    requires
        are_plain_bytes(n1),
        are_plain_bytes(v1),
        are_plain_bytes(n2),
        are_plain_bytes(v2),
    ensures
        lookup(n1 + seq![EQUALS] + v1 + seq![AMPERSAND] + n2 + seq![EQUALS] + v2, name) == (if name
            == n1 {
            Some(v1)
        } else if name == n2 {
            Some(v2)
        } else {
            None
        }),
{
    let first = n1 + seq![EQUALS] + v1;
    let second = n2 + seq![EQUALS] + v2;
    let query = n1 + seq![EQUALS] + v1 + seq![AMPERSAND] + n2 + seq![EQUALS] + v2;
    assert(query =~= first + seq![AMPERSAND] + second);
    let k = first.len() as int;
    assert forall|j: int| 0 <= j < k implies query[j] != AMPERSAND by {
        if j < n1.len() {
            assert(is_plain_byte(n1[j]));
        } else if j > n1.len() {
            assert(is_plain_byte(v1[j - n1.len() - 1]));
        }
    }
    lemma_position(query, AMPERSAND, k);
    let pair = query.take(k);
    assert(pair =~= first);
    assert forall|j: int| 0 <= j < n1.len() implies pair[j] != EQUALS by {
        assert(is_plain_byte(n1[j]));
    }
    lemma_position(pair, EQUALS, n1.len() as int);
    assert(raw_name(pair) =~= n1);
    assert(raw_value(pair) =~= v1);
    lemma_decode_plain(n1);
    lemma_decode_plain(v1);
    assert(query.skip(k + 1) =~= second);
    lemma_lookup_one_pair(n2, v2, name);
}

/// The bytes of a plain text are plain, one for each character.
pub proof fn lemma_plain_text_has_plain_bytes(s: Seq<char>)
    requires
        is_plain(s),
    ensures
        is_ascii_chars(s),
        encode_utf8(s).len() == s.len(),
        are_plain_bytes(encode_utf8(s)),
        forall|i: int| 0 <= i < s.len() ==> encode_utf8(s)[i] == (#[trigger] s[i]) as u8,
{
    assert forall|i: int| 0 <= i < s.len() implies '\0' <= #[trigger] s[i] <= '\u{7f}' by {
        assert(is_unreserved(s[i]));
    }
    is_ascii_chars_encode_utf8(s);
    assert forall|i: int| 0 <= i < encode_utf8(s).len() implies is_plain_byte(
        #[trigger] encode_utf8(s)[i],
    ) by {
        assert(is_unreserved(s[i]));
        assert(encode_utf8(s)[i] == s[i] as u8);
    }
}

/// In the query string `?n1=v1&n2=v2` with plain names and values, the
/// first name has the first value, a second name that is another one has the
/// second value, and no other name has any.
pub proof fn lemma_two_plain_pairs(
    n1: Seq<char>,
    v1: Seq<char>,
    n2: Seq<char>,
    v2: Seq<char>,
    name: Seq<char>,
)
    requires
        is_plain(n1),
        is_plain(v1),
        is_plain(n2),
        is_plain(v2),
    ensures
        param_of(two_pairs(n1, v1, n2, v2), name) == (if name == n1 {
            Some(v1)
        } else if name == n2 {
            Some(v2)
        } else {
            None
        }),
{
    let search = two_pairs(n1, v1, n2, v2);
    lemma_plain_text_has_plain_bytes(n1);
    lemma_plain_text_has_plain_bytes(v1);
    lemma_plain_text_has_plain_bytes(n2);
    lemma_plain_text_has_plain_bytes(v2);
    assert(is_ascii_chars(search));
    is_ascii_chars_encode_utf8(search);
    let bytes = encode_utf8(search);
    let (b1, w1, b2, w2) = (encode_utf8(n1), encode_utf8(v1), encode_utf8(n2), encode_utf8(v2));
    let query = b1 + seq![EQUALS] + w1 + seq![AMPERSAND] + b2 + seq![EQUALS] + w2;
    assert(bytes.len() == query.len() + 1);
    assert(bytes[0] == search[0] as u8);
    assert forall|i: int| 0 <= i < query.len() implies bytes[i + 1] == query[i] by {
        assert(bytes[i + 1] == search[i + 1] as u8);
    }
    assert(without_question_mark(bytes) =~= query);
    lemma_lookup_two_pairs(b1, w1, b2, w2, encode_utf8(name));
    encode_utf8_decode_utf8(n1);
    encode_utf8_decode_utf8(n2);
    encode_utf8_decode_utf8(name);
    encode_utf8_decode_utf8(v1);
    encode_utf8_decode_utf8(v2);
    encode_utf8_valid_utf8(v1);
    encode_utf8_valid_utf8(v2);
}

fn hex_digit_value(b: u8) -> (v: Option<u8>)
    ensures
        v == hex_digit(b),
{
    if 0x30 <= b && b <= 0x39 {
        Some(b - 0x30)
    } else if 0x41 <= b && b <= 0x46 {
        Some(b - 0x41 + 10)
    } else if 0x61 <= b && b <= 0x66 {
        Some(b - 0x61 + 10)
    } else {
        None
    }
}

/// The first index in `from..to` at which `s` holds `sep`, or `to`.
fn find_byte(s: &[u8], from: usize, to: usize, sep: u8) -> (at: usize)
    requires
        from <= to <= s@.len(),
    ensures
        from <= at <= to,
        at - from == position(s@.subrange(from as int, to as int), sep),
{
    let mut i: usize = from;
    while i < to && s[i] != sep
        invariant
            from <= i <= to <= s@.len(),
            forall|j: int| from <= j < i ==> s@[j] != sep,
        decreases to - i,
    {
        i += 1;
    }
    proof {
        lemma_position(s@.subrange(from as int, to as int), sep, i - from);
    }
    i
}

/// Decodes the raw bytes `s[from..to]`.
fn decode_range(s: &[u8], from: usize, to: usize) -> (out: Vec<u8>)
    requires
        from <= to <= s@.len(),
    ensures
        out@ == percent_decode(s@.subrange(from as int, to as int)),
{
    let mut out: Vec<u8> = Vec::new();
    let mut i: usize = from;
    while i < to
        invariant
            from <= i <= to <= s@.len(),
            percent_decode(s@.subrange(from as int, to as int)) == out@ + percent_decode(
                s@.subrange(i as int, to as int),
            ),
        decreases to - i,
    {
        let ghost rest = s@.subrange(i as int, to as int);
        let b: u8 = s[i];
        let mut escaped: Option<u8> = None;
        if b == PERCENT && to - i >= 3 {
            match (hex_digit_value(s[i + 1]), hex_digit_value(s[i + 2])) {
                (Some(high), Some(low)) => {
                    escaped = Some(16 * high + low);
                },
                _ => {},
            }
        }
        assert(escaped is Some <==> starts_with_escape(rest));
        match escaped {
            Some(byte) => {
                out.push(byte);
                i += 3;
                assert(rest.skip(3) == s@.subrange(i as int, to as int));
            },
            None => {
                out.push(if b == PLUS { SPACE } else { b });
                i += 1;
                assert(rest.skip(1) == s@.subrange(i as int, to as int));
            },
        }
    }
    out
}

fn same_bytes(a: &Vec<u8>, b: &[u8]) -> (same: bool)
    ensures
        same == (a@ == b@),
{
    if a.len() != b.len() {
        return false;
    }
    let mut i: usize = 0;
    while i < a.len()
        invariant
            i <= a@.len(),
            a@.len() == b@.len(),
            forall|j: int| 0 <= j < i ==> a@[j] == b@[j],
        decreases a@.len() - i,
    {
        if a[i] != b[i] {
            return false;
        }
        i += 1;
    }
    assert(a@ =~= b@);
    true
}

/// The decoded value of the first pair in `query[from..]` named `name`.
fn lookup_from(query: &[u8], from: usize, name: &[u8]) -> (found: Option<Vec<u8>>)
    requires
        from <= query@.len(),
    ensures
        found is Some <==> lookup(query@.skip(from as int), name@) is Some,
        found matches Some(value) ==> lookup(query@.skip(from as int), name@) == Some(value@),
{
    let len: usize = query.len();
    let mut start: usize = from;
    loop
        invariant
            from <= start <= len == query@.len(),
            lookup(query@.skip(from as int), name@) == lookup(query@.skip(start as int), name@),
        decreases len - start,
    {
        let ghost rest = query@.skip(start as int);
        assert(rest == query@.subrange(start as int, len as int));
        let end: usize = find_byte(query, start, len, AMPERSAND);
        let ghost pair = rest.take(end - start);
        assert(pair == query@.subrange(start as int, end as int));
        if end > start {
            let eq: usize = find_byte(query, start, end, EQUALS);
            assert(raw_name(pair) == query@.subrange(start as int, eq as int));
            let pair_name: Vec<u8> = decode_range(query, start, eq);
            if same_bytes(&pair_name, name) {
                let value: Vec<u8> = if eq < end {
                    assert(raw_value(pair) == query@.subrange(eq + 1, end as int));
                    decode_range(query, eq + 1, end)
                } else {
                    assert(raw_value(pair) == query@.subrange(end as int, end as int));
                    decode_range(query, end, end)
                };
                return Some(value);
            }
        }
        if end >= len {
            return None;
        }
        assert(rest.skip(end - start + 1) == query@.skip(end + 1));
        start = end + 1;
    }
}

/// `String::from_utf8_lossy` of std: the text of `bytes`, with U+FFFD in
/// place of whatever is not UTF-8. Of well-formed UTF-8 it is the text that
/// the bytes encode.
#[verifier::external_body]
fn text_of(bytes: &[u8]) -> (text: String)
    ensures
        text@ == lossy_text(bytes@),
        valid_utf8(bytes@) ==> text@ == decode_utf8(bytes@),
{
    String::from_utf8_lossy(bytes).into_owned()
}

/// The value of parameter `name` in the query string `search`, which may
/// start with a question mark. Of several parameters of that name the first
/// counts. `None` means that there is none.
pub fn query_param(search: &str, name: &str) -> (value: Option<String>)
    ensures
        value is Some <==> param_of(search@, name@) is Some,
        value matches Some(text) ==> param_of(search@, name@) == Some(text@),
{
    let bytes: &[u8] = search.as_bytes();
    let from: usize = if bytes.len() > 0 && bytes[0] == QUESTION_MARK {
        1
    } else {
        0
    };
    assert(bytes@.skip(from as int) == without_question_mark(bytes@));
    match lookup_from(bytes, from, name.as_bytes()) {
        Some(value) => Some(text_of(value.as_slice())),
        None => None,
    }
}

} // verus!
