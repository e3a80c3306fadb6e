//! HTTP header sets as the `http` crate holds them, and a mathematical model of
//! them.
//!
//! A header set is modelled as a map from each lower-case header name to the
//! values that it carries, in the order in which the set yields them. Names are
//! modelled by their text and values by their octets.

use vstd::prelude::*;
use vstd::string::StringSliceAdditionalSpecFns;

verus! {

#[verifier::external_type_specification]
#[verifier::external_body]
#[verifier::reject_recursive_types(T)]
pub struct ExHeaderMap<T>(http::HeaderMap<T>);

#[verifier::external_type_specification]
#[verifier::external_body]
pub struct ExHeaderName(http::HeaderName);

#[verifier::external_type_specification]
#[verifier::external_body]
pub struct ExHeaderValue(http::HeaderValue);

#[verifier::external_type_specification]
#[verifier::external_body]
pub struct ExMethod(http::Method);

/// A set of headers.
pub type Headers = http::HeaderMap<http::HeaderValue>;

/// A header as a header set hands it out: its name and one of its values.
pub type Header = (http::HeaderName, http::HeaderValue);

/// The values of each header of a set, by name.
pub type Fields = Map<Seq<char>, Seq<Seq<u8>>>;

/// The text of a header name.
pub uninterp spec fn name_text(n: http::HeaderName) -> Seq<char>;

/// The octets of a header value.
pub uninterp spec fn value_bytes(v: http::HeaderValue) -> Seq<u8>;

/// The headers that `m` holds: for each name, its values in their order.
pub uninterp spec fn fields_of(m: http::HeaderMap<http::HeaderValue>) -> Map<Seq<char>, Seq<Seq<u8>>>;

/// How many headers `m` holds, a name counted once for each of its values.
pub uninterp spec fn header_count(m: http::HeaderMap<http::HeaderValue>) -> nat;

/// A header set that holds fewer headers than this takes one more.
pub const HEADER_ROOM: usize = 6554;

/// The token that `m` was made from.
pub uninterp spec fn method_token(m: http::Method) -> Seq<u8>;

/// A character of an HTTP token.
pub open spec fn is_token_byte(b: u8) -> bool {
    ||| 0x30 <= b <= 0x39
    ||| 0x41 <= b <= 0x5a
    ||| 0x61 <= b <= 0x7a
    ||| b == 0x21
    ||| 0x23 <= b <= 0x27
    ||| b == 0x2a
    ||| b == 0x2b
    ||| b == 0x2d
    ||| b == 0x2e
    ||| 0x5e <= b <= 0x60
    ||| b == 0x7c
    ||| b == 0x7e
}

/// A non-empty run of token characters.
pub open spec fn is_token(bytes: Seq<u8>) -> bool {
    &&& bytes.len() >= 1
    &&& forall|i: int| 0 <= i < bytes.len() ==> is_token_byte(#[trigger] bytes[i])
}

/// The lower-case form of an ASCII letter; any other octet as it is.
pub open spec fn lower_byte(b: u8) -> u8 {
    if 0x41 <= b <= 0x5a {
        (b + 0x20) as u8
    } else {
        b
    }
}

/// The header name that `bytes` spell: their lower-case form, where they are a
/// token of at most 65535 octets.
pub open spec fn canonical_name(bytes: Seq<u8>) -> Option<Seq<char>> {
    if is_token(bytes) && bytes.len() <= 65535 {
        Some(Seq::new(bytes.len(), |i: int| lower_byte(bytes[i]) as char))
    } else {
        None
    }
}

/// An octet that a header value may hold.
pub open spec fn is_value_byte(b: u8) -> bool {
    (b >= 32 && b != 127) || b == 9
}

/// Octets that can stand as a header value.
pub open spec fn valid_value(bytes: Seq<u8>) -> bool {
    forall|i: int| 0 <= i < bytes.len() ==> is_value_byte(#[trigger] bytes[i])
}

/// A visible ASCII octet, or a tab.
pub open spec fn is_visible_byte(b: u8) -> bool {
    (32 <= b < 127) || b == 9
}

/// The text of a value made of visible ASCII octets only; none for any other.
pub open spec fn visible_text(bytes: Seq<u8>) -> Option<Seq<char>> {
    if forall|i: int| 0 <= i < bytes.len() ==> is_visible_byte(#[trigger] bytes[i]) {
        Some(Seq::new(bytes.len(), |i: int| bytes[i] as char))
    } else {
        None
    }
}

/// A name of lower-case letters, digits and hyphens.
pub open spec fn plain_name(s: Seq<char>) -> bool {
    &&& 1 <= s.len() <= 65535
    &&& forall|i: int|
        0 <= i < s.len() ==> {
            let c = #[trigger] s[i];
            ('a' <= c && c <= 'z') || ('0' <= c && c <= '9') || c == '-'
        }
}

/// A visible ASCII character, or a tab.
pub open spec fn is_visible_char(c: char) -> bool {
    (' ' <= c && c <= '~') || c == '\t'
}

/// A text of visible ASCII characters and tabs.
pub open spec fn plain_text(s: Seq<char>) -> bool {
    forall|i: int| 0 <= i < s.len() ==> is_visible_char(#[trigger] s[i])
}

/// The octets of an ASCII text.
pub open spec fn ascii_bytes(s: Seq<char>) -> Seq<u8> {
    Seq::new(s.len(), |i: int| s[i] as u8)
}

/// The values that `fields` holds under `name`; none where it has no such
/// header.
pub open spec fn values_of(fields: Fields, name: Seq<char>) -> Seq<Seq<u8>> {
    if fields.contains_key(name) {
        fields[name]
    } else {
        Seq::empty()
    }
}

/// The first value that `fields` holds under `name`.
pub open spec fn first_value(fields: Fields, name: Seq<char>) -> Option<Seq<u8>> {
    if fields.contains_key(name) {
        Some(fields[name].first())
    } else {
        None
    }
}

/// The first value under `name` as text, where there is one of visible ASCII.
pub open spec fn first_text(fields: Fields, name: Seq<char>) -> Option<Seq<char>> {
    match first_value(fields, name) {
        Some(bytes) => visible_text(bytes),
        None => None,
    }
}

/// The values of the headers in `items` that are named `name`, in their order.
pub open spec fn values_named(items: Seq<Header>, name: Seq<char>) -> Seq<Seq<u8>>
    decreases items.len(),
{
    if items.len() == 0 {
        Seq::empty()
    } else if name_text(items.last().0) == name {
        values_named(items.drop_last(), name).push(value_bytes(items.last().1))
    } else {
        values_named(items.drop_last(), name)
    }
}

/// The octets of a plain name spell that name.
pub proof fn lemma_plain_name(s: Seq<char>)
    requires
        plain_name(s),
    ensures
        canonical_name(vstd::utf8::encode_utf8(s)) == Some(s),
        vstd::utf8::encode_utf8(s) == ascii_bytes(s),
{
    let bytes = vstd::utf8::encode_utf8(s);
    assert(vstd::utf8::is_ascii_chars(s));
    vstd::utf8::is_ascii_chars_encode_utf8(s);
    assert(bytes =~= ascii_bytes(s));
    assert forall|i: int| 0 <= i < bytes.len() implies is_token_byte(#[trigger] bytes[i])
        && lower_byte(bytes[i]) as char == s[i] by {
        let c = s[i];
        assert(bytes[i] == c as u8);
    }
    assert(Seq::new(bytes.len(), |i: int| lower_byte(bytes[i]) as char) =~= s);
}

/// The octets of a plain text can stand as a header value, and read back as the
/// same text.
pub proof fn lemma_plain_text(s: Seq<char>)
    requires
        plain_text(s),
    ensures
        valid_value(vstd::utf8::encode_utf8(s)),
        visible_text(vstd::utf8::encode_utf8(s)) == Some(s),
        vstd::utf8::encode_utf8(s) == ascii_bytes(s),
{
    let bytes = vstd::utf8::encode_utf8(s);
    assert(vstd::utf8::is_ascii_chars(s));
    vstd::utf8::is_ascii_chars_encode_utf8(s);
    assert(bytes =~= ascii_bytes(s));
    assert forall|i: int| 0 <= i < bytes.len() implies is_value_byte(#[trigger] bytes[i])
        && is_visible_byte(bytes[i]) && bytes[i] as char == s[i] by {
        let c = s[i];
        assert(is_visible_char(c));
        assert(bytes[i] == c as u8);
    }
    assert(Seq::new(bytes.len(), |i: int| bytes[i] as char) =~= s);
}

/// A value that reads as text is the octets of that text, and the text is plain.
pub proof fn lemma_visible_text(bytes: Seq<u8>)
    requires
        visible_text(bytes) is Some,
    ensures
        plain_text(visible_text(bytes)->0),
        ascii_bytes(visible_text(bytes)->0) == bytes,
{
    let text = visible_text(bytes)->0;
    assert forall|i: int| 0 <= i < text.len() implies is_visible_char(#[trigger] text[i]) && text[i] as u8 == bytes[i] by {
        assert(is_visible_byte(bytes[i]));
        assert(text[i] == bytes[i] as char);
    }
    assert(ascii_bytes(text) =~= bytes);
}

/// `HeaderMap::new`: a set without headers.
#[verifier::external_body]
pub(crate) fn new_headers() -> (r: Headers)
    ensures
        fields_of(r) == (Map::<Seq<char>, Seq<Seq<u8>>>::empty()),
        header_count(r) == 0,
{
    http::HeaderMap::new()
}

/// `HeaderMap::try_insert`: where the set takes the header, `value` becomes the
/// one value under `name`, so that the set holds at most one header more; where
/// it refuses for want of room, it stays as it was. It refuses only when its
/// index cannot grow further, which takes at least `HEADER_ROOM` names in it.
#[verifier::external_body]
pub(crate) fn set_header(m: &mut Headers, name: http::HeaderName, value: http::HeaderValue) -> (ok: bool)
    ensures
        header_count(*old(m)) < HEADER_ROOM ==> ok,
        ok ==> fields_of(*final(m)) == fields_of(*old(m)).insert(name_text(name), seq![value_bytes(value)]),
        ok ==> header_count(*final(m)) <= header_count(*old(m)) + 1,
        !ok ==> fields_of(*final(m)) == fields_of(*old(m)),
        !ok ==> header_count(*final(m)) == header_count(*old(m)),
{
    m.try_insert(name, value).is_ok()
}

/// `HeaderMap::iter`, each header cloned: every name once for each of its
/// values, the values of one name in their order, and no header that the set
/// does not hold.
#[verifier::external_body]
pub(crate) fn header_items(m: &Headers) -> (r: Vec<Header>)
    ensures
        r@.len() == header_count(*m),
        forall|name: Seq<char>| #[trigger] values_named(r@, name) == values_of(fields_of(*m), name),
        forall|name: Seq<char>| fields_of(*m).contains_key(name) ==> (#[trigger] values_named(r@, name)).len() > 0,
{
    m.iter().map(|(name, value)| (name.clone(), value.clone())).collect()
}

/// `HeaderMap::get` by a string key: the first value under the name that the
/// key spells, if the key spells one and the set has such a header.
#[verifier::external_body]
pub(crate) fn first_header<'a>(m: &'a Headers, key: &str) -> (r: Option<&'a http::HeaderValue>)
    ensures
        match canonical_name(key.spec_bytes()) {
            Some(name) => match r {
                Some(v) => first_value(fields_of(*m), name) == Some(value_bytes(*v)),
                None => first_value(fields_of(*m), name) is None,
            },
            None => r is None,
        },
{
    m.get(key)
}

/// `HeaderName::as_str`: the text of the name.
#[verifier::external_body]
pub(crate) fn name_str(n: &http::HeaderName) -> (r: &str)
    ensures
        r@ == name_text(*n),
{
    n.as_str()
}

/// `HeaderValue::to_str`: the value as text, where all its octets are visible
/// ASCII.
#[verifier::external_body]
pub(crate) fn value_str(v: &http::HeaderValue) -> (r: Option<&str>)
    ensures
        match visible_text(value_bytes(*v)) {
            Some(text) => r matches Some(s) && s@ == text,
            None => r is None,
        },
{
    v.to_str().ok()
}

/// `HeaderValue::from_bytes`: a value of the given octets, where each of them
/// may stand in a header value.
#[verifier::external_body]
pub(crate) fn parse_value(bytes: &[u8]) -> (r: Option<http::HeaderValue>)
    ensures
        match r {
            Some(v) => valid_value(bytes@) && value_bytes(v) == bytes@,
            None => !valid_value(bytes@),
        },
{
    http::HeaderValue::from_bytes(bytes).ok()
}

/// `HeaderName::from_bytes`: the name that the octets spell, where they spell
/// one.
#[verifier::external_body]
pub(crate) fn parse_name(bytes: &[u8]) -> (r: Option<http::HeaderName>)
    ensures
        match canonical_name(bytes@) {
            Some(text) => r matches Some(n) && name_text(n) == text,
            None => r is None,
        },
{
    http::HeaderName::from_bytes(bytes).ok()
}

/// `Method::from_bytes`: the method of the given token, where the octets are
/// one.
#[verifier::external_body]
pub(crate) fn parse_method(bytes: &[u8]) -> (r: Option<http::Method>)
    ensures
        match r {
            Some(m) => is_token(bytes@) && method_token(m) == bytes@,
            None => !is_token(bytes@),
        },
{
    http::Method::from_bytes(bytes).ok()
}

/// The header name of the given plain text.
pub(crate) fn plain_header_name(s: &str) -> (n: http::HeaderName)
    requires
        plain_name(s@),
    ensures
        name_text(n) == s@,
{
    proof {
        lemma_plain_name(s@);
    }
    match parse_name(s.as_bytes()) {
        Some(n) => n,
        None => vstd::pervasive::unreached(),
    }
}

/// The header value of the given plain text.
pub(crate) fn plain_header_value(s: &str) -> (v: http::HeaderValue)
    requires
        plain_text(s@),
    ensures
        value_bytes(v) == ascii_bytes(s@),
{
    proof {
        lemma_plain_text(s@);
    }
    match parse_value(s.as_bytes()) {
        Some(v) => v,
        None => vstd::pervasive::unreached(),
    }
}

/// The first value under the plain name `key`, as text.
pub(crate) fn header_text<'a>(m: &'a Headers, key: &str) -> (r: Option<&'a str>)
    requires
        plain_name(key@),
    ensures
        match first_text(fields_of(*m), key@) {
            Some(text) => r matches Some(s) && s@ == text,
            None => r is None,
        },
{
    proof {
        lemma_plain_name(key@);
    }
    match first_header(m, key) {
        Some(v) => value_str(v),
        None => None,
    }
}

} // verus!
