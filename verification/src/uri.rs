//! URIs as the `url` crate reads and writes them: query parameters and
//! form encoding.

use crate::text::free_of;
use url::Url;
use vstd::prelude::*;
use vstd::utf8::*;

verus! {

/// `url::Url`, a parsed URL. Nothing inside it is looked at here.
#[verifier::external_type_specification]
#[verifier::external_body]
pub struct ExUrl(Url);

/// The texts of a vector of name and value pairs, one by one.
pub open spec fn pair_texts(pairs: Seq<(String, String)>) -> Seq<(Seq<char>, Seq<char>)> {
    Seq::new(pairs.len(), |i: int| (pairs[i].0@, pairs[i].1@))
}

/// The query parameters that the `url` crate reads from `text`: `None` where
/// `Url::parse` rejects the text, else the name and value pairs that
/// `Url::query_pairs` yields, in order.
pub uninterp spec fn url_query_pairs(text: Seq<char>) -> Option<Seq<(Seq<char>, Seq<char>)>>;

/// The URL that `url::Url::parse` makes of a text, if it makes one.
pub uninterp spec fn url_parsed(text: Seq<char>) -> Option<Url>;

/// Calls `url::Url::parse` on `text` and, where it succeeds,
/// `Url::query_pairs` on the result, and hands back the URL with its
/// pairs. The contract only names what comes back: the URL and the pairs
/// are functions of the text, and there are pairs exactly where there is a
/// URL. Nothing is claimed about how either relates to the text.
#[verifier::external_body]
pub(crate) fn parse_uri(text: &str) -> (out: Option<(Url, Vec<(String, String)>)>)
    ensures
        out is Some <==> url_parsed(text@) is Some,
        out is Some <==> url_query_pairs(text@) is Some,
        out matches Some(both) ==> url_parsed(text@) == Some(both.0) && pair_texts(both.1@)
            == url_query_pairs(text@)->0,
{
    match Url::parse(text) {
        Ok(parsed) => {
            let pairs = parsed.query_pairs().into_owned().collect();
            Some((parsed, pairs))
        },
        Err(_) => None,
    }
}

/// The upper-case hexadecimal digit of a value below 16.
pub open spec fn hex_upper(nibble: u8) -> char {
    if nibble < 10 {
        (0x30 + nibble) as u8 as char
    } else {
        (0x41 + nibble - 10) as u8 as char
    }
}

/// The bytes that form encoding leaves as they are: ASCII letters and
/// digits, `*`, `-`, `.` and `_`.
pub open spec fn form_kept(b: u8) -> bool {
    b == 0x2A || b == 0x2D || b == 0x2E || 0x30 <= b <= 0x39 || 0x41 <= b <= 0x5A || b == 0x5F
        || 0x61 <= b <= 0x7A
}

/// Form encoding of one byte: itself where it is kept, `+` for a space, and
/// else `%` with its two upper-case hexadecimal digits.
pub open spec fn form_encoded_byte(b: u8) -> Seq<char> {
    if form_kept(b) {
        seq![b as char]
    } else if b == 0x20 {
        seq!['+']
    } else {
        seq!['%', hex_upper(b / 16), hex_upper(b % 16)]
    }
}

/// Form encoding of bytes, byte by byte.
pub open spec fn form_encoded_bytes(bytes: Seq<u8>) -> Seq<char>
    decreases bytes.len(),
{
    if bytes.len() == 0 {
        Seq::<char>::empty()
    } else {
        form_encoded_byte(bytes[0]) + form_encoded_bytes(bytes.drop_first())
    }
}

/// Form encoding of a text: that of its UTF-8 bytes.
pub open spec fn form_encoded(s: Seq<char>) -> Seq<char> {
    form_encoded_bytes(encode_utf8(s))
}

/// A query string with one more parameter: `&` is put between the
/// parameters, and the name and the value are form encoded.
pub open spec fn with_pair(query: Seq<char>, name: Seq<char>, value: Seq<char>) -> Seq<char> {
    (if query.len() > 0 {
        query.push('&')
    } else {
        query
    }) + form_encoded(name) + seq!['='] + form_encoded(value)
}

/// Builds a `url::form_urlencoded::Serializer` on `query`, calls its
/// `append_pair` once and `finish`. The contract states the serializer's
/// rule: a `&` where the query is not empty, then the encoded name, `=` and
/// the encoded value.
#[verifier::external_body]
pub(crate) fn append_pair(query: String, name: &str, value: &str) -> (out: String)
    ensures
        out@ == with_pair(query@, name@, value@),
{
    let mut serializer = url::form_urlencoded::Serializer::new(query);
    serializer.append_pair(name, value);
    serializer.finish()
}

/// The characters that form encoding writes: ASCII letters and digits,
/// `*`, `-`, `.`, `_`, `+` and `%`.
pub open spec fn form_safe(c: char) -> bool {
    ('0' <= c && c <= '9') || ('A' <= c && c <= 'Z') || ('a' <= c && c <= 'z') || c == '*' || c == '-'
        || c == '.' || c == '_' || c == '+' || c == '%'
}

proof fn lemma_form_encoded_bytes_safe(bytes: Seq<u8>)
    ensures
        forall|i: int|
            0 <= i < form_encoded_bytes(bytes).len() ==> form_safe(
                #[trigger] form_encoded_bytes(bytes)[i],
            ),
    decreases bytes.len(),
{
    if bytes.len() > 0 {
        let b = bytes[0];
        let head = form_encoded_byte(b);
        let tail = form_encoded_bytes(bytes.drop_first());
        lemma_form_encoded_bytes_safe(bytes.drop_first());
        assert(forall|j: int| 0 <= j < head.len() ==> form_safe(#[trigger] head[j])) by {
            assert(b / 16 < 16 && b % 16 < 16);
            assert(form_safe(hex_upper(b / 16)));
            assert(form_safe(hex_upper(b % 16)));
            if form_kept(b) {
                assert(form_safe(b as char));
            }
        }
        assert forall|i: int| 0 <= i < form_encoded_bytes(bytes).len() implies form_safe(
            #[trigger] form_encoded_bytes(bytes)[i],
        ) by {
            if i >= head.len() {
                assert(form_encoded_bytes(bytes)[i] == tail[i - head.len()]);
            } else {
                assert(form_encoded_bytes(bytes)[i] == head[i]);
            }
        }
    }
}

/// Form encoding writes nothing but safe characters: no space, no line
/// break, and none of `&`, `=`, `#`, `:` and `?`.
pub proof fn lemma_form_encoded_safe(s: Seq<char>)
    ensures
        forall|i: int| 0 <= i < form_encoded(s).len() ==> form_safe(#[trigger] form_encoded(s)[i]),
{
    lemma_form_encoded_bytes_safe(encode_utf8(s));
}

pub proof fn lemma_with_pair_unbroken(query: Seq<char>, name: Seq<char>, value: Seq<char>)
    requires
        free_of(query, '\n', ' '),
    ensures
        free_of(with_pair(query, name, value), '\n', ' '),
{
    lemma_form_encoded_safe(name);
    lemma_form_encoded_safe(value);
    let head = if query.len() > 0 {
        query.push('&')
    } else {
        query
    };
    let n = form_encoded(name);
    let v = form_encoded(value);
    let whole = with_pair(query, name, value);
    assert forall|i: int| 0 <= i < whole.len() implies #[trigger] whole[i] != '\n' && whole[i]
        != ' ' by {
        if i < head.len() {
            if i < query.len() {
                assert(whole[i] == query[i]);
            }
        } else if i < head.len() + n.len() {
            assert(whole[i] == n[i - head.len()]);
            assert(form_safe(n[i - head.len()]));
        } else if i == head.len() + n.len() {
        } else {
            assert(whole[i] == v[i - head.len() - n.len() - 1]);
            assert(form_safe(v[i - head.len() - n.len() - 1]));
        }
    }
}

} // verus!
