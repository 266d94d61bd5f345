//! The base address of a torrent daemon.

use crate::uri::{parse_uri, url_parsed, url_query_pairs};
use crate::text::{chars_of, has_prefix, string_of};
use url::Url;
use vstd::prelude::*;

verus! {

/// The lower-case form that `str::to_lowercase` gives a text.
pub uninterp spec fn lowercase_of(text: Seq<char>) -> Seq<char>;

/// `str::to_lowercase` returns the lower-case form of the text, as Unicode
/// defines it. The contract only names it.
pub assume_specification[ str::to_lowercase ](text: &str) -> (out: String)
    ensures
        out@ == lowercase_of(text@),
;

pub const WEB_PATH: &'static str = "/transmission/web";

pub const RPC_PATH: &'static str = "/transmission/rpc";

/// What stands in `text` before the first occurrence of `pattern`, or all
/// of it where the pattern does not occur.
pub open spec fn before_first(text: Seq<char>, pattern: Seq<char>) -> Seq<char>
    decreases text.len(),
{
    if text.len() == 0 || has_prefix(text, pattern) {
        Seq::<char>::empty()
    } else {
        seq![text[0]] + before_first(text.drop_first(), pattern)
    }
}

/// Cuts `text` off where `pattern` first occurs.
pub fn cut_before(text: &Vec<char>, pattern: &Vec<char>) -> (out: Vec<char>)
    ensures
        out@ == before_first(text@, pattern@),
{
    let mut out: Vec<char> = Vec::new();
    let mut i: usize = 0;
    assert(text@.subrange(0, text@.len() as int) =~= text@);
    while i < text.len()
        invariant
            i <= text.len(),
            out@ + before_first(text@.subrange(i as int, text.len() as int), pattern@)
                == before_first(text@, pattern@),
        decreases text.len() - i,
    {
        let ghost tail = text@.subrange(i as int, text.len() as int);
        if matches_at(text, i, pattern) {
            assert(out@ + Seq::<char>::empty() =~= out@);
            return out;
        }
        assert(tail.drop_first() =~= text@.subrange(i + 1, text.len() as int));
        assert(tail[0] == text@[i as int]);
        let ghost before = out@;
        out.push(text[i]);
        assert(out@ + before_first(tail.drop_first(), pattern@) =~= before + (seq![tail[0]]
            + before_first(tail.drop_first(), pattern@)));
        i += 1;
    }
    assert(text@.subrange(text.len() as int, text.len() as int) =~= Seq::<char>::empty());
    assert(out@ + Seq::<char>::empty() =~= out@);
    out
}

pub(crate) fn matches_at(text: &Vec<char>, at: usize, pattern: &Vec<char>) -> (out: bool)
    requires
        at <= text.len(),
    ensures
        out == has_prefix(text@.subrange(at as int, text.len() as int), pattern@),
{
    let ghost tail = text@.subrange(at as int, text.len() as int);
    if pattern.len() > text.len() - at {
        return false;
    }
    let mut j: usize = 0;
    while j < pattern.len()
        invariant
            j <= pattern.len() <= text.len() - at,
            at <= text.len(),
            tail == text@.subrange(at as int, text.len() as int),
            tail.subrange(0, j as int) == pattern@.subrange(0, j as int),
        decreases pattern.len() - j,
    {
        if text[at + j] != pattern[j] {
            assert(tail.subrange(0, pattern.len() as int)[j as int] != pattern@[j as int]);
            return false;
        }
        assert(tail.subrange(0, j + 1) =~= tail.subrange(0, j as int).push(tail[j as int]));
        assert(pattern@.subrange(0, j + 1) =~= pattern@.subrange(0, j as int).push(
            pattern@[j as int],
        ));
        j += 1;
    }
    assert(pattern@.subrange(0, pattern.len() as int) =~= pattern@);
    true
}

/// The base address of a daemon: what stands before `/transmission/web` in
/// the address of its web interface.
#[derive(Debug, Clone)]
pub struct TransUrl(pub String);

impl View for TransUrl {
    type V = Seq<char>;

    open spec fn view(&self) -> Seq<char> {
        self.0@
    }
}

impl TransUrl {
    /// The base address that `url` is.
    pub fn from(url: String) -> (out: Self)
        ensures
            out@ == url@,
    {
        TransUrl(url)
    }

    /// The base address in the address of a daemon's web interface: the
    /// address in lower case, up to where the path of the web interface
    /// begins. There always is one.
    pub fn from_web_url(url: &String) -> (out: Option<Self>)
        ensures
            out is Some,
            out->0@ == before_first(lowercase_of(url@), WEB_PATH@),
    {
        let lowercased_url = url.as_str().to_lowercase();
        let chars = chars_of(lowercased_url.as_str());
        let pattern = chars_of(WEB_PATH);
        let base = cut_before(&chars, &pattern);
        Some(TransUrl(string_of(&base)))
    }

    /// The address of the daemon's control interface, as a text.
    pub open spec fn rpc_text(&self) -> Seq<char> {
        self@ + RPC_PATH@
    }

    /// The address of the daemon's control interface, as a text.
    pub fn rpc_address(&self) -> (out: String)
        ensures
            out@ == self.rpc_text(),
    {
        self.0.clone().concat(RPC_PATH)
    }

    /// The address of the daemon's control interface, for a base address
    /// under which it is a URL.
    pub fn to_rpc_url(&self) -> (out: Url)
        requires
            url_query_pairs(self.rpc_text()) is Some,
        ensures
            url_parsed(self.rpc_text()) == Some(out),
    {
        let text = self.rpc_address();
        let both = parse_uri(text.as_str()).unwrap();
        both.0
    }

    /// The address of the daemon's control interface, or nothing where it
    /// is no URL.
    pub fn try_rpc_url(&self) -> (out: Option<Url>)
        ensures
            out == url_parsed(self.rpc_text()),
            out is Some <==> url_query_pairs(self.rpc_text()) is Some,
    {
        let text = self.rpc_address();
        match parse_uri(text.as_str()) {
            Some(_) => Some(self.to_rpc_url()),
            None => None,
        }
    }

    /// The base address, as a text.
    pub fn get_base_url(&self) -> (out: String)
        ensures
            out@ == self@,
    {
        self.0.clone()
    }
}

} // verus!
