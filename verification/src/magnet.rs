//! Magnet links: reading them from text, and writing them back in a short
//! and a full form.

use crate::errors::{MagnetErrorKind, MagnetMappingError};
use crate::text::{
    chars_of, free_of, has_prefix, lemma_split_joined, lemma_split_nonempty, lemma_split_unbroken,
    split_any, split_chars, split_on, starts_with, string_of, views,
};
use crate::uri::{
    append_pair, lemma_with_pair_unbroken, pair_texts, parse_uri, url_query_pairs, with_pair,
};
use vstd::prelude::*;

verus! {

/// The texts of a vector of strings, one by one.
pub open spec fn texts(items: Seq<String>) -> Seq<Seq<char>> {
    Seq::new(items.len(), |i: int| items[i]@)
}

/// A magnet link: the exact topic, the announce URLs in the order they were
/// given, and the name to show.
#[derive(Debug, Clone)]
pub struct MagnetLink {
    pub xt: String,
    pub tr: Vec<String>,
    pub dn: String,
}

/// What a magnet link holds, as plain texts.
pub struct MagnetLinkView {
    pub xt: Seq<char>,
    pub tr: Seq<Seq<char>>,
    pub dn: Seq<char>,
}

impl View for MagnetLink {
    type V = MagnetLinkView;

    open spec fn view(&self) -> MagnetLinkView {
        MagnetLinkView { xt: self.xt@, tr: texts(self.tr@), dn: self.dn@ }
    }
}

/// Whether an exact topic has the three colon-separated parts that the hash
/// is taken from.
pub open spec fn has_hash(xt: Seq<char>) -> bool {
    split_on(xt, ':').len() >= 3
}

/// The hash of an exact topic: its third colon-separated part.
pub open spec fn hash_of(xt: Seq<char>) -> Seq<char>
    recommends
        has_hash(xt),
{
    split_on(xt, ':')[2]
}

/// The values of the parameters named `key`, in order.
pub open spec fn values_of(pairs: Seq<(Seq<char>, Seq<char>)>, key: Seq<char>) -> Seq<Seq<char>>
    decreases pairs.len(),
{
    if pairs.len() == 0 {
        Seq::<Seq<char>>::empty()
    } else if pairs.last().0 == key {
        values_of(pairs.drop_last(), key).push(pairs.last().1)
    } else {
        values_of(pairs.drop_last(), key)
    }
}

/// The parameter lists from which a link can be read or refused: all but
/// those in which the one topic has to lend its hash as the name and has
/// none.
pub open spec fn readable(pairs: Seq<(Seq<char>, Seq<char>)>) -> bool {
    let xts = values_of(pairs, "xt"@);
    let dns = values_of(pairs, "dn"@);
    xts.len() == 1 && dns.len() == 0 ==> has_hash(xts[0])
}

/// The parameters of a text: those that the query of the URL holds, each
/// decoded once as the query is read, and none where the text is no URL.
pub open spec fn parameters(text: Seq<char>) -> Seq<(Seq<char>, Seq<char>)> {
    match url_query_pairs(text) {
        Some(pairs) => pairs,
        None => Seq::<(Seq<char>, Seq<char>)>::empty(),
    }
}

/// The link that a parameter list spells, or the reason why it spells none.
/// The topic is the one `xt`; the trackers are all the `tr`, in order; the
/// name is the one `dn` as the query gives it, or the topic's hash without
/// one.
pub open spec fn parsed(pairs: Seq<(Seq<char>, Seq<char>)>) -> Result<
    MagnetLinkView,
    MagnetMappingError,
> {
    let xts = values_of(pairs, "xt"@);
    let dns = values_of(pairs, "dn"@);
    if xts.len() == 0 {
        Err(MagnetMappingError(MagnetErrorKind::MissingExactTopic))
    } else if xts.len() > 1 {
        Err(MagnetMappingError(MagnetErrorKind::AmbiguousExactTopic))
    } else if dns.len() > 1 {
        Err(MagnetMappingError(MagnetErrorKind::AmbiguousDisplayName))
    } else {
        Ok(
            MagnetLinkView {
                xt: xts[0],
                tr: values_of(pairs, "tr"@),
                dn: if dns.len() == 0 {
                    hash_of(xts[0])
                } else {
                    dns[0]
                },
            },
        )
    }
}

/// Collects the values of the parameters named `key`.
fn collect_values(pairs: &Vec<(String, String)>, key: &str) -> (out: Vec<String>)
    ensures
        texts(out@) == values_of(pair_texts(pairs@), key@),
{
    let mut out: Vec<String> = Vec::new();
    let mut i: usize = 0;
    let wanted = String::from_str(key);
    assert(pair_texts(pairs@).subrange(0, 0) =~= Seq::empty());
    assert(texts(out@) =~= Seq::empty());
    while i < pairs.len()
        invariant
            i <= pairs.len(),
            wanted@ == key@,
            texts(out@) == values_of(pair_texts(pairs@).subrange(0, i as int), key@),
        decreases pairs.len() - i,
    {
        let ghost before = texts(out@);
        let ghost longer = pair_texts(pairs@).subrange(0, i + 1);
        assert(longer.drop_last() =~= pair_texts(pairs@).subrange(0, i as int));
        assert(longer.last() == (pairs@[i as int].0@, pairs@[i as int].1@));
        if pairs[i].0 == wanted {
            out.push(pairs[i].1.clone());
            assert(texts(out@) =~= before.push(pairs@[i as int].1@));
        }
        i += 1;
    }
    assert(pair_texts(pairs@).subrange(0, pairs.len() as int) =~= pair_texts(pairs@));
    out
}

/// The hash of an exact topic.
pub fn hash_from_xt(xt: &String) -> (out: String)
    requires
        has_hash(xt@),
    ensures
        out@ == hash_of(xt@),
{
    let chars = chars_of(xt.as_str());
    let parts = split_chars(&chars, ':', ':');
    assert(views(parts@)[2] == parts@[2]@);
    string_of(&parts[2])
}

/// Tests whether an exact topic has a hash.
pub fn xt_has_hash(xt: &String) -> (out: bool)
    ensures
        out == has_hash(xt@),
{
    let chars = chars_of(xt.as_str());
    let parts = split_chars(&chars, ':', ':');
    assert(views(parts@).len() == parts@.len());
    parts.len() >= 3
}

/// The first of `tokens` that begins with `prefix`.
pub open spec fn first_with_prefix(tokens: Seq<Seq<char>>, prefix: Seq<char>) -> Option<Seq<char>>
    decreases tokens.len(),
{
    if tokens.len() == 0 {
        None
    } else if has_prefix(tokens[0], prefix) {
        Some(tokens[0])
    } else {
        first_with_prefix(tokens.drop_first(), prefix)
    }
}

/// The first token of `text` that begins with `magnet:?`, where the tokens
/// are what stands between line breaks and spaces.
pub open spec fn magnet_token(text: Seq<char>) -> Option<Seq<char>> {
    first_with_prefix(split_any(text, '\n', ' '), "magnet:?"@)
}

/// The link that `text` carries: the one that its first magnet token
/// spells, if that token spells one.
pub open spec fn found(text: Seq<char>) -> Option<MagnetLinkView> {
    match magnet_token(text) {
        None => None,
        Some(token) => if readable(parameters(token)) {
            match parsed(parameters(token)) {
                Ok(link) => Some(link),
                Err(_) => None,
            }
        } else {
            None
        },
    }
}

/// The query string of the trackers: one `tr` parameter each, in order.
pub open spec fn tracker_params(tr: Seq<Seq<char>>) -> Seq<char>
    decreases tr.len(),
{
    if tr.len() == 0 {
        Seq::<char>::empty()
    } else {
        with_pair(tracker_params(tr.drop_last()), "tr"@, tr.last())
    }
}

/// The short form of a link: the topic as it is, then the trackers.
pub open spec fn short_form(link: MagnetLinkView) -> Seq<char> {
    "magnet:?xt="@ + link.xt + "&"@ + tracker_params(link.tr)
}

/// The full form of a link: the name, form encoded, then the topic as it
/// is, then the trackers.
pub open spec fn full_form(link: MagnetLinkView) -> Seq<char> {
    "magnet:?"@ + with_pair(Seq::<char>::empty(), "dn"@, link.dn) + "&xt="@ + link.xt + "&"@
        + tracker_params(link.tr)
}

/// Finds the first of `tokens` that begins with `prefix`.
fn first_token(tokens: &Vec<Vec<char>>, prefix: &Vec<char>) -> (out: Option<usize>)
    ensures
        match out {
            Some(i) => i < tokens.len() && first_with_prefix(views(tokens@), prefix@) == Some(
                tokens@[i as int]@,
            ),
            None => first_with_prefix(views(tokens@), prefix@) is None,
        },
{
    let mut i: usize = 0;
    assert(views(tokens@).subrange(0, tokens.len() as int) =~= views(tokens@));
    while i < tokens.len()
        invariant
            i <= tokens.len(),
            first_with_prefix(views(tokens@), prefix@) == first_with_prefix(
                views(tokens@).subrange(i as int, tokens.len() as int),
                prefix@,
            ),
        decreases tokens.len() - i,
    {
        let ghost rest = views(tokens@).subrange(i as int, tokens.len() as int);
        assert(rest[0] == tokens@[i as int]@);
        assert(rest.drop_first() =~= views(tokens@).subrange(i + 1, tokens.len() as int));
        if starts_with(&tokens[i], prefix) {
            return Some(i);
        }
        i += 1;
    }
    None
}

/// Encodes the trackers as a query string.
fn encode_trackers(tr: &Vec<String>) -> (out: String)
    ensures
        out@ == tracker_params(texts(tr@)),
{
    let mut out = String::new();
    let mut i: usize = 0;
    assert(texts(tr@).subrange(0, 0) =~= Seq::empty());
    while i < tr.len()
        invariant
            i <= tr.len(),
            out@ == tracker_params(texts(tr@).subrange(0, i as int)),
        decreases tr.len() - i,
    {
        let ghost longer = texts(tr@).subrange(0, i + 1);
        assert(longer.drop_last() =~= texts(tr@).subrange(0, i as int));
        assert(longer.last() == tr@[i as int]@);
        out = append_pair(out, "tr", tr[i].as_str());
        i += 1;
    }
    assert(texts(tr@).subrange(0, tr.len() as int) =~= texts(tr@));
    out
}

impl MagnetLink {
    /// Tests whether a link can be read or refused from `pairs`.
    pub fn readable_pairs(pairs: &Vec<(String, String)>) -> (out: bool)
        ensures
            out == readable(pair_texts(pairs@)),
    {
        let xts = collect_values(pairs, "xt");
        assert(texts(xts@).len() == xts@.len());
        if xts.len() != 1 {
            return true;
        }
        let dns = collect_values(pairs, "dn");
        assert(texts(dns@).len() == dns@.len());
        assert(texts(xts@)[0] == xts@[0]@);
        dns.len() != 0 || xt_has_hash(&xts[0])
    }

    /// Reads a link from the parameters of a magnet URI.
    pub fn from_pairs(pairs: &Vec<(String, String)>) -> (out: Result<Self, MagnetMappingError>)
        requires
            readable(pair_texts(pairs@)),
        ensures
            out is Ok <==> parsed(pair_texts(pairs@)) is Ok,
            out matches Ok(link) ==> parsed(pair_texts(pairs@)) == Ok::<
                MagnetLinkView,
                MagnetMappingError,
            >(link@),
            out matches Err(e) ==> parsed(pair_texts(pairs@)) == Err::<
                MagnetLinkView,
                MagnetMappingError,
            >(e),
    {
        let xts = collect_values(pairs, "xt");
        assert(texts(xts@).len() == xts@.len());
        if xts.len() == 0 {
            return Err(MagnetMappingError::new(MagnetErrorKind::MissingExactTopic));
        }
        if xts.len() > 1 {
            return Err(MagnetMappingError::new(MagnetErrorKind::AmbiguousExactTopic));
        }
        let xt = xts[0].clone();
        assert(texts(xts@)[0] == xts@[0]@);
        let tr = collect_values(pairs, "tr");
        let dns = collect_values(pairs, "dn");
        assert(texts(dns@).len() == dns@.len());
        if dns.len() > 1 {
            return Err(MagnetMappingError::new(MagnetErrorKind::AmbiguousDisplayName));
        }
        let dn = if dns.len() == 0 {
            hash_from_xt(&xt)
        } else {
            assert(texts(dns@)[0] == dns@[0]@);
            dns[0].clone()
        };
        Ok(MagnetLink { xt, tr, dn })
    }

    /// Reads a link from the text of a magnet URI. A text that is no URL
    /// holds no topic, and is refused for that.
    pub fn from(string: &String) -> (out: Result<Self, MagnetMappingError>)
        requires
            readable(parameters(string@)),
        ensures
            out is Ok <==> parsed(parameters(string@)) is Ok,
            out matches Ok(link) ==> parsed(parameters(string@)) == Ok::<
                MagnetLinkView,
                MagnetMappingError,
            >(link@),
            out matches Err(e) ==> parsed(parameters(string@)) == Err::<
                MagnetLinkView,
                MagnetMappingError,
            >(e),
    {
        match parse_uri(string.as_str()) {
            Some((_, pairs)) => Self::from_pairs(&pairs),
            None => Err(MagnetMappingError::new(MagnetErrorKind::MissingExactTopic)),
        }
    }

    /// Reads a link from a text whose topic may lack the hash that a link
    /// without a name is named by: `None` for such a text, else what `from`
    /// answers.
    pub fn parse(string: &String) -> (out: Option<Result<Self, MagnetMappingError>>)
        ensures
            out is Some <==> readable(parameters(string@)),
            out matches Some(Ok(link)) ==> parsed(parameters(string@)) == Ok::<
                MagnetLinkView,
                MagnetMappingError,
            >(link@),
            out matches Some(Err(e)) ==> parsed(parameters(string@)) == Err::<
                MagnetLinkView,
                MagnetMappingError,
            >(e),
    {
        let pairs = match parse_uri(string.as_str()) {
            Some((_, pairs)) => pairs,
            None => Vec::new(),
        };
        assert(pair_texts(pairs@) =~= parameters(string@));
        if !Self::readable_pairs(&pairs) {
            return None;
        }
        Some(Self::from(string))
    }

    /// Finds the first magnet token in a free text and reads the link it
    /// spells. A token that spells none ends the search: later tokens are
    /// not looked at.
    pub fn find(string: &String) -> (out: Option<Self>)
        ensures
            out is Some <==> found(string@) is Some,
            out matches Some(link) ==> found(string@) == Some(link@),
    {
        let chars = chars_of(string.as_str());
        let tokens = split_chars(&chars, '\n', ' ');
        let prefix = chars_of("magnet:?");
        let token = match first_token(&tokens, &prefix) {
            Some(i) => string_of(&tokens[i]),
            None => { return None; },
        };
        match Self::parse(&token) {
            Some(Ok(link)) => Some(link),
            _ => None,
        }
    }

    /// The hash of the link's topic.
    pub fn hash(self) -> (out: String)
        requires
            has_hash(self@.xt),
        ensures
            out@ == hash_of(self@.xt),
    {
        hash_from_xt(&self.xt)
    }

    /// The name to show for the link.
    pub fn dn(self) -> (out: String)
        ensures
            out@ == self@.dn,
    {
        self.dn
    }

    /// The short form of the link, which leaves the name out.
    pub fn short_link(self) -> (out: String)
        ensures
            out@ == short_form(self@),
    {
        let params = encode_trackers(&self.tr);
        let mut out = String::from_str("magnet:?xt=");
        out.append(self.xt.as_str());
        out.append("&");
        out.append(params.as_str());
        out
    }

    /// The full form of the link, which keeps the name.
    pub fn full_link(self) -> (out: String)
        ensures
            out@ == full_form(self@),
    {
        let params = encode_trackers(&self.tr);
        let name = append_pair(String::new(), "dn", self.dn.as_str());
        let mut out = String::from_str("magnet:?");
        out.append(name.as_str());
        out.append("&xt=");
        out.append(self.xt.as_str());
        out.append("&");
        out.append(params.as_str());
        out
    }
}

/// A topic written as `urn:btih:` and a hash has a hash, and where the
/// hash holds no colon it is the hash of the topic.
pub proof fn lemma_btih_topic_has_hash(h: Seq<char>)
    ensures
        has_hash("urn:btih:"@ + h),
        free_of(h, ':', ':') ==> hash_of("urn:btih:"@ + h) == h,
{
    reveal_strlit("urn:btih:");
    let urn = seq!['u', 'r', 'n'];
    let btih = seq!['b', 't', 'i', 'h'];
    let topic = "urn:btih:"@ + h;
    assert(topic =~= urn.push(':') + (btih.push(':') + h));
    lemma_split_joined(urn, ':', btih.push(':') + h, ':', ':');
    lemma_split_joined(btih, ':', h, ':', ':');
    lemma_split_unbroken(urn, ':', ':');
    lemma_split_unbroken(btih, ':', ':');
    lemma_split_nonempty(h, ':', ':');
    let pieces = split_on(h, ':');
    assert(split_on(topic, ':') =~= seq![urn, btih] + pieces);
    if free_of(h, ':', ':') {
        lemma_split_unbroken(h, ':', ':');
    }
}

/// A parameter list with exactly one topic and at most one name spells a
/// link. Its topic is that one `xt`, kept as it is, and its hash is the
/// third colon-separated part of it. Parameters of other names do not
/// matter. Such a list can always be read where the topic has a hash or a
/// name is given.
pub proof fn lemma_single_topic_parses(pairs: Seq<(Seq<char>, Seq<char>)>)
    requires
        values_of(pairs, "xt"@).len() == 1,
        values_of(pairs, "dn"@).len() <= 1,
    ensures
        parsed(pairs) is Ok,
        parsed(pairs)->Ok_0.xt == values_of(pairs, "xt"@)[0],
        parsed(pairs)->Ok_0.tr == values_of(pairs, "tr"@),
        hash_of(parsed(pairs)->Ok_0.xt) == split_on(values_of(pairs, "xt"@)[0], ':')[2],
        has_hash(values_of(pairs, "xt"@)[0]) || values_of(pairs, "dn"@).len() == 1 ==> readable(
            pairs,
        ),
{
}

/// A parameter list is refused for a missing topic exactly when it has no
/// `xt`, and for an ambiguous topic exactly when it has two or more.
pub proof fn lemma_topic_count_decides(pairs: Seq<(Seq<char>, Seq<char>)>)
    ensures
        parsed(pairs) == Err::<MagnetLinkView, MagnetMappingError>(
            MagnetMappingError(MagnetErrorKind::MissingExactTopic),
        ) <==> values_of(pairs, "xt"@).len() == 0,
        parsed(pairs) == Err::<MagnetLinkView, MagnetMappingError>(
            MagnetMappingError(MagnetErrorKind::AmbiguousExactTopic),
        ) <==> values_of(pairs, "xt"@).len() >= 2,
{
}

/// A link read from parameters without a `dn` is named by its hash.
pub proof fn lemma_name_defaults_to_hash(pairs: Seq<(Seq<char>, Seq<char>)>)
    requires
        values_of(pairs, "xt"@).len() == 1,
        values_of(pairs, "dn"@).len() == 0,
    ensures
        parsed(pairs) is Ok,
        parsed(pairs)->Ok_0.dn == hash_of(parsed(pairs)->Ok_0.xt),
{
}

/// The parameters that the short form of a link carries: the topic, then
/// one `tr` for each tracker.
pub open spec fn short_pairs(link: MagnetLinkView) -> Seq<(Seq<char>, Seq<char>)> {
    seq![("xt"@, link.xt)] + Seq::new(link.tr.len(), |i: int| ("tr"@, link.tr[i]))
}

proof fn lemma_short_pairs_values(xt: Seq<char>, tr: Seq<Seq<char>>)
    ensures
        values_of(short_pairs(MagnetLinkView { xt, tr, dn: xt }), "xt"@) == seq![xt],
        values_of(short_pairs(MagnetLinkView { xt, tr, dn: xt }), "tr"@) == tr,
        values_of(short_pairs(MagnetLinkView { xt, tr, dn: xt }), "dn"@) == Seq::<
            Seq<char>,
        >::empty(),
    decreases tr.len(),
{
    reveal_strlit("xt");
    reveal_strlit("tr");
    reveal_strlit("dn");
    assert("xt"@[0] != "tr"@[0]);
    assert("xt"@[0] != "dn"@[0]);
    assert("tr"@[0] != "dn"@[0]);
    let pairs = short_pairs(MagnetLinkView { xt, tr, dn: xt });
    if tr.len() == 0 {
        assert(pairs =~= seq![("xt"@, xt)]);
        assert(pairs.drop_last() =~= Seq::empty());
        assert(pairs.last() == ("xt"@, xt));
        assert(values_of(pairs.drop_last(), "xt"@) =~= Seq::empty());
        assert(values_of(pairs.drop_last(), "tr"@) =~= Seq::empty());
        assert(values_of(pairs.drop_last(), "dn"@) =~= Seq::empty());
        assert(values_of(pairs, "xt"@) =~= seq![xt]);
        assert(values_of(pairs, "tr"@) =~= tr);
        assert(values_of(pairs, "dn"@) =~= Seq::empty());
    } else {
        let shorter = tr.drop_last();
        lemma_short_pairs_values(xt, shorter);
        assert(pairs.drop_last() =~= short_pairs(MagnetLinkView { xt, tr: shorter, dn: xt }));
        assert(pairs.last() == ("tr"@, tr.last()));
        assert(values_of(pairs, "xt"@) =~= seq![xt]);
        assert(values_of(pairs, "tr"@) =~= tr);
        assert(values_of(pairs, "dn"@) =~= Seq::empty());
    }
}

/// Reading back the parameters that the short form carries gives the same
/// topic and the same trackers in the same order, and the hash as the name.
pub proof fn lemma_short_pairs_read_back(link: MagnetLinkView)
    ensures
        parsed(short_pairs(link)) == Ok::<MagnetLinkView, MagnetMappingError>(
            MagnetLinkView { xt: link.xt, tr: link.tr, dn: hash_of(link.xt) },
        ),
{
    lemma_short_pairs_values(link.xt, link.tr);
    assert(short_pairs(link) == short_pairs(
        MagnetLinkView { xt: link.xt, tr: link.tr, dn: link.xt },
    ));
}

proof fn lemma_tracker_params_unbroken(tr: Seq<Seq<char>>)
    ensures
        free_of(tracker_params(tr), '\n', ' '),
    decreases tr.len(),
{
    if tr.len() > 0 {
        lemma_tracker_params_unbroken(tr.drop_last());
        lemma_with_pair_unbroken(tracker_params(tr.drop_last()), "tr"@, tr.last());
    }
}

/// A text without spaces and line breaks that begins with `magnet:?` is
/// its own magnet token: finding a link in it is reading it.
pub proof fn lemma_bare_uri_is_its_token(text: Seq<char>)
    requires
        free_of(text, '\n', ' '),
        has_prefix(text, "magnet:?"@),
    ensures
        magnet_token(text) == Some(text),
{
    lemma_split_unbroken(text, '\n', ' ');
}

/// The short and the full form of a link are single tokens whenever the
/// topic holds no space and no line break, whatever the trackers and the
/// name hold: what `find` finds in either form is the form itself.
pub proof fn lemma_forms_are_single_tokens(link: MagnetLinkView)
    requires
        free_of(link.xt, '\n', ' '),
    ensures
        magnet_token(short_form(link)) == Some(short_form(link)),
        magnet_token(full_form(link)) == Some(full_form(link)),
{
    reveal_strlit("magnet:?xt=");
    reveal_strlit("magnet:?");
    reveal_strlit("&xt=");
    reveal_strlit("&");
    lemma_tracker_params_unbroken(link.tr);
    lemma_with_pair_unbroken(Seq::<char>::empty(), "dn"@, link.dn);
    let params = tracker_params(link.tr);
    let short = short_form(link);
    assert forall|i: int| 0 <= i < short.len() implies #[trigger] short[i] != '\n' && short[i]
        != ' ' by {
        if i < 11 {
            assert(short[i] == "magnet:?xt="@[i]);
        } else if i < 11 + link.xt.len() {
            assert(short[i] == link.xt[i - 11]);
        } else if i == 11 + link.xt.len() {
        } else {
            assert(short[i] == params[i - 12 - link.xt.len()]);
        }
    }
    assert(short.subrange(0, 8) =~= "magnet:?"@);
    lemma_bare_uri_is_its_token(short);
    let name = with_pair(Seq::<char>::empty(), "dn"@, link.dn);
    let full = full_form(link);
    assert forall|i: int| 0 <= i < full.len() implies #[trigger] full[i] != '\n' && full[i]
        != ' ' by {
        if i < 8 {
            assert(full[i] == "magnet:?"@[i]);
        } else if i < 8 + name.len() {
            assert(full[i] == name[i - 8]);
        } else if i < 12 + name.len() {
            assert(full[i] == "&xt="@[i - 8 - name.len()]);
        } else if i < 12 + name.len() + link.xt.len() {
            assert(full[i] == link.xt[i - 12 - name.len()]);
        } else if i == 12 + name.len() + link.xt.len() {
        } else {
            assert(full[i] == params[i - 13 - name.len() - link.xt.len()]);
        }
    }
    assert(full.subrange(0, 8) =~= "magnet:?"@);
    lemma_bare_uri_is_its_token(full);
}

proof fn lemma_first_with_prefix_joined(a: Seq<Seq<char>>, b: Seq<Seq<char>>, prefix: Seq<char>)
    ensures
        first_with_prefix(a + b, prefix) == if first_with_prefix(a, prefix) is Some {
            first_with_prefix(a, prefix)
        } else {
            first_with_prefix(b, prefix)
        },
    decreases a.len(),
{
    if a.len() == 0 {
        assert(a + b =~= b);
    } else {
        assert((a + b)[0] == a[0]);
        assert((a + b).drop_first() =~= a.drop_first() + b);
        lemma_first_with_prefix_joined(a.drop_first(), b, prefix);
    }
}

/// A magnet token is found amid prose: where no token of the text before
/// it begins with `magnet:?`, the token is found whatever follows it, be
/// it on the same line or on the next.
pub proof fn lemma_token_found_amid_prose(
    before: Seq<char>,
    gap: char,
    token: Seq<char>,
    after: Seq<char>,
)
    requires
        gap == ' ' || gap == '\n',
        magnet_token(before) is None,
        free_of(token, '\n', ' '),
        has_prefix(token, "magnet:?"@),
    ensures
        magnet_token(before.push(gap) + token) == Some(token),
        magnet_token(before.push(gap) + (token.push(gap) + after)) == Some(token),
        magnet_token(token.push(gap) + after) == Some(token),
{
    let prefix = "magnet:?"@;
    lemma_split_unbroken(token, '\n', ' ');
    lemma_split_joined(before, gap, token, '\n', ' ');
    lemma_first_with_prefix_joined(split_any(before, '\n', ' '), seq![token], prefix);
    lemma_split_joined(token, gap, after, '\n', ' ');
    lemma_first_with_prefix_joined(seq![token], split_any(after, '\n', ' '), prefix);
    lemma_split_joined(before, gap, token.push(gap) + after, '\n', ' ');
    lemma_first_with_prefix_joined(
        split_any(before, '\n', ' '),
        split_any(token.push(gap) + after, '\n', ' '),
        prefix,
    );
}

/// A link with one `dn` is named by that `dn` as the query gives it:
/// nothing is decoded a second time.
pub proof fn lemma_name_is_kept(pairs: Seq<(Seq<char>, Seq<char>)>)
    requires
        values_of(pairs, "xt"@).len() == 1,
        values_of(pairs, "dn"@).len() == 1,
    ensures
        readable(pairs),
        parsed(pairs) is Ok,
        parsed(pairs)->Ok_0.dn == values_of(pairs, "dn"@)[0],
{
}

/// A text that is no URL is refused for its missing topic.
pub proof fn lemma_no_url_has_no_topic(text: Seq<char>)
    requires
        url_query_pairs(text) is None,
    ensures
        readable(parameters(text)),
        parsed(parameters(text)) == Err::<MagnetLinkView, MagnetMappingError>(
            MagnetMappingError(MagnetErrorKind::MissingExactTopic),
        ),
{
}

/// The parameters that the full form of a link carries: the name, then
/// the topic, then one `tr` for each tracker.
pub open spec fn full_pairs(link: MagnetLinkView) -> Seq<(Seq<char>, Seq<char>)> {
    seq![("dn"@, link.dn)] + short_pairs(link)
}

proof fn lemma_values_after_first(
    first: (Seq<char>, Seq<char>),
    rest: Seq<(Seq<char>, Seq<char>)>,
    key: Seq<char>,
)
    ensures
        values_of(seq![first] + rest, key) == if first.0 == key {
            seq![first.1] + values_of(rest, key)
        } else {
            values_of(rest, key)
        },
    decreases rest.len(),
{
    let whole = seq![first] + rest;
    if rest.len() == 0 {
        assert(whole.drop_last() =~= Seq::<(Seq<char>, Seq<char>)>::empty());
        assert(whole.last() == first);
        assert(values_of(whole.drop_last(), key) =~= Seq::<Seq<char>>::empty());
        assert(values_of(whole, key) =~= if first.0 == key {
            seq![first.1] + values_of(rest, key)
        } else {
            values_of(rest, key)
        });
    } else {
        lemma_values_after_first(first, rest.drop_last(), key);
        assert(whole.drop_last() =~= seq![first] + rest.drop_last());
        assert(whole.last() == rest.last());
        assert(values_of(whole, key) =~= if first.0 == key {
            seq![first.1] + values_of(rest, key)
        } else {
            values_of(rest, key)
        });
    }
}

/// Reading back the parameters that the full form carries gives the link
/// itself: the same topic, the same trackers in the same order, and the
/// same name, whatever characters the name holds.
pub proof fn lemma_full_pairs_read_back(link: MagnetLinkView)
    ensures
        readable(full_pairs(link)),
        parsed(full_pairs(link)) == Ok::<MagnetLinkView, MagnetMappingError>(link),
{
    reveal_strlit("xt");
    reveal_strlit("tr");
    reveal_strlit("dn");
    assert("dn"@[0] != "xt"@[0]);
    assert("dn"@[0] != "tr"@[0]);
    lemma_short_pairs_values(link.xt, link.tr);
    assert(short_pairs(link) == short_pairs(
        MagnetLinkView { xt: link.xt, tr: link.tr, dn: link.xt },
    ));
    lemma_values_after_first(("dn"@, link.dn), short_pairs(link), "xt"@);
    lemma_values_after_first(("dn"@, link.dn), short_pairs(link), "tr"@);
    lemma_values_after_first(("dn"@, link.dn), short_pairs(link), "dn"@);
    assert(values_of(full_pairs(link), "dn"@) =~= seq![link.dn]);
}

} // verus!
