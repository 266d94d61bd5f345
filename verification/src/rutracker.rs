//! Finding the magnet on a forum page.

use vstd::prelude::*;

verus! {

pub const MAGNET_LINK: &'static str = "a.magnet-link";

pub const HREF: &'static str = "href";

/// What `scraper` finds in a page: the value of the attribute `name` on
/// the first element that matches `selector`. There is none where the
/// selector is refused, where nothing matches, or where the first match
/// lacks the attribute.
pub uninterp spec fn html_first_attr(html: Seq<char>, selector: Seq<char>, name: Seq<char>)
    -> Option<Seq<char>>;

/// Parses the page with `scraper::Html::parse_document` and the selector
/// with `scraper::Selector::parse`, takes the first element of
/// `Html::select` and reads the attribute with `Element::attr`. The
/// contract only names the outcome.
#[verifier::external_body]
fn first_attr(html: &str, selector: &str, name: &str) -> (out: Option<String>)
    ensures
        out is Some <==> html_first_attr(html@, selector@, name@) is Some,
        out is Some ==> out->0@ == html_first_attr(html@, selector@, name@)->0,
{
    match scraper::Selector::parse(selector) {
        Ok(parsed) => scraper::Html::parse_document(html).select(&parsed).next().and_then(
            |element| element.value().attr(name),
        ).map(|value| value.to_string()),
        Err(_) => None,
    }
}

/// The magnet of a forum page: where the first link of the class
/// `magnet-link` points to.
pub fn find_magnet(html: String) -> (out: Option<String>)
    ensures
        out is Some <==> html_first_attr(html@, MAGNET_LINK@, HREF@) is Some,
        out is Some ==> out->0@ == html_first_attr(html@, MAGNET_LINK@, HREF@)->0,
{
    first_attr(html.as_str(), MAGNET_LINK, HREF)
}

} // verus!
