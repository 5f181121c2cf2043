//! What the library reads out of an HTML page: the elements that a CSS
//! selector matches, with their text and one attribute each.

use vstd::prelude::*;
use crate::text::views;

verus! {

/// One element matched by a selector: its descendant text nodes, in the
/// order of the tree below it, and the value of the attribute that was asked
/// for.
pub struct ScrapedElement {
    pub texts: Vec<String>,
    pub attribute: Option<String>,
}

/// The characters of an optional string.
pub open spec fn option_view(o: Option<String>) -> Option<Seq<char>> {
    match o {
        Some(s) => Some(s@),
        None => None,
    }
}

impl View for ScrapedElement {
    type V = (Seq<Seq<char>>, Option<Seq<char>>);

    open spec fn view(&self) -> (Seq<Seq<char>>, Option<Seq<char>>) {
        (views(self.texts@), option_view(self.attribute))
    }
}

/// The views of a sequence of scraped elements.
pub open spec fn elements_view(v: Seq<ScrapedElement>) -> Seq<(Seq<Seq<char>>, Option<Seq<char>>)> {
    v.map_values(|e: ScrapedElement| e@)
}

/// What `scraper` finds in the HTML document `html` for the CSS selector
/// `selector`: `None` when the selector does not parse, otherwise every
/// matching element in the order of scraper's node tree (the order in which
/// the parser created the nodes), as its text nodes and the value of the
/// attribute named `attribute`.
pub uninterp spec fn scraped(html: Seq<char>, selector: Seq<char>, attribute: Seq<char>) -> Option<
    Seq<(Seq<Seq<char>>, Option<Seq<char>>)>,
>;

/// `scraper::Selector::parse`, `scraper::Html::parse_document` and
/// `Html::select`, with each match turned into plain values through
/// `ElementRef::text` and `Element::attr`. The contract claims only that the
/// result is a function of the three strings (named `scraped`): HTML parsing
/// and selector matching themselves are scraper's and are not stated.
#[verifier::external_body]
pub(crate) fn select_elements(html: &str, selector: &str, attribute: &str) -> (r: Option<Vec<ScrapedElement>>)
    ensures
        match r {
            Some(v) => scraped(html@, selector@, attribute@) == Some(elements_view(v@)),
            None => scraped(html@, selector@, attribute@) is None,
        },
{
    let selector = scraper::Selector::parse(selector).ok()?;
    let document = scraper::Html::parse_document(html);
    let mut found = Vec::new();
    for element in document.select(&selector) {
        let texts = element.text().map(|t| t.to_string()).collect();
        let attribute = element.value().attr(attribute).map(|a| a.to_string());
        found.push(ScrapedElement { texts, attribute });
    }
    Some(found)
}

} // verus!
