//! The wallpaper site: its page addresses, its CSS selectors, and what the
//! library reads out of its pages.

use vstd::prelude::*;
use crate::decimal::{decimal, lemma_parse_decimal_roundtrip, parse_usize, parse_usize_spec, push_decimal};
use crate::random::{chacha8_u32_draw, pick_picture_number, pick_position, SeededRng};
use crate::scrape::{elements_view, scraped, select_elements, ScrapedElement};
use crate::text::{
    concat_all, concat_texts, remove_newlines, to_lowercase, trim, trim_spec, unicode_lowercase,
    views, without_newlines,
};

verus! {

/// Where the listing pages of game wallpapers start.
pub const LISTING_BASE: &'static str = "https://hdqwalls.com/category/games-wallpapers/";

/// The item of the pagination list that holds the number of the last page.
pub const PAGINATION_SELECTOR: &'static str = ".pagination_container > div > ul > li:nth-last-child(2)";

/// The links to picture pages on a listing page.
pub const PICTURE_LINK_SELECTOR: &'static str = "a.caption";

/// The download button on a picture page.
pub const DOWNLOAD_BUTTON_SELECTOR: &'static str = "div.container.content.zero_padding > div.col-lg-10.col-md-12.col-sm-12.col-xs-12 > div.col-lg-8.col-md-8.col-sm-12.col-xs-12.zero > a";

/// The heading of a picture page.
pub const HEADER_SELECTOR: &'static str = "div.page-header > h1";

/// The attribute that holds a link's target.
pub const LINK_ATTRIBUTE: &'static str = "href";

/// Pictures on one listing page sorted by views.
pub const PICTURES_PER_PAGE: usize = 16;

/// The view of a `Result` whose success is a string.
pub open spec fn string_result_view<E>(r: Result<String, E>) -> Result<Seq<char>, E> {
    match r {
        Ok(s) => Ok(s@),
        Err(e) => Err(e),
    }
}

/// The listing page `page` for the screen resolution `resolution`.
pub open spec fn listing_page_url_spec(resolution: Seq<char>, page: nat) -> Seq<char> {
    LISTING_BASE@ + resolution + "/page/"@ + decimal(page)
}

/// The listing page `page` for `resolution`, sorted by views.
pub open spec fn sorted_listing_page_url_spec(resolution: Seq<char>, page: nat) -> Seq<char> {
    LISTING_BASE@ + resolution + "/sort/views/page/"@ + decimal(page)
}

/// The page number can be read back from a listing address: after the base,
/// the resolution and `/page/` comes a text that reads as the page number.
pub proof fn lemma_listing_page_url_names_its_page(resolution: Seq<char>, page: u32)
    ensures
        exists|t: Seq<char>|
            listing_page_url_spec(resolution, page as nat) == LISTING_BASE@ + resolution + "/page/"@ + t
                && #[trigger] parse_usize_spec(t) == Some(page as usize),
{
    lemma_parse_decimal_roundtrip(page as usize);
    assert(parse_usize_spec(decimal(page as nat)) == Some(page as usize));
}

/// The page number can be read back from a listing address sorted by views.
pub proof fn lemma_sorted_listing_page_url_names_its_page(resolution: Seq<char>, page: usize)
    ensures
        exists|t: Seq<char>|
            sorted_listing_page_url_spec(resolution, page as nat) == LISTING_BASE@ + resolution
                + "/sort/views/page/"@ + t && #[trigger] parse_usize_spec(t) == Some(page),
{
    lemma_parse_decimal_roundtrip(page);
    assert(parse_usize_spec(decimal(page as nat)) == Some(page));
}

/// The address of listing page `page` for the resolution `resolution`.
pub fn listing_page_url(resolution: &str, page: u32) -> (r: String)
    ensures
        r@ == listing_page_url_spec(resolution@, page as nat),
{
    let mut s = String::from_str(LISTING_BASE);
    s.append(resolution);
    s.append("/page/");
    push_decimal(&mut s, page as u64);
    s
}

/// The address of listing page `page` for `resolution`, sorted by views.
pub fn sorted_listing_page_url(resolution: &str, page: usize) -> (r: String)
    ensures
        r@ == sorted_listing_page_url_spec(resolution@, page as nat),
{
    let mut s = String::from_str(LISTING_BASE);
    s.append(resolution);
    s.append("/sort/views/page/");
    push_decimal(&mut s, page as u64);
    s
}

/// The selector of the picture link in child `position` of its container.
pub open spec fn picture_link_selector_spec(position: nat) -> Seq<char> {
    "div:nth-child("@ + decimal(position) + ") > a.caption"@
}

/// The selector of the wallpaper item at child `position`.
pub open spec fn wall_item_selector_spec(position: nat) -> Seq<char> {
    "div.wall-resp:nth-child("@ + decimal(position) + ")"@
}

/// The selector of the picture link in child `position` of its container.
pub fn picture_link_selector(position: usize) -> (r: String)
    ensures
        r@ == picture_link_selector_spec(position as nat),
{
    let mut s = String::from_str("div:nth-child(");
    push_decimal(&mut s, position as u64);
    s.append(") > a.caption");
    s
}

/// The selector of the wallpaper item at child `position`.
pub fn wall_item_selector(position: usize) -> (r: String)
    ensures
        r@ == wall_item_selector_spec(position as nat),
{
    let mut s = String::from_str("div.wall-resp:nth-child(");
    push_decimal(&mut s, position as u64);
    s.append(")");
    s
}

/// Why the number of listing pages could not be read.
#[derive(PartialEq, Eq, Structural, Debug, Clone, Copy)]
pub enum PageCountError {
    /// The selector did not parse.
    BadSelector,
    /// The page has no pagination item.
    NoPagination,
    /// The pagination item's text is not a number.
    NotANumber,
}

/// The number of pages that the first matched pagination item names, cut
/// to 32 bits as `as u32` does.
pub open spec fn page_count_spec(elements: Seq<(Seq<Seq<char>>, Option<Seq<char>>)>) -> Result<u32, PageCountError> {
    if elements.len() == 0 {
        Err(PageCountError::NoPagination)
    } else {
        match parse_usize_spec(concat_all(elements[0].0)) {
            None => Err(PageCountError::NotANumber),
            Some(n) => Ok((n as int % 0x1_0000_0000) as u32),
        }
    }
}

/// Reads the number of listing pages from the matched pagination items.
pub fn page_count_from_elements(elements: &Vec<ScrapedElement>) -> (r: Result<u32, PageCountError>)
    ensures
        r == page_count_spec(elements_view(elements@)),
{
    if elements.len() == 0 {
        return Err(PageCountError::NoPagination);
    }
    let text = concat_texts(&elements[0].texts);
    match parse_usize(text.as_str()) {
        None => Err(PageCountError::NotANumber),
        Some(n) => Ok(((n as u64) % 0x1_0000_0000u64) as u32),
    }
}

/// Reads the number of listing pages from the HTML of a listing page.
pub fn page_count(html: &str) -> (r: Result<u32, PageCountError>)
    ensures
        r == match scraped(html@, PAGINATION_SELECTOR@, LINK_ATTRIBUTE@) {
            None => Err(PageCountError::BadSelector),
            Some(e) => page_count_spec(e),
        },
{
    match select_elements(html, PAGINATION_SELECTOR, LINK_ATTRIBUTE) {
        None => Err(PageCountError::BadSelector),
        Some(elements) => page_count_from_elements(&elements),
    }
}

/// A picture found on a listing page: its lower-cased title and, when the
/// link has one, the address of its page.
pub struct Candidate {
    pub title: String,
    pub page_url: Option<String>,
}

impl View for Candidate {
    type V = (Seq<char>, Option<Seq<char>>);

    open spec fn view(&self) -> (Seq<char>, Option<Seq<char>>) {
        (self.title@, crate::scrape::option_view(self.page_url))
    }
}

/// Why no picture could be taken from a listing page.
#[derive(PartialEq, Eq, Structural, Debug, Clone, Copy)]
pub enum PickError {
    /// A selector did not parse.
    BadSelector,
    /// The page lists no picture.
    NoPictures,
    /// The page lists more pictures than positions can be counted.
    TooManyPictures,
    /// Nothing sits at the chosen position.
    NoPictureAtPosition,
}

/// The view of the result of a pick.
pub open spec fn pick_view(r: Result<Candidate, PickError>) -> Result<(Seq<char>, Option<Seq<char>>), PickError> {
    match r {
        Ok(c) => Ok(c@),
        Err(e) => Err(e),
    }
}

/// The first matched link as a candidate: its text joined and lower-cased,
/// and its target.
pub open spec fn candidate_spec(elements: Seq<(Seq<Seq<char>>, Option<Seq<char>>)>) -> Result<
    (Seq<char>, Option<Seq<char>>),
    PickError,
> {
    if elements.len() == 0 {
        Err(PickError::NoPictureAtPosition)
    } else {
        Ok((unicode_lowercase(concat_all(elements[0].0)), elements[0].1))
    }
}

/// The candidate at child `position` of the listing page `html`.
pub open spec fn candidate_at_spec(html: Seq<char>, position: nat) -> Result<(Seq<char>, Option<Seq<char>>), PickError> {
    match scraped(html, picture_link_selector_spec(position), LINK_ATTRIBUTE@) {
        None => Err(PickError::BadSelector),
        Some(e) => candidate_spec(e),
    }
}

/// Takes the first matched picture link as a candidate.
pub fn candidate_from_elements(elements: &Vec<ScrapedElement>) -> (r: Result<Candidate, PickError>)
    ensures
        pick_view(r) == candidate_spec(elements_view(elements@)),
{
    if elements.len() == 0 {
        return Err(PickError::NoPictureAtPosition);
    }
    let text = concat_texts(&elements[0].texts);
    let title = to_lowercase(text.as_str());
    let page_url = match &elements[0].attribute {
        Some(a) => Some(a.clone()),
        None => None,
    };
    Ok(Candidate { title, page_url })
}

/// The picture whose link sits in child `position` of its container on the
/// listing page `html`.
pub fn candidate_at(html: &str, position: usize) -> (r: Result<Candidate, PickError>)
    ensures
        pick_view(r) == candidate_at_spec(html@, position as nat),
{
    let selector = picture_link_selector(position);
    match select_elements(html, selector.as_str(), LINK_ATTRIBUTE) {
        None => Err(PickError::BadSelector),
        Some(elements) => candidate_from_elements(&elements),
    }
}

/// What a pick among `count` matched picture links on the page `html` may
/// give: an error when there is none or too many to count positions, else
/// the candidate at some position from 2 up to but not including `count + 2`.
pub open spec fn pick_among_spec(html: Seq<char>, count: nat, r: Result<(Seq<char>, Option<Seq<char>>), PickError>) -> bool {
    if count == 0 {
        r == Err::<(Seq<char>, Option<Seq<char>>), PickError>(PickError::NoPictures)
    } else if count > usize::MAX - 2 {
        r == Err::<(Seq<char>, Option<Seq<char>>), PickError>(PickError::TooManyPictures)
    } else {
        exists|position: int|
            2 <= position < count + 2 && r == #[trigger] candidate_at_spec(html, position as nat)
    }
}

/// Takes the picture at a random position among the matched picture links
/// `elements` of the listing page `html`: the generator's draw decides it.
pub fn pick_candidate_among(rng: &mut SeededRng, html: &str, elements: &Vec<ScrapedElement>) -> (r: Result<
    Candidate,
    PickError,
>)
    ensures
        final(rng).seed() == old(rng).seed(),
        final(rng).stream() == old(rng).stream(),
        pick_among_spec(html@, elements.len() as nat, pick_view(r)),
        0 < elements.len() <= usize::MAX - 2 && elements.len() - 1 <= u32::MAX ==> pick_view(r)
            == candidate_at_spec(
            html@,
            (2 + chacha8_u32_draw(
                old(rng).seed(),
                old(rng).stream(),
                old(rng).pos(),
                0,
                (elements.len() - 1) as u32,
            )) as nat,
        ),
{
    let count: usize = elements.len();
    if count == 0 {
        return Err(PickError::NoPictures);
    }
    if count > usize::MAX - 2 {
        return Err(PickError::TooManyPictures);
    }
    let position: usize = pick_position(rng, count);
    let r = candidate_at(html, position);
    let ghost p: int = position as int;
    assert(2 <= p < count + 2 && pick_view(r) == candidate_at_spec(html@, p as nat));
    r
}

/// Counts the picture links of the listing page `html` and takes the one at
/// a random position among them.
pub fn pick_candidate(rng: &mut SeededRng, html: &str) -> (r: Result<Candidate, PickError>)
    ensures
        final(rng).seed() == old(rng).seed(),
        final(rng).stream() == old(rng).stream(),
        match scraped(html@, PICTURE_LINK_SELECTOR@, LINK_ATTRIBUTE@) {
            None => r == Err::<Candidate, PickError>(PickError::BadSelector),
            Some(e) => pick_among_spec(html@, e.len(), pick_view(r)) && (0 < e.len() <= usize::MAX - 2
                && e.len() - 1 <= u32::MAX ==> pick_view(r) == candidate_at_spec(
                html@,
                (2 + chacha8_u32_draw(old(rng).seed(), old(rng).stream(), old(rng).pos(), 0, (e.len() - 1) as u32))
                    as nat,
            )),
        },
{
    let elements = match select_elements(html, PICTURE_LINK_SELECTOR, LINK_ATTRIBUTE) {
        None => return Err(PickError::BadSelector),
        Some(e) => e,
    };
    assert(elements_view(elements@).len() == elements.len());
    pick_candidate_among(rng, html, &elements)
}

/// Why no link target could be read from a page.
#[derive(PartialEq, Eq, Structural, Debug, Clone, Copy)]
pub enum LinkError {
    /// The selector did not parse.
    BadSelector,
    /// Nothing on the page matches the selector.
    NoMatch,
    /// The first match has no target.
    MissingHref,
}

/// The target of the first matched link.
pub open spec fn first_link_spec(elements: Seq<(Seq<Seq<char>>, Option<Seq<char>>)>) -> Result<Seq<char>, LinkError> {
    if elements.len() == 0 {
        Err(LinkError::NoMatch)
    } else {
        match elements[0].1 {
            None => Err(LinkError::MissingHref),
            Some(u) => Ok(u),
        }
    }
}

/// The target of the first link that `selector` matches on the page `html`.
pub open spec fn page_link_spec(html: Seq<char>, selector: Seq<char>) -> Result<Seq<char>, LinkError> {
    match scraped(html, selector, LINK_ATTRIBUTE@) {
        None => Err(LinkError::BadSelector),
        Some(e) => first_link_spec(e),
    }
}

/// Reads the target of the first matched link.
pub fn first_link_from_elements(elements: &Vec<ScrapedElement>) -> (r: Result<String, LinkError>)
    ensures
        string_result_view(r) == first_link_spec(elements_view(elements@)),
{
    if elements.len() == 0 {
        return Err(LinkError::NoMatch);
    }
    match &elements[0].attribute {
        None => Err(LinkError::MissingHref),
        Some(u) => Ok(u.clone()),
    }
}

/// The target of the first link that `selector` matches on the page `html`.
fn page_link(html: &str, selector: &str) -> (r: Result<String, LinkError>)
    ensures
        string_result_view(r) == page_link_spec(html@, selector@),
{
    match select_elements(html, selector, LINK_ATTRIBUTE) {
        None => Err(LinkError::BadSelector),
        Some(elements) => first_link_from_elements(&elements),
    }
}

/// Reads the image address behind the download button of a picture page.
pub fn download_url(html: &str) -> (r: Result<String, LinkError>)
    ensures
        string_result_view(r) == page_link_spec(html@, DOWNLOAD_BUTTON_SELECTOR@),
{
    page_link(html, DOWNLOAD_BUTTON_SELECTOR)
}

/// Reads the picture page address of the wallpaper item at child
/// `position` of a listing page sorted by views.
pub fn wall_item_link(html: &str, position: usize) -> (r: Result<String, LinkError>)
    ensures
        string_result_view(r) == page_link_spec(html@, wall_item_selector_spec(position as nat)),
{
    let selector = wall_item_selector(position);
    page_link(html, selector.as_str())
}

/// Why no heading could be read from a picture page.
#[derive(PartialEq, Eq, Structural, Debug, Clone, Copy)]
pub enum HeaderError {
    /// The selector did not parse.
    BadSelector,
    /// The page has no heading.
    NoHeader,
}

/// The text of the first matched heading, without line feeds.
pub open spec fn header_title_spec(elements: Seq<(Seq<Seq<char>>, Option<Seq<char>>)>) -> Result<Seq<char>, HeaderError> {
    if elements.len() == 0 {
        Err(HeaderError::NoHeader)
    } else {
        Ok(without_newlines(concat_all(elements[0].0)))
    }
}

/// Reads the heading text from the matched headings.
pub fn header_title_from_elements(elements: &Vec<ScrapedElement>) -> (r: Result<String, HeaderError>)
    ensures
        string_result_view(r) == header_title_spec(elements_view(elements@)),
{
    if elements.len() == 0 {
        return Err(HeaderError::NoHeader);
    }
    let text = concat_texts(&elements[0].texts);
    Ok(remove_newlines(text.as_str()))
}

/// Reads the heading text from the HTML of a picture page.
pub fn header_title(html: &str) -> (r: Result<String, HeaderError>)
    ensures
        string_result_view(r) == match scraped(html@, HEADER_SELECTOR@, LINK_ATTRIBUTE@) {
            None => Err(HeaderError::BadSelector),
            Some(e) => header_title_spec(e),
        },
{
    match select_elements(html, HEADER_SELECTOR, LINK_ATTRIBUTE) {
        None => Err(HeaderError::BadSelector),
        Some(elements) => header_title_from_elements(&elements),
    }
}

/// The form of a heading that the black list is matched against: trimmed,
/// then lower-cased.
pub fn title_key(header: &str) -> (r: String)
    ensures
        r@ == unicode_lowercase(trim_spec(header@)),
{
    let t = trim(header);
    to_lowercase(t.as_str())
}

/// The number of pictures on `pages` listing pages sorted by views.
pub fn total_pictures(pages: usize) -> (r: usize)
    requires
        pages * PICTURES_PER_PAGE <= usize::MAX,
    ensures
        r == pages * PICTURES_PER_PAGE,
{
    pages * PICTURES_PER_PAGE
}

/// The listing page (from 0) and the position on it of picture `number`.
pub fn locate_picture(number: usize) -> (r: (usize, usize))
    ensures
        r.0 == number / PICTURES_PER_PAGE,
        r.1 == number % PICTURES_PER_PAGE,
{
    (number / PICTURES_PER_PAGE, number % PICTURES_PER_PAGE)
}

/// One picture chosen from the listing sorted by views: its number, the
/// listing page it sits on (from 0) and its position there.
pub struct SortedPick {
    pub number: usize,
    pub page: usize,
    pub position: usize,
}

/// Chooses `count` pictures at random among the `pages` listing pages
/// sorted by views, each located by page and position.
pub fn plan_sorted_view_picks(pages: usize, count: u32) -> (r: Vec<SortedPick>)
    requires
        count > 0 ==> 0 < pages,
        pages * PICTURES_PER_PAGE <= usize::MAX,
    ensures
        r.len() == count,
        forall|i: int|
            0 <= i < r.len() ==> {
                &&& (#[trigger] r[i]).number < pages * PICTURES_PER_PAGE
                &&& r[i].page == r[i].number / PICTURES_PER_PAGE
                &&& r[i].position == r[i].number % PICTURES_PER_PAGE
            },
{
    let total: usize = total_pictures(pages);
    assert(0 < pages ==> 0 < total) by (nonlinear_arith)
        requires
            total == pages * 16,
    ;
    let mut picks: Vec<SortedPick> = Vec::new();
    let mut i: u32 = 0;
    while i < count
        invariant
            i <= count,
            picks.len() == i,
            total == pages * PICTURES_PER_PAGE,
            count > 0 ==> 0 < total,
            forall|k: int|
                0 <= k < picks.len() ==> {
                    &&& (#[trigger] picks[k]).number < pages * PICTURES_PER_PAGE
                    &&& picks[k].page == picks[k].number / PICTURES_PER_PAGE
                    &&& picks[k].position == picks[k].number % PICTURES_PER_PAGE
                },
        decreases count - i,
    {
        let number: usize = pick_picture_number(total);
        let located: (usize, usize) = locate_picture(number);
        picks.push(SortedPick { number, page: located.0, position: located.1 });
        i = i + 1;
    }
    picks
}

/// A picture number below the total of `pages` listing pages sits on one of
/// those pages, and its page and position give the number back.
pub proof fn lemma_locate_picture(pages: nat, number: nat)
    requires
        number < pages * 16,
    ensures
        number / 16 < pages,
        number % 16 < 16,
        (number / 16) * 16 + number % 16 == number,
{
    assert((number / 16) * 16 + number % 16 == number) by (nonlinear_arith);
    assert(number / 16 < pages) by (nonlinear_arith)
        requires
            number < pages * 16,
    ;
}

} // verus!
