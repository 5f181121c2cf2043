//! The shared list of picture pages found so far, and the rule for taking a
//! new one into it: no title holding a black-listed word, and no page URL
//! that is already listed, compared without regard to ASCII case.

use vstd::prelude::*;
use crate::site::Candidate;
use crate::text::{contains, contains_spec, eq_ignore_ascii_case, eq_ignore_ascii_case_spec, views};

verus! {

/// A picture page: its (lower-cased) title and the URL of the page.
pub struct ShortImgInfo {
    pub title: String,
    pub page_url: String,
}

impl View for ShortImgInfo {
    type V = (Seq<char>, Seq<char>);

    open spec fn view(&self) -> (Seq<char>, Seq<char>) {
        (self.title@, self.page_url@)
    }
}

/// The views of a sequence of picture pages.
pub open spec fn infos_view(v: Seq<ShortImgInfo>) -> Seq<(Seq<char>, Seq<char>)> {
    v.map_values(|i: ShortImgInfo| i@)
}

/// Whether `title` holds one of the words of `black_list`.
pub open spec fn blacklisted_spec(title: Seq<char>, black_list: Seq<Seq<char>>) -> bool {
    exists|i: int| 0 <= i < black_list.len() && contains_spec(title, #[trigger] black_list[i])
}

/// Whether some listed page has the URL `url`, up to ASCII case.
pub open spec fn duplicate_spec(links: Seq<(Seq<char>, Seq<char>)>, url: Seq<char>) -> bool {
    exists|i: int| 0 <= i < links.len() && eq_ignore_ascii_case_spec(#[trigger] links[i].1, url)
}

/// What the list keeps true: no two pages share a URL up to ASCII case, and
/// no title holds a black-listed word.
pub open spec fn collection_ok(links: Seq<(Seq<char>, Seq<char>)>, black_list: Seq<Seq<char>>) -> bool {
    &&& forall|i: int, j: int|
        0 <= i < j < links.len() ==> !eq_ignore_ascii_case_spec(#[trigger] links[i].1, #[trigger] links[j].1)
    &&& forall|i: int| 0 <= i < links.len() ==> !blacklisted_spec(#[trigger] links[i].0, black_list)
}

/// Whether `title` holds one of the words of `black_list`.
pub fn is_blacklisted(title: &str, black_list: &Vec<String>) -> (r: bool)
    ensures
        r == blacklisted_spec(title@, views(black_list@)),
{
    let mut found = false;
    let mut i: usize = 0;
    while i < black_list.len()
        invariant
            i <= black_list.len(),
            found == exists|k: int| 0 <= k < i && contains_spec(title@, #[trigger] views(black_list@)[k]),
        decreases black_list.len() - i,
    {
        if contains(title, black_list[i].as_str()) {
            found = true;
        }
        assert(views(black_list@)[i as int] == black_list@[i as int]@);
        i = i + 1;
    }
    found
}

/// Whether a page of `links` has the URL `url`, up to ASCII case.
pub fn is_duplicate(links: &Vec<ShortImgInfo>, url: &str) -> (r: bool)
    ensures
        r == duplicate_spec(infos_view(links@), url@),
{
    let mut i: usize = 0;
    while i < links.len()
        invariant
            i <= links.len(),
            forall|k: int| 0 <= k < i ==> !eq_ignore_ascii_case_spec(#[trigger] infos_view(links@)[k].1, url@),
        decreases links.len() - i,
    {
        assert(infos_view(links@)[i as int] == links@[i as int]@);
        if eq_ignore_ascii_case(links[i].page_url.as_str(), url) {
            assert(eq_ignore_ascii_case_spec(infos_view(links@)[i as int].1, url@));
            return true;
        }
        i = i + 1;
    }
    false
}

/// What became of a page offered to the list.
#[derive(PartialEq, Eq, Structural, Debug, Clone, Copy)]
pub enum Offer {
    /// The page was appended to the list.
    Added,
    /// Its title holds a black-listed word; the list is unchanged.
    Blacklisted,
    /// Its URL is listed already; the list is unchanged.
    Duplicate,
}

/// A picture link without a target.
#[derive(PartialEq, Eq, Structural, Debug, Clone, Copy)]
pub struct MissingPageUrl;

impl Offer {
    /// Whether a task's search for a page ends with this outcome: it ends
    /// once its page is added, and searches again otherwise.
    pub fn ends_search(&self) -> (r: bool)
        ensures
            r == (*self == Offer::Added),
    {
        match self {
            Offer::Added => true,
            _ => false,
        }
    }
}

/// The outcome of offering a page: the black list is looked at first.
pub open spec fn offer_outcome(
    links: Seq<(Seq<char>, Seq<char>)>,
    black_list: Seq<Seq<char>>,
    title: Seq<char>,
    url: Seq<char>,
) -> Offer {
    if blacklisted_spec(title, black_list) {
        Offer::Blacklisted
    } else if duplicate_spec(links, url) {
        Offer::Duplicate
    } else {
        Offer::Added
    }
}

/// The list after an offer with the given outcome.
pub open spec fn links_after(
    links: Seq<(Seq<char>, Seq<char>)>,
    outcome: Offer,
    title: Seq<char>,
    url: Seq<char>,
) -> Seq<(Seq<char>, Seq<char>)> {
    if outcome == Offer::Added {
        links.push((title, url))
    } else {
        links
    }
}

/// The pages collected so far, with the black list they are held to.
pub struct LinkCollector {
    black_list: Vec<String>,
    links: Vec<ShortImgInfo>,
}

impl LinkCollector {
    /// The black-listed words.
    pub closed spec fn black_list_view(&self) -> Seq<Seq<char>> {
        views(self.black_list@)
    }

    /// The collected pages, oldest first.
    pub closed spec fn links_view(&self) -> Seq<(Seq<char>, Seq<char>)> {
        infos_view(self.links@)
    }

    #[verifier::type_invariant]
    spec fn inv(&self) -> bool {
        collection_ok(self.links_view(), self.black_list_view())
    }

    /// An empty list held to `black_list`.
    pub fn new(black_list: Vec<String>) -> (r: Self)
        ensures
            r.black_list_view() == views(black_list@),
            r.links_view() == Seq::<(Seq<char>, Seq<char>)>::empty(),
    {
        let r = LinkCollector { black_list, links: Vec::new() };
        assert(r.links_view() =~= Seq::<(Seq<char>, Seq<char>)>::empty());
        r
    }

    /// The collected pages.
    pub fn links(&self) -> (r: &Vec<ShortImgInfo>)
        ensures
            infos_view(r@) == self.links_view(),
    {
        &self.links
    }

    /// The number of collected pages.
    pub fn len(&self) -> (r: usize)
        ensures
            r == self.links_view().len(),
    {
        self.links.len()
    }

    /// Every collected pair keeps the list's rule.
    pub fn check_invariant(&self)
        ensures
            collection_ok(self.links_view(), self.black_list_view()),
    {
        proof {
            use_type_invariant(self);
        }
    }

    /// Offers the page `page_url` titled `title`. It is appended unless its
    /// title holds a black-listed word or its URL is already listed (up to
    /// ASCII case); the black list is looked at first.
    pub fn offer(&mut self, title: String, page_url: String) -> (r: Offer)
        ensures
            r == offer_outcome(old(self).links_view(), old(self).black_list_view(), title@, page_url@),
            final(self).links_view() == links_after(old(self).links_view(), r, title@, page_url@),
            final(self).black_list_view() == old(self).black_list_view(),
            collection_ok(final(self).links_view(), final(self).black_list_view()),
            r == Offer::Added <==> !blacklisted_spec(title@, old(self).black_list_view()) && !duplicate_spec(
                old(self).links_view(),
                page_url@,
            ),
            r == Offer::Added ==> final(self).links_view() == old(self).links_view().push((title@, page_url@)),
            r != Offer::Added ==> final(self).links_view() == old(self).links_view(),
    {
        proof {
            use_type_invariant(&*self);
        }
        if is_blacklisted(title.as_str(), &self.black_list) {
            return Offer::Blacklisted;
        }
        if is_duplicate(&self.links, page_url.as_str()) {
            return Offer::Duplicate;
        }
        let ghost old_links = self.links_view();
        let ghost bl = self.black_list_view();
        let info = ShortImgInfo { title, page_url };
        let ghost v = info@;
        let mut links = Vec::new();
        std::mem::swap(&mut links, &mut self.links);
        links.push(info);
        assert(infos_view(links@) =~= old_links.push(v));
        proof {
            lemma_push_keeps_collection_ok(old_links, bl, v.0, v.1);
        }
        self.links = links;
        Offer::Added
    }

    /// Offers a picture found on a listing page. A title holding a
    /// black-listed word is turned away before its link is looked at; a
    /// link without a target is refused with `MissingPageUrl`, leaving the
    /// list unchanged; any other is offered as by `offer`.
    pub fn offer_candidate(&mut self, candidate: Candidate) -> (r: Result<Offer, MissingPageUrl>)
        ensures
            final(self).black_list_view() == old(self).black_list_view(),
            collection_ok(final(self).links_view(), final(self).black_list_view()),
            blacklisted_spec(candidate.title@, old(self).black_list_view()) ==> r == Ok::<
                Offer,
                MissingPageUrl,
            >(Offer::Blacklisted) && final(self).links_view() == old(self).links_view(),
            !blacklisted_spec(candidate.title@, old(self).black_list_view()) ==> match candidate.page_url {
                None => r == Err::<Offer, MissingPageUrl>(MissingPageUrl) && final(self).links_view()
                    == old(self).links_view(),
                Some(u) => r == Ok::<Offer, MissingPageUrl>(
                    offer_outcome(old(self).links_view(), old(self).black_list_view(), candidate.title@, u@),
                ) && final(self).links_view() == links_after(
                    old(self).links_view(),
                    offer_outcome(old(self).links_view(), old(self).black_list_view(), candidate.title@, u@),
                    candidate.title@,
                    u@,
                ),
            },
    {
        proof {
            use_type_invariant(&*self);
        }
        if is_blacklisted(candidate.title.as_str(), &self.black_list) {
            return Ok(Offer::Blacklisted);
        }
        match candidate.page_url {
            None => Err(MissingPageUrl),
            Some(u) => Ok(self.offer(candidate.title, u)),
        }
    }

    /// Gives up the list, returning the collected pages.
    pub fn into_links(self) -> (r: Vec<ShortImgInfo>)
        ensures
            infos_view(r@) == self.links_view(),
    {
        self.links
    }
}

/// What an offer comes to, in terms of the page and the list alone: a page
/// whose title holds a black-listed word is refused as black-listed; any
/// other is refused as a duplicate exactly when its URL equals a listed one
/// up to ASCII case, and is otherwise added at the end of the list, which
/// grows by one.
pub proof fn lemma_offer_outcome_law(
    links: Seq<(Seq<char>, Seq<char>)>,
    black_list: Seq<Seq<char>>,
    title: Seq<char>,
    url: Seq<char>,
)
    ensures
        offer_outcome(links, black_list, title, url) == Offer::Blacklisted <==> blacklisted_spec(
            title,
            black_list,
        ),
        offer_outcome(links, black_list, title, url) == Offer::Duplicate <==> !blacklisted_spec(
            title,
            black_list,
        ) && duplicate_spec(links, url),
        offer_outcome(links, black_list, title, url) == Offer::Added <==> !blacklisted_spec(title, black_list)
            && !duplicate_spec(links, url),
        !blacklisted_spec(title, black_list) && !duplicate_spec(links, url) ==> links_after(
            links,
            offer_outcome(links, black_list, title, url),
            title,
            url,
        ).len() == links.len() + 1 && links_after(links, offer_outcome(links, black_list, title, url), title, url).last()
            == (title, url),
{
}

/// Appending a page whose offer comes out `Added` keeps the list's rule.
pub proof fn lemma_push_keeps_collection_ok(
    links: Seq<(Seq<char>, Seq<char>)>,
    black_list: Seq<Seq<char>>,
    title: Seq<char>,
    url: Seq<char>,
)
    requires
        collection_ok(links, black_list),
        offer_outcome(links, black_list, title, url) == Offer::Added,
    ensures
        collection_ok(links.push((title, url)), black_list),
{
    let n = links.push((title, url));
    assert forall|i: int, j: int| 0 <= i < j < n.len() implies !eq_ignore_ascii_case_spec(
        #[trigger] n[i].1,
        #[trigger] n[j].1,
    ) by {
        if j == links.len() {
            assert(n[i] == links[i]);
            if eq_ignore_ascii_case_spec(n[i].1, n[j].1) {
                assert(eq_ignore_ascii_case_spec(links[i].1, url));
            }
        } else {
            assert(n[i] == links[i] && n[j] == links[j]);
        }
    }
    assert forall|i: int| 0 <= i < n.len() implies !blacklisted_spec(#[trigger] n[i].0, black_list) by {
        if i < links.len() {
            assert(n[i] == links[i]);
        }
    }
}

/// The list after offering each page of `offers` in turn.
pub open spec fn run_offers(
    links: Seq<(Seq<char>, Seq<char>)>,
    black_list: Seq<Seq<char>>,
    offers: Seq<(Seq<char>, Seq<char>)>,
) -> Seq<(Seq<char>, Seq<char>)>
    decreases offers.len(),
{
    if offers.len() == 0 {
        links
    } else {
        let before = run_offers(links, black_list, offers.drop_last());
        let (title, url) = offers.last();
        links_after(before, offer_outcome(before, black_list, title, url), title, url)
    }
}

/// How many of the pages of `offers` come out `Added` when offered in turn.
pub open spec fn added_count(
    links: Seq<(Seq<char>, Seq<char>)>,
    black_list: Seq<Seq<char>>,
    offers: Seq<(Seq<char>, Seq<char>)>,
) -> nat
    decreases offers.len(),
{
    if offers.len() == 0 {
        0
    } else {
        let before = run_offers(links, black_list, offers.drop_last());
        let (title, url) = offers.last();
        added_count(links, black_list, offers.drop_last()) + if offer_outcome(before, black_list, title, url)
            == Offer::Added {
            1nat
        } else {
            0nat
        }
    }
}

/// Whatever pages are offered, in whatever order: the list keeps its rule,
/// keeps what it held first, and grows by exactly one page per `Added`.
pub proof fn lemma_run_offers(
    links: Seq<(Seq<char>, Seq<char>)>,
    black_list: Seq<Seq<char>>,
    offers: Seq<(Seq<char>, Seq<char>)>,
)
    requires
        collection_ok(links, black_list),
    ensures
        collection_ok(run_offers(links, black_list, offers), black_list),
        run_offers(links, black_list, offers).len() == links.len() + added_count(links, black_list, offers),
        run_offers(links, black_list, offers).subrange(0, links.len() as int) == links,
    decreases offers.len(),
{
    if offers.len() > 0 {
        lemma_run_offers(links, black_list, offers.drop_last());
        let before = run_offers(links, black_list, offers.drop_last());
        let (title, url) = offers.last();
        if offer_outcome(before, black_list, title, url) == Offer::Added {
            lemma_push_keeps_collection_ok(before, black_list, title, url);
            assert(before.push((title, url)).subrange(0, links.len() as int) =~= before.subrange(
                0,
                links.len() as int,
            ));
        }
    }
}

/// Once a page is added, offering again a URL equal to it up to ASCII case
/// is never added, whatever its title.
pub proof fn lemma_added_url_is_not_added_again(
    links: Seq<(Seq<char>, Seq<char>)>,
    black_list: Seq<Seq<char>>,
    title: Seq<char>,
    url: Seq<char>,
    other_title: Seq<char>,
    other_url: Seq<char>,
)
    requires
        offer_outcome(links, black_list, title, url) == Offer::Added,
        eq_ignore_ascii_case_spec(url, other_url),
    ensures
        offer_outcome(links.push((title, url)), black_list, other_title, other_url) != Offer::Added,
{
    let n = links.push((title, url));
    assert(n[links.len() as int].1 == url);
    assert(duplicate_spec(n, other_url));
}

/// A page whose title holds a black-listed word is never added, whatever
/// the list holds.
pub proof fn lemma_blacklisted_title_is_never_added(
    links: Seq<(Seq<char>, Seq<char>)>,
    black_list: Seq<Seq<char>>,
    title: Seq<char>,
    url: Seq<char>,
    word: int,
)
    requires
        0 <= word < black_list.len(),
        contains_spec(title, black_list[word]),
    ensures
        offer_outcome(links, black_list, title, url) == Offer::Blacklisted,
        links_after(links, offer_outcome(links, black_list, title, url), title, url) == links,
{
}

} // verus!
