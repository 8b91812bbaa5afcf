use vstd::prelude::*;
use vstd::string::*;

use crate::strutil::str_eq;

verus! {

/// A point in time with its original UTC offset: seconds since the Unix
/// epoch, and the offset east of UTC that the source text carried.
#[derive(Debug, PartialEq, Eq, Structural, Clone, Copy)]
pub struct Timestamp {
    pub seconds: i64,
    pub offset_seconds: i32,
}

/// One link of an Atom entry: its relation and its target.
#[derive(Debug, Clone)]
pub struct AtomLink {
    pub rel: String,
    pub href: String,
}

/// One entry of an Atom feed. The format guarantees an id, a title and an
/// update time; links and categories may be empty.
#[derive(Debug, Clone)]
pub struct AtomEntry {
    pub id: String,
    pub title: String,
    pub links: Vec<AtomLink>,
    pub updated: Timestamp,
    pub categories: Vec<String>,
}

/// One item of an RSS channel. Every field may be absent; absence is a
/// valid value, not an error.
#[derive(Debug, Clone)]
pub struct RssItem {
    pub guid: Option<String>,
    pub title: Option<String>,
    pub link: Option<String>,
    pub pub_date: Option<String>,
    pub categories: Vec<String>,
}

/// What parsing `s` under the RFC 2822 date grammar yields, or nothing
/// when `s` does not follow it. The value is fixed by the text alone.
pub uninterp spec fn rfc2822_of(s: Seq<char>) -> Option<Timestamp>;

/// Relies on chrono's DateTime::parse_from_rfc2822: the result depends on
/// the text alone.
#[verifier::external_body]
fn parse_rfc2822(s: &str) -> (r: Option<Timestamp>)
    ensures
        r == rfc2822_of(s@),
{
    match chrono::DateTime::parse_from_rfc2822(s) {
        Ok(d) => Some(
            Timestamp { seconds: d.timestamp(), offset_seconds: d.offset().local_minus_utc() },
        ),
        Err(_) => None,
    }
}

/// The view of an optional borrowed string.
pub open spec fn opt_str_view(o: Option<&str>) -> Option<Seq<char>> {
    match o {
        Some(s) => Some(s@),
        None => None,
    }
}

/// The view of an optional owned string.
pub open spec fn opt_string_view(o: Option<String>) -> Option<Seq<char>> {
    match o {
        Some(s) => Some(s@),
        None => None,
    }
}

/// The views of an optional list of borrowed strings.
pub open spec fn opt_vec_str_view(o: Option<Vec<&str>>) -> Option<Seq<Seq<char>>> {
    match o {
        Some(v) => Some(v@.map_values(|s: &str| s@)),
        None => None,
    }
}

/// The link's relation is "alternate".
pub open spec fn is_alternate(l: AtomLink) -> bool {
    l.rel@ == "alternate"@
}

/// Some link in the list has the relation "alternate".
pub open spec fn has_alternate(links: Seq<AtomLink>) -> bool {
    exists|i: int| 0 <= i < links.len() && is_alternate(links[i])
}

/// The position of the first link whose relation is "alternate".
pub open spec fn first_alternate(links: Seq<AtomLink>) -> int {
    choose|i: int|
        0 <= i < links.len() && is_alternate(links[i]) && (forall|j: int|
            0 <= j < i ==> !is_alternate(links[j]))
}

proof fn lemma_first_alternate_is(links: Seq<AtomLink>, i: int)
    requires
        0 <= i < links.len(),
        is_alternate(links[i]),
        forall|j: int| 0 <= j < i ==> !is_alternate(links[j]),
    ensures
        first_alternate(links) == i,
{
    assert(0 <= i < links.len() && is_alternate(links[i]) && (forall|j: int|
        0 <= j < i ==> !is_alternate(links[j])));
    let k = first_alternate(links);
    assert(0 <= k < links.len() && is_alternate(links[k]) && (forall|j: int|
        0 <= j < k ==> !is_alternate(links[j])));
    if k < i {
        assert(!is_alternate(links[k]));
    }
    if i < k {
        assert(!is_alternate(links[i]));
    }
}

/// A uniform read-only view over one feed element of either format.
///
/// Every accessor may report absence; absence is a valid value everywhere.
pub trait FeedReader {
    /// The element's title, if any.
    spec fn spec_title(&self) -> Option<Seq<char>>;

    /// The element's chosen link, if any.
    spec fn spec_link(&self) -> Option<Seq<char>>;

    /// The element's update time, if any.
    spec fn spec_updated(&self) -> Option<Timestamp>;

    /// The element's category names, if any.
    spec fn spec_category(&self) -> Option<Seq<Seq<char>>>;

    /// The element's unique id, if any.
    spec fn spec_uuid(&self) -> Option<Seq<char>>;

    fn title(&self) -> (r: Option<&str>)
        ensures
            opt_str_view(r) == self.spec_title(),
    ;

    fn link(&self) -> (r: Option<&str>)
        ensures
            opt_str_view(r) == self.spec_link(),
    ;

    fn updated(&self) -> (r: Option<Timestamp>)
        ensures
            r == self.spec_updated(),
    ;

    fn category(&self) -> (r: Option<Vec<&str>>)
        ensures
            opt_vec_str_view(r) == self.spec_category(),
    ;

    fn uuid(&self) -> (r: Option<&str>)
        ensures
            opt_str_view(r) == self.spec_uuid(),
    ;
}

impl FeedReader for AtomEntry {
    open spec fn spec_title(&self) -> Option<Seq<char>> {
        Some(self.title@)
    }

    /// The link of an Atom entry is the first one whose relation is
    /// "alternate"; an entry with only other relations has none.
    open spec fn spec_link(&self) -> Option<Seq<char>> {
        if has_alternate(self.links@) {
            Some(self.links@[first_alternate(self.links@)].href@)
        } else {
            None
        }
    }

    open spec fn spec_updated(&self) -> Option<Timestamp> {
        Some(self.updated)
    }

    open spec fn spec_category(&self) -> Option<Seq<Seq<char>>> {
        Some(self.categories@.map_values(|s: String| s@))
    }

    open spec fn spec_uuid(&self) -> Option<Seq<char>> {
        Some(self.id@)
    }

    fn title(&self) -> (r: Option<&str>) {
        Some(self.title.as_str())
    }

    fn link(&self) -> (r: Option<&str>) {
        let n = self.links.len();
        let mut i: usize = 0;
        while i < n
            invariant
                n == self.links@.len(),
                i <= n,
                forall|j: int| 0 <= j < i ==> !is_alternate(self.links@[j]),
            decreases n - i,
        {
            if str_eq(self.links[i].rel.as_str(), "alternate") {
                proof {
                    lemma_first_alternate_is(self.links@, i as int);
                }
                return Some(self.links[i].href.as_str());
            }
            i += 1;
        }
        None
    }

    fn updated(&self) -> (r: Option<Timestamp>) {
        Some(self.updated)
    }

    fn category(&self) -> (r: Option<Vec<&str>>) {
        let n = self.categories.len();
        let mut v: Vec<&str> = Vec::new();
        let mut i: usize = 0;
        while i < n
            invariant
                n == self.categories@.len(),
                i <= n,
                v@.len() == i,
                forall|j: int| 0 <= j < i ==> v@[j]@ == self.categories@[j]@,
            decreases n - i,
        {
            v.push(self.categories[i].as_str());
            i += 1;
        }
        proof {
            assert(v@.map_values(|s: &str| s@) =~= self.categories@.map_values(|s: String| s@));
        }
        Some(v)
    }

    fn uuid(&self) -> (r: Option<&str>) {
        Some(self.id.as_str())
    }
}

impl FeedReader for RssItem {
    open spec fn spec_title(&self) -> Option<Seq<char>> {
        opt_string_view(self.title)
    }

    open spec fn spec_link(&self) -> Option<Seq<char>> {
        opt_string_view(self.link)
    }

    /// The update time of an RSS item is read from its pubDate by the
    /// RFC 2822 grammar, best effort: absent when the field is absent or
    /// does not parse.
    open spec fn spec_updated(&self) -> Option<Timestamp> {
        match self.pub_date {
            Some(d) => rfc2822_of(d@),
            None => None,
        }
    }

    open spec fn spec_category(&self) -> Option<Seq<Seq<char>>> {
        Some(self.categories@.map_values(|s: String| s@))
    }

    open spec fn spec_uuid(&self) -> Option<Seq<char>> {
        opt_string_view(self.guid)
    }

    fn title(&self) -> (r: Option<&str>) {
        match &self.title {
            Some(s) => Some(s.as_str()),
            None => None,
        }
    }

    fn link(&self) -> (r: Option<&str>) {
        match &self.link {
            Some(s) => Some(s.as_str()),
            None => None,
        }
    }

    fn updated(&self) -> (r: Option<Timestamp>) {
        match &self.pub_date {
            Some(d) => parse_rfc2822(d.as_str()),
            None => None,
        }
    }

    fn category(&self) -> (r: Option<Vec<&str>>) {
        let n = self.categories.len();
        let mut v: Vec<&str> = Vec::new();
        let mut i: usize = 0;
        while i < n
            invariant
                n == self.categories@.len(),
                i <= n,
                v@.len() == i,
                forall|j: int| 0 <= j < i ==> v@[j]@ == self.categories@[j]@,
            decreases n - i,
        {
            v.push(self.categories[i].as_str());
            i += 1;
        }
        proof {
            assert(v@.map_values(|s: &str| s@) =~= self.categories@.map_values(|s: String| s@));
        }
        Some(v)
    }

    fn uuid(&self) -> (r: Option<&str>) {
        match &self.guid {
            Some(g) => Some(g.as_str()),
            None => None,
        }
    }
}

/// One selected feed element, of whichever format the feed had.
#[derive(Debug, Clone)]
pub enum FeedEntry {
    Atom(AtomEntry),
    Rss(RssItem),
}

impl FeedReader for FeedEntry {
    open spec fn spec_title(&self) -> Option<Seq<char>> {
        match self {
            FeedEntry::Atom(e) => e.spec_title(),
            FeedEntry::Rss(i) => i.spec_title(),
        }
    }

    open spec fn spec_link(&self) -> Option<Seq<char>> {
        match self {
            FeedEntry::Atom(e) => e.spec_link(),
            FeedEntry::Rss(i) => i.spec_link(),
        }
    }

    open spec fn spec_updated(&self) -> Option<Timestamp> {
        match self {
            FeedEntry::Atom(e) => e.spec_updated(),
            FeedEntry::Rss(i) => i.spec_updated(),
        }
    }

    open spec fn spec_category(&self) -> Option<Seq<Seq<char>>> {
        match self {
            FeedEntry::Atom(e) => e.spec_category(),
            FeedEntry::Rss(i) => i.spec_category(),
        }
    }

    open spec fn spec_uuid(&self) -> Option<Seq<char>> {
        match self {
            FeedEntry::Atom(e) => e.spec_uuid(),
            FeedEntry::Rss(i) => i.spec_uuid(),
        }
    }

    fn title(&self) -> (r: Option<&str>) {
        match self {
            FeedEntry::Atom(e) => e.title(),
            FeedEntry::Rss(i) => i.title(),
        }
    }

    fn link(&self) -> (r: Option<&str>) {
        match self {
            FeedEntry::Atom(e) => e.link(),
            FeedEntry::Rss(i) => i.link(),
        }
    }

    fn updated(&self) -> (r: Option<Timestamp>) {
        match self {
            FeedEntry::Atom(e) => e.updated(),
            FeedEntry::Rss(i) => i.updated(),
        }
    }

    fn category(&self) -> (r: Option<Vec<&str>>) {
        match self {
            FeedEntry::Atom(e) => e.category(),
            FeedEntry::Rss(i) => i.category(),
        }
    }

    fn uuid(&self) -> (r: Option<&str>) {
        match self {
            FeedEntry::Atom(e) => e.uuid(),
            FeedEntry::Rss(i) => i.uuid(),
        }
    }
}

/// An Atom entry with no "alternate"-relation link has no link at all: the
/// accessor reports absence rather than a link of another relation.
pub proof fn lemma_link_absent_without_alternate(e: AtomEntry)
    requires
        forall|i: int| 0 <= i < e.links@.len() ==> !is_alternate(e.links@[i]),
    ensures
        e.spec_link() is None,
{
}

} // verus!
