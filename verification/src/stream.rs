use vstd::prelude::*;
use vstd::arithmetic::div_mod::lemma_fundamental_div_mod;
use vstd::arithmetic::div_mod::lemma_mod_division_less_than_divisor;

use crate::decoder::decode;
use crate::decoder::decoded_body;
use crate::decoder::label_view;
use crate::decoder::utf8_lossy;
use crate::decoder::utf8_lossy_of;
use crate::errors::Error;
use crate::errors::ParseError;
use crate::errors::SelectError;
use crate::feed::AtomEntry;
use crate::feed::AtomLink;
use crate::feed::FeedEntry;
use crate::feed::RssItem;
use crate::feed::Timestamp;
use crate::filing_url::derive_filing_url;
use crate::filing_url::derived_url;
use crate::filing_url::has_index_marker;

verus! {

/// A feed document: exactly one of the two sibling formats, tagged. A
/// value of this type is always a successfully parsed document; there is
/// no partial or corrupt success state.
#[derive(Debug, Clone)]
pub enum Feed {
    Atom(Vec<AtomEntry>),
    Rss(Vec<RssItem>),
}

/// What interpreting `s` as an Atom document yields: its entries, or
/// nothing when the text is not valid Atom. The value is fixed by the
/// text alone.
pub uninterp spec fn atom_model_of(s: Seq<char>) -> Option<Seq<AtomEntry>>;

/// What interpreting `s` as an RSS channel yields: its items, or nothing
/// when the text is not valid RSS. The value is fixed by the text alone.
pub uninterp spec fn rss_model_of(s: Seq<char>) -> Option<Seq<RssItem>>;

#[verifier::external_type_specification]
#[verifier::external_body]
pub struct ExAtomSyndicationEntry(atom_syndication::Entry);

#[verifier::external_type_specification]
#[verifier::external_body]
pub struct ExRssChannelItem(rss::Item);

/// Converts one parsed Atom entry into the library's plain shape: each
/// field is read off and copied; the update time becomes epoch seconds
/// with its offset.
#[verifier::external_body]
fn atom_entry_model(e: &atom_syndication::Entry) -> (r: AtomEntry) {
    let u = *e.updated();
    AtomEntry {
        id: e.id().to_string(),
        title: e.title().as_str().to_string(),
        links: e.links().iter().map(
            |l| AtomLink { rel: l.rel().to_string(), href: l.href().to_string() },
        ).collect(),
        updated: Timestamp { seconds: u.timestamp(), offset_seconds: u.offset().local_minus_utc() },
        categories: e.categories().iter().map(|c| c.term().to_string()).collect(),
    }
}

/// Converts one parsed RSS item into the library's plain shape: each
/// optional field is read off and copied.
#[verifier::external_body]
fn rss_item_model(i: &rss::Item) -> (r: RssItem) {
    RssItem {
        guid: i.guid().map(|g| g.value().to_string()),
        title: i.title().map(|s| s.to_string()),
        link: i.link().map(|s| s.to_string()),
        pub_date: i.pub_date().map(|s| s.to_string()),
        categories: i.categories().iter().map(|c| c.name().to_string()).collect(),
    }
}

/// Relies on atom_syndication::Feed::from_str: whether the text parses as
/// Atom, and the entries that come out, depend on the text alone.
#[verifier::external_body]
fn parse_atom_text(text: &str) -> (r: Option<Vec<AtomEntry>>)
    ensures
        match r {
            Some(v) => atom_model_of(text@) == Some(v@),
            None => atom_model_of(text@) is None,
        },
{
    match text.parse::<atom_syndication::Feed>() {
        Ok(f) => Some(f.entries().iter().map(atom_entry_model).collect()),
        Err(_) => None,
    }
}

/// Relies on rss::Channel::read_from: whether the text parses as an RSS
/// channel, and the items that come out, depend on the text alone. On
/// failure the error's description is handed back as the diagnostic.
#[verifier::external_body]
fn parse_rss_text(text: &str) -> (r: Result<Vec<RssItem>, String>)
    ensures
        match r {
            Ok(v) => rss_model_of(text@) == Some(v@),
            Err(_) => rss_model_of(text@) is None,
        },
{
    match rss::Channel::read_from(text.as_bytes()) {
        Ok(c) => Ok(c.items().iter().map(rss_item_model).collect()),
        Err(e) => Err(e.to_string()),
    }
}

/// Relies on rand::random: a fresh draw, uniform over the whole range of
/// u32. Nothing is assumed of the value.
#[verifier::external_body]
fn random_u32() -> (r: u32) {
    rand::random::<u32>()
}

/// The jittered poll interval in nanoseconds for the scaled uniform draw
/// `u`: the ceiling of 10^9 / (5 + 3 * u / 2^32), so that the request rate
/// lies between five and eight per second.
pub open spec fn interval_nanos_spec(u: u32) -> int {
    let den = 5 * 4294967296 + 3 * (u as int);
    (1000000000 * 4294967296 + den - 1) / den
}

/// The poll interval computed from one uniform draw. Whatever the draw,
/// the interval lies in (1/8 s, 1/5 s]: strictly more than 125 000 000 ns
/// and at most 200 000 000 ns.
pub fn interval_nanos_from_draw(u: u32) -> (r: u64)
    ensures
        r == interval_nanos_spec(u),
        125_000_000 < r <= 200_000_000,
{
    let den: u64 = 5 * 4294967296 + 3 * (u as u64);
    let num: u64 = 1000000000 * 4294967296;
    let r: u64 = (num + (den - 1)) / den;
    proof {
        let x: int = num as int + den as int - 1;
        let d: int = den as int;
        let q: int = r as int;
        lemma_fundamental_div_mod(x, d);
        lemma_mod_division_less_than_divisor(x, d);
        let rm: int = x % d;
        assert(q <= 200000000) by (nonlinear_arith)
            requires
                x == d * q + rm,
                0 <= rm < d,
                21474836480 <= d,
                x == 4294967296000000000 + d - 1,
        ;
        assert(q >= 125000001) by (nonlinear_arith)
            requires
                x == d * q + rm,
                0 <= rm < d,
                0 < d <= 34359738365,
                x == 4294967296000000000 + d - 1,
        ;
    }
    r
}

/// One jittered poll interval in nanoseconds, from a fresh uniform draw.
/// Recomputed per poll, never cached.
pub fn compute_interval() -> (r: u64)
    ensures
        125_000_000 < r <= 200_000_000,
{
    let u = random_u32();
    interval_nanos_from_draw(u)
}

/// The poller: the feed endpoint it polls and the jittered interval it
/// computed, set once at construction.
pub struct Stream {
    pub endpoint: String,
    pub interval_nanos: u64,
}

impl Stream {
    pub fn new(endpoint: String, interval_nanos: u64) -> (s: Stream)
        ensures
            s.endpoint == endpoint,
            s.interval_nanos == interval_nanos,
    {
        Stream { endpoint, interval_nanos }
    }

    /// Interpret decoded feed text: first as Atom, and only on Atom
    /// failure as RSS. A text that parses as Atom is never reported as
    /// RSS, and a parsed result is exactly one tagged variant. When both
    /// formats reject the text, the error carries the RSS stage's
    /// diagnostic; the Atom stage's is deliberately dropped.
    pub fn parse_feed(&self, body: &str) -> (r: Result<Feed, Error>)
        ensures
            match r {
                Ok(f) => match f {
                    Feed::Atom(v) => atom_model_of(body@) == Some(v@),
                    Feed::Rss(v) => atom_model_of(body@) is None && rss_model_of(body@) == Some(
                        v@,
                    ),
                },
                Err(e) => atom_model_of(body@) is None && rss_model_of(body@) is None && (
                e matches Error::Parse(ParseError::BothFormatsRejected(_))),
            },
    {
        match parse_atom_text(body) {
            Some(entries) => Ok(Feed::Atom(entries)),
            None => match parse_rss_text(body) {
                Ok(items) => Ok(Feed::Rss(items)),
                Err(diagnostic) => Err(Error::Parse(ParseError::BothFormatsRejected(diagnostic))),
            },
        }
    }

    /// One feed response, taken from its raw transport form to a parsed
    /// document: decode the body under its declared Content-Encoding,
    /// read the bytes as text, and parse the text as a feed.
    pub fn read_feed(&self, body: &[u8], content_encoding: &Option<String>) -> (r: Result<
        Feed,
        Error,
    >)
        ensures
            match decoded_body(body@, label_view(content_encoding)) {
                None => r matches Err(Error::Decode(_)),
                Some(decoded) => match r {
                    Ok(f) => match f {
                        Feed::Atom(v) => atom_model_of(utf8_lossy_of(decoded)) == Some(v@),
                        Feed::Rss(v) => atom_model_of(utf8_lossy_of(decoded)) is None
                            && rss_model_of(utf8_lossy_of(decoded)) == Some(v@),
                    },
                    Err(e) => atom_model_of(utf8_lossy_of(decoded)) is None && rss_model_of(
                        utf8_lossy_of(decoded),
                    ) is None && (e matches Error::Parse(ParseError::BothFormatsRejected(_))),
                },
            },
    {
        match decode(body, content_encoding) {
            Err(e) => Err(Error::Decode(e)),
            Ok(decoded) => {
                let text = utf8_lossy(decoded.as_slice());
                self.parse_feed(text.as_str())
            },
        }
    }
}

/// Select the entry a poll cycle works on: the first element in document
/// order, trusting the feed's own ordering. An empty feed has no entry.
pub fn select_entry(feed: Feed) -> (r: Result<FeedEntry, SelectError>)
    ensures
        match feed {
            Feed::Atom(v) => if v@.len() == 0 {
                r matches Err(e) && e == SelectError::Empty
            } else {
                r matches Ok(en) && en == FeedEntry::Atom(v@[0])
            },
            Feed::Rss(v) => if v@.len() == 0 {
                r matches Err(e) && e == SelectError::Empty
            } else {
                r matches Ok(en) && en == FeedEntry::Rss(v@[0])
            },
        },
{
    match feed {
        Feed::Atom(mut v) => {
            if v.len() == 0 {
                Err(SelectError::Empty)
            } else {
                Ok(FeedEntry::Atom(v.remove(0)))
            }
        },
        Feed::Rss(mut v) => {
            if v.len() == 0 {
                Err(SelectError::Empty)
            } else {
                Ok(FeedEntry::Rss(v.remove(0)))
            }
        },
    }
}

/// The URL for a selected entry's filing fetch: the entry must carry a
/// link, and the link is rewritten into the index-headers URL. The
/// follow-up GET and its decoding are the caller's; the decoded bytes of
/// that second response are the cycle's artifact and are not parsed as a
/// feed.
pub fn prepare_filing_request<E: crate::feed::FeedReader>(entry: &E) -> (r: Result<String, Error>)
    ensures
        match entry.spec_link() {
            None => r matches Err(e) && (e matches Error::Select(s) && s == SelectError::NoLink),
            Some(l) => if has_index_marker(l) {
                r matches Ok(u) && u@ == derived_url(l)
            } else {
                r matches Err(e) && (e matches Error::Derive(d) && d
                    == crate::errors::DeriveError::NoIndexMarker)
            },
        },
{
    match entry.link() {
        None => Err(Error::Select(SelectError::NoLink)),
        Some(l) => match derive_filing_url(l) {
            Ok(u) => Ok(u),
            Err(e) => Err(Error::Derive(e)),
        },
    }
}

} // verus!
