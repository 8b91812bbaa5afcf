use vstd::prelude::*;

verus! {

/// The compression scheme whose framing was found to be corrupt.
#[derive(Debug, PartialEq, Eq, Structural, Clone, Copy)]
pub enum DecodeError {
    Gzip,
    Deflate,
}

/// Why the feed text could not be interpreted as a feed. Carries the
/// diagnostic from the RSS stage, which runs second; the Atom stage's
/// diagnostic is deliberately not part of the returned value.
#[derive(Debug)]
pub enum ParseError {
    BothFormatsRejected(String),
}

/// Why no usable entry could be drawn from a parsed feed.
#[derive(Debug, PartialEq, Eq, Structural, Clone, Copy)]
pub enum SelectError {
    Empty,
    NoLink,
}

/// Why an entry link could not be rewritten into a filing index-headers URL.
#[derive(Debug, PartialEq, Eq, Structural, Clone, Copy)]
pub enum DeriveError {
    NoIndexMarker,
    MalformedLink,
}

/// Every failure one poll cycle can report from the library's side.
/// Transport failures belong to the unverified caller that performs the
/// HTTP requests and are not represented here.
#[derive(Debug)]
pub enum Error {
    Decode(DecodeError),
    Parse(ParseError),
    Select(SelectError),
    Derive(DeriveError),
}

} // verus!
