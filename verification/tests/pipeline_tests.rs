use std::io::Read;

use edgar_stream::decode;
use edgar_stream::prepare_filing_request;
use edgar_stream::select_entry;
use edgar_stream::Error;
use edgar_stream::Feed;
use edgar_stream::SelectError;
use edgar_stream::Stream;

fn gzip_bytes(data: &[u8]) -> Vec<u8> {
    let mut out = Vec::new();
    let mut enc = flate2::read::GzEncoder::new(data, flate2::Compression::default());
    enc.read_to_end(&mut out).unwrap();
    out
}

fn canned_atom_response() -> Vec<u8> {
    let doc = "<?xml version=\"1.0\" encoding=\"utf-8\"?>\
       <feed xmlns=\"http://www.w3.org/2005/Atom\">\
       <title>Latest Filings</title>\
       <id>urn:example:feed</id>\
       <updated>2024-10-01T12:00:00Z</updated>\
       <entry>\
       <title>10-K - Foo Corp</title>\
       <id>urn:tag:edgar:7</id>\
       <updated>2024-10-01T12:00:00Z</updated>\
       <link rel=\"alternate\" href=\"https://x/Archives/edgar/data/1/000001/0007-index.htm\"/>\
       </entry>\
       </feed>";
    gzip_bytes(doc.as_bytes())
}

#[test]
fn one_full_cycle_from_canned_responses() {
    // First response: the feed, gzip-encoded.
    let stream = Stream::new(
        "https://www.sec.gov/cgi-bin/browse-edgar?action=getcurrent&output=atom".to_string(),
        200_000_000,
    );
    let body = canned_atom_response();
    let feed = stream.read_feed(&body, &Some("gzip".to_string())).unwrap();

    let entry = select_entry(feed).unwrap();
    let filing_url = prepare_filing_request(&entry).unwrap();
    assert_eq!(
        filing_url,
        "https://x/Archives/edgar/data/1/000001/0007-index-headers.htm"
    );

    // Second response: arbitrary bytes under identity encoding. The
    // decoded bytes are the cycle's artifact, exactly as they came.
    let second_body: Vec<u8> = vec![70, 73, 76, 73, 78, 71, 0, 255, 128, 10];
    let artifact = decode(&second_body, &None).unwrap();
    assert_eq!(artifact, second_body);
}

#[test]
fn empty_feed_has_no_entry_to_select() {
    let r = select_entry(Feed::Atom(Vec::new()));
    assert_eq!(r.unwrap_err(), SelectError::Empty);
    let r = select_entry(Feed::Rss(Vec::new()));
    assert_eq!(r.unwrap_err(), SelectError::Empty);
}

#[test]
fn entry_without_link_cannot_be_fetched() {
    let doc = "<?xml version=\"1.0\" encoding=\"utf-8\"?>\
       <rss version=\"2.0\"><channel>\
       <title>t</title><link>https://e/</link><description>d</description>\
       <item><title>no link here</title></item>\
       </channel></rss>";
    let stream = Stream::new("https://e/".to_string(), 200_000_000);
    let feed = stream.read_feed(doc.as_bytes(), &None).unwrap();
    let entry = select_entry(feed).unwrap();
    let r = prepare_filing_request(&entry);
    assert!(matches!(r, Err(Error::Select(SelectError::NoLink))));
}

#[test]
fn entry_link_without_marker_fails_derivation() {
    let doc = "<?xml version=\"1.0\" encoding=\"utf-8\"?>\
       <rss version=\"2.0\"><channel>\
       <title>t</title><link>https://e/</link><description>d</description>\
       <item><title>odd link</title><link>https://x/no-marker-here</link></item>\
       </channel></rss>";
    let stream = Stream::new("https://e/".to_string(), 200_000_000);
    let feed = stream.read_feed(doc.as_bytes(), &None).unwrap();
    let entry = select_entry(feed).unwrap();
    let r = prepare_filing_request(&entry);
    assert!(matches!(
        r,
        Err(Error::Derive(edgar_stream::DeriveError::NoIndexMarker))
    ));
}

#[test]
fn corrupt_first_response_ends_the_cycle() {
    let stream = Stream::new("https://e/".to_string(), 200_000_000);
    let r = stream.read_feed(b"definitely not gzip", &Some("gzip".to_string()));
    assert!(matches!(r, Err(Error::Decode(edgar_stream::DecodeError::Gzip))));
}
