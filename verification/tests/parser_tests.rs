use edgar_stream::Error;
use edgar_stream::Feed;
use edgar_stream::FeedReader;
use edgar_stream::ParseError;
use edgar_stream::Stream;
use edgar_stream::Timestamp;

fn stream() -> Stream {
    Stream::new("https://www.sec.gov/cgi-bin/browse-edgar".to_string(), 200_000_000)
}

fn atom_doc() -> String {
    "<?xml version=\"1.0\" encoding=\"utf-8\"?>\
     <feed xmlns=\"http://www.w3.org/2005/Atom\">\
     <title>Latest Filings</title>\
     <id>urn:example:feed</id>\
     <updated>2024-10-01T12:00:00Z</updated>\
     <entry>\
     <title>10-K - Foo Corp</title>\
     <id>urn:tag:edgar:1</id>\
     <updated>2024-10-01T12:00:00Z</updated>\
     <link rel=\"self\" href=\"https://x/self\"/>\
     <link rel=\"alternate\" href=\"https://x/Archives/edgar/data/1/000001/0007-index.htm\"/>\
     <category term=\"10-K\"/>\
     </entry>\
     </feed>"
        .to_string()
}

fn rss_doc() -> String {
    "<?xml version=\"1.0\" encoding=\"utf-8\"?>\
     <rss version=\"2.0\">\
     <channel>\
     <title>Latest Filings</title>\
     <link>https://example.com/</link>\
     <description>filings</description>\
     <item>\
     <title>8-K - Bar Corp</title>\
     <link>https://x/Archives/edgar/data/2/000002/0002-index.htm</link>\
     <guid>urn:item:1</guid>\
     <pubDate>Thu, 01 Jan 1970 00:00:00 +0000</pubDate>\
     <category>8-K</category>\
     </item>\
     </channel>\
     </rss>"
        .to_string()
}

#[test]
fn atom_document_yields_atom_variant() {
    let feed = stream().parse_feed(&atom_doc()).unwrap();
    match feed {
        Feed::Atom(entries) => {
            assert_eq!(entries.len(), 1);
            let e = &entries[0];
            assert_eq!(e.title(), Some("10-K - Foo Corp"));
            assert_eq!(e.uuid(), Some("urn:tag:edgar:1"));
            assert_eq!(
                e.link(),
                Some("https://x/Archives/edgar/data/1/000001/0007-index.htm")
            );
            assert_eq!(
                e.updated(),
                Some(Timestamp { seconds: 1_727_784_000, offset_seconds: 0 })
            );
            assert_eq!(e.category(), Some(vec!["10-K"]));
        }
        Feed::Rss(_) => panic!("an Atom document must never classify as RSS"),
    }
}

#[test]
fn rss_document_falls_back_to_rss_variant() {
    let feed = stream().parse_feed(&rss_doc()).unwrap();
    match feed {
        Feed::Atom(_) => panic!("an RSS-only document must not classify as Atom"),
        Feed::Rss(items) => {
            assert_eq!(items.len(), 1);
            let i = &items[0];
            assert_eq!(i.title(), Some("8-K - Bar Corp"));
            assert_eq!(i.uuid(), Some("urn:item:1"));
            assert_eq!(
                i.link(),
                Some("https://x/Archives/edgar/data/2/000002/0002-index.htm")
            );
            assert_eq!(i.updated(), Some(Timestamp { seconds: 0, offset_seconds: 0 }));
            assert_eq!(i.category(), Some(vec!["8-K"]));
        }
    }
}

#[test]
fn plain_prose_rejects_both_formats() {
    let r = stream().parse_feed("just some prose, not a feed at all");
    match r {
        Ok(_) => panic!("prose must not parse as a feed"),
        Err(e) => assert!(matches!(
            e,
            Error::Parse(ParseError::BothFormatsRejected(_))
        )),
    }
}

#[test]
fn empty_text_rejects_both_formats() {
    let r = stream().parse_feed("");
    assert!(matches!(
        r,
        Err(Error::Parse(ParseError::BothFormatsRejected(_)))
    ));
}

#[test]
fn empty_atom_feed_is_a_valid_empty_document() {
    let doc = "<?xml version=\"1.0\" encoding=\"utf-8\"?>\
       <feed xmlns=\"http://www.w3.org/2005/Atom\">\
       <title>Empty</title>\
       <id>urn:example:empty</id>\
       <updated>2024-10-01T12:00:00Z</updated>\
       </feed>";
    let feed = stream().parse_feed(doc).unwrap();
    match feed {
        Feed::Atom(entries) => assert_eq!(entries.len(), 0),
        Feed::Rss(_) => panic!("an Atom document must never classify as RSS"),
    }
}
