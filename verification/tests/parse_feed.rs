use feed_engine::errors::ParseError;
use feed_engine::model::Entry;
use feed_engine::parse::{filter_linked, parse, parse_outcome, FeedDecoder};

/// A decoder backed by feed-rs, converting each decoded entry field for
/// field, the way the shell around the library does.
struct RealDecoder;

impl FeedDecoder for RealDecoder {
    fn decode(&mut self, bytes: &Vec<u8>) -> Result<Vec<Entry>, String> {
        match feed_rs::parser::parse(bytes.as_slice()) {
            Ok(feed) => Ok(feed
                .entries
                .into_iter()
                .map(|e| Entry {
                    published: e.published.map(|d| d.timestamp()),
                    title: e.title.map(|t| t.content),
                    links: e.links.into_iter().map(|l| l.href).collect(),
                })
                .collect()),
            Err(e) => Err(format!("{}", e)),
        }
    }
}

fn rss_three_items() -> Vec<u8> {
    let doc = "<?xml version=\"1.0\"?>\n\
        <rss version=\"2.0\"><channel>\n\
        <title>Sample</title><link>http://example.com</link><description>d</description>\n\
        <item><title>First</title><link>http://example.com/1</link>\
        <pubDate>Mon, 01 Jan 2024 00:00:00 GMT</pubDate></item>\n\
        <item><title>Middle has no link</title></item>\n\
        <item><title>Third</title><link>http://example.com/3</link></item>\n\
        </channel></rss>";
    doc.as_bytes().to_vec()
}

#[test]
fn entry_without_links_is_dropped_keeping_order() {
    let mut decoder = RealDecoder;
    let entries = parse(&mut decoder, &rss_three_items()).unwrap();
    assert_eq!(entries.len(), 2);
    assert_eq!(entries[0].title, Some("First".to_string()));
    assert_eq!(entries[1].title, Some("Third".to_string()));
    for e in &entries {
        assert!(e.links.len() > 0);
    }
}

#[test]
fn entry_fields_are_decoded() {
    let mut decoder = RealDecoder;
    let entries = parse(&mut decoder, &rss_three_items()).unwrap();
    assert_eq!(entries[0].links, vec!["http://example.com/1".to_string()]);
    // Mon, 01 Jan 2024 00:00:00 GMT as seconds since the Unix epoch.
    assert_eq!(entries[0].published, Some(1704067200));
    assert_eq!(entries[1].links, vec!["http://example.com/3".to_string()]);
    assert_eq!(entries[1].published, None);
}

#[test]
fn malformed_bytes_are_an_error() {
    let mut decoder = RealDecoder;
    let bytes = b"this is not a feed at all".to_vec();
    let err = parse(&mut decoder, &bytes).unwrap_err();
    assert!(matches!(err, ParseError::Malformed(_)));
}

#[test]
fn feed_with_only_unlinked_entries_is_empty_not_error() {
    let doc = "<?xml version=\"1.0\"?>\n\
        <rss version=\"2.0\"><channel>\n\
        <title>Sample</title><link>http://example.com</link><description>d</description>\n\
        <item><title>Alone and unlinked</title></item>\n\
        </channel></rss>";
    let mut decoder = RealDecoder;
    let entries = parse(&mut decoder, &doc.as_bytes().to_vec()).unwrap();
    assert_eq!(entries.len(), 0);
}

fn entry(title: &str, links: &[&str]) -> Entry {
    Entry {
        published: None,
        title: Some(title.to_string()),
        links: links.iter().map(|l| l.to_string()).collect(),
    }
}

#[test]
fn link_filter_keeps_relative_order() {
    let raw = vec![
        entry("a", &["http://example.com/a"]),
        entry("b", &[]),
        entry("c", &["http://example.com/c", "http://example.com/c2"]),
        entry("d", &[]),
    ];
    let kept = filter_linked(&raw);
    assert_eq!(kept.len(), 2);
    assert_eq!(kept[0].title, Some("a".to_string()));
    assert_eq!(kept[1].title, Some("c".to_string()));
    assert_eq!(kept[1].links.len(), 2);
}

#[test]
fn parse_outcome_keeps_the_decoder_failure_text() {
    let err = parse_outcome(Err("unreadable".to_string())).unwrap_err();
    match err {
        ParseError::Malformed(detail) => assert_eq!(detail, "unreadable"),
    }
}
