use feed_engine::engine::get_articles;
use feed_engine::errors::{CacheError, FetchError};
use feed_engine::fetch::Fetcher;
use feed_engine::model::Entry;
use feed_engine::parse::FeedDecoder;

/// A retrieval stub with a fixed outcome.
struct OneShot {
    outcome: Result<Vec<u8>, String>,
}

impl Fetcher for OneShot {
    fn retrieve(&mut self, _url: &String) -> Result<Vec<u8>, String> {
        self.outcome.clone()
    }
}

/// A decoder backed by feed-rs, converting each decoded entry field for
/// field.
struct RealDecoder;

impl FeedDecoder for RealDecoder {
    fn decode(&mut self, bytes: &Vec<u8>) -> Result<Vec<Entry>, String> {
        match feed_rs::parser::parse(bytes.as_slice()) {
            Ok(feed) => Ok(feed
                .entries
                .into_iter()
                .map(|e| Entry {
                    published: e.published.map(|d| d.timestamp()),
                    title: e.title.map(|t| t.content),
                    links: e.links.into_iter().map(|l| l.href).collect(),
                })
                .collect()),
            Err(e) => Err(format!("{}", e)),
        }
    }
}

#[test]
fn get_articles_runs_fetch_then_parse() {
    let doc = "<?xml version=\"1.0\"?>\n\
        <rss version=\"2.0\"><channel>\n\
        <title>Sample</title><link>http://example.com</link><description>d</description>\n\
        <item><title>One</title><link>http://example.com/1</link></item>\n\
        <item><title>Two</title><link>http://example.com/2</link></item>\n\
        </channel></rss>";
    let mut fetcher = OneShot { outcome: Ok(doc.as_bytes().to_vec()) };
    let mut decoder = RealDecoder;
    let url = "https://example.com/feed".to_string();

    let entries = get_articles(&mut fetcher, &mut decoder, &url, 1_000_000).unwrap();
    assert_eq!(entries.len(), 2);
    assert_eq!(entries[0].title, Some("One".to_string()));
    assert_eq!(entries[1].title, Some("Two".to_string()));
}

#[test]
fn get_articles_reports_the_failing_stage() {
    let mut decoder = RealDecoder;
    let mut bad_bytes = OneShot { outcome: Ok(b"<html></html>".to_vec()) };
    let url = "https://example.com/feed".to_string();
    let err = get_articles(&mut bad_bytes, &mut decoder, &url, 1_000_000).unwrap_err();
    assert!(matches!(err, CacheError::Parse(_)));

    let mut no_route = OneShot { outcome: Err("dns failure".to_string()) };
    let err = get_articles(&mut no_route, &mut decoder, &url, 1_000_000).unwrap_err();
    assert!(matches!(err, CacheError::Fetch(FetchError::Transport(_))));
}
