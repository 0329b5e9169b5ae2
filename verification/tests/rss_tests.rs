use fetcher::read_filter::Newer;
use fetcher::rss::{FeedItem, Rss, RssError};

fn feed_xml() -> Vec<u8> {
    br#"<?xml version="1.0"?>
<rss version="2.0"><channel>
<title>Example</title><link>https://example.com</link><description>d</description>
<item><guid>g1</guid><title>Newest</title><description>n</description><link>https://example.com/1</link></item>
<item><guid>g2</guid><title>Middle</title><description>m</description><link>https://example.com/2</link></item>
<item><guid>g3</guid><title>Oldest</title><description>o</description><link>https://example.com/3</link></item>
</channel></rss>"#
        .to_vec()
}

#[test]
fn feed_bytes_parse_and_deliver() {
    // The rss wrapper must really parse: the XML cannot come back as-is.
    let rss = Rss::new("https://example.com/feed".to_string());
    let rf = Newer { last_read_id: None };
    let out = rss.entries_from_feed_bytes(&feed_xml(), &rf).ok().unwrap();
    assert_eq!(out.len(), 3);
    assert_eq!(out[2].id.as_deref(), Some("g1"));
    assert_eq!(out[2].msg.title.as_deref(), Some("Newest"));
    assert_eq!(
        out[0].msg.link.as_ref().map(|u| u.as_str()),
        Some("https://example.com/3")
    );
}

#[test]
fn bad_feed_bytes_are_rejected() {
    let rss = Rss::new("u".to_string());
    let rf = Newer { last_read_id: None };
    assert!(matches!(
        rss.entries_from_feed_bytes(b"this is not xml at all", &rf),
        Err(RssError::InvalidFeed)
    ));
}

#[test]
fn delivery_removes_read_suffix_and_reverses() {
    let rss = Rss::new("https://example.com/feed".to_string());
    let rf = Newer { last_read_id: Some("g2".to_string()) };
    let out = rss.entries_from_feed_bytes(&feed_xml(), &rf).ok().unwrap();
    // g2 and the older g3 are gone; the one survivor comes oldest-first.
    assert_eq!(out.len(), 1);
    assert_eq!(out[0].id.as_deref(), Some("g1"));
    assert_eq!(out[0].msg.title.as_deref(), Some("Newest"));
}

#[test]
fn item_without_guid_is_an_error() {
    let rss = Rss::new("u".to_string());
    let items = vec![FeedItem {
        guid: None,
        title: Some("t".to_string()),
        description: Some("d".to_string()),
        link: Some("https://example.com/x".to_string()),
    }];
    let rf = Newer { last_read_id: None };
    assert!(matches!(rss.entries_from_feed(&items, &rf), Err(RssError::MissingGuid)));
}

#[test]
fn item_with_bad_link_is_an_error() {
    let rss = Rss::new("u".to_string());
    let items = vec![FeedItem {
        guid: Some("g".to_string()),
        title: Some("t".to_string()),
        description: Some("d".to_string()),
        link: Some("::: nope".to_string()),
    }];
    let rf = Newer { last_read_id: None };
    assert!(matches!(rss.entries_from_feed(&items, &rf), Err(RssError::InvalidUrl(_))));
}
