use fetcher::entry::Media;
use fetcher::twitter::{plan_news, tweet_contains_filters, tweet_link, Tweet, TweetMedia,
    TweetMediaKind, Twitter};

fn tweet(id: u64, text: &str) -> Tweet {
    Tweet { id, text: text.to_string(), media: None }
}

#[test]
fn filters_match_case_insensitively() {
    // The lowercase wrapper must really fold case.
    let filters = vec!["RUST".to_string(), "release".to_string()];
    assert!(tweet_contains_filters("New Rust Release today", &filters));
    assert!(!tweet_contains_filters("New Rust version today", &filters));
}

#[test]
fn empty_filter_list_passes_everything() {
    assert!(tweet_contains_filters("anything", &vec![]));
}

#[test]
fn tweet_links_are_canonical() {
    assert_eq!(
        tweet_link("someone", 12345),
        "https://twitter.com/someone/status/12345"
    );
}

#[test]
fn timeline_entries_keep_order_and_fields() {
    let t = Twitter::new(
        "handle".to_string(),
        "k".to_string(),
        "s".to_string(),
        vec!["keep".to_string()],
    );
    let tweets = vec![
        tweet(3, "keep me first"),
        tweet(2, "drop me"),
        tweet(1, "keep me second"),
    ];
    let out = t.entries_from_tweets(&tweets);
    assert_eq!(out.len(), 2);
    assert_eq!(out[0].id.as_deref(), Some("3"));
    assert_eq!(out[0].msg.body.as_deref(), Some("keep me first"));
    assert_eq!(
        out[0].msg.link.as_ref().map(|u| u.as_str()),
        Some("https://twitter.com/handle/status/3")
    );
    assert_eq!(out[1].id.as_deref(), Some("1"));
}

#[test]
fn media_maps_photos_and_videos_but_not_gifs() {
    let t = Twitter::new("h".to_string(), "k".to_string(), "s".to_string(), vec![]);
    let with_media = Tweet {
        id: 9,
        text: "m".to_string(),
        media: Some(vec![
            TweetMedia { kind: TweetMediaKind::Photo, url: "https://example.com/p".to_string() },
            TweetMedia { kind: TweetMediaKind::Video, url: "https://example.com/v".to_string() },
        ]),
    };
    let out = t.entries_from_tweets(&vec![with_media]);
    match &out[0].msg.media {
        Some(ms) => {
            assert_eq!(ms.len(), 2);
            assert!(matches!(&ms[0], Media::Photo(_)));
            assert!(matches!(&ms[1], Media::Video(_)));
        }
        None => panic!("expected media"),
    }
    let with_gif = Tweet {
        id: 10,
        text: "g".to_string(),
        media: Some(vec![TweetMedia {
            kind: TweetMediaKind::Gif,
            url: "https://example.com/g".to_string(),
        }]),
    };
    let out2 = t.entries_from_tweets(&vec![with_gif]);
    assert!(out2[0].msg.media.is_none());
}

#[test]
fn news_plan_walks_oldest_first_and_moves_watermark() {
    // Timeline arrives newest first; the run sends oldest first and the
    // watermark ends at the newest sent id.
    let tweets = vec![tweet(30, "d"), tweet(20, "c"), tweet(10, "b")];
    let (texts, last) = plan_news(&tweets, &None, Some(5));
    assert_eq!(texts, vec!["b".to_string(), "c".to_string(), "d".to_string()]);
    assert_eq!(last, Some(30));
}

#[test]
fn news_plan_without_matches_keeps_watermark() {
    let tweets = vec![tweet(30, "nothing here")];
    let filters = Some(vec!["absent".to_string()]);
    let (texts, last) = plan_news(&tweets, &filters, Some(7));
    assert!(texts.is_empty());
    assert_eq!(last, Some(7));
}

#[test]
fn news_plan_filters_and_ends_at_newest_sent() {
    let tweets = vec![tweet(30, "skip"), tweet(20, "keep this"), tweet(10, "keep too")];
    let filters = Some(vec!["keep".to_string()]);
    let (texts, last) = plan_news(&tweets, &filters, None);
    assert_eq!(texts, vec!["keep too".to_string(), "keep this".to_string()]);
    assert_eq!(last, Some(20));
}
