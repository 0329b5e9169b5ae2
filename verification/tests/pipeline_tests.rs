use fetcher::config::read_filter::{Kind, Newer as NewerConfig, ReadFilter as ReadFilterConfig};
use fetcher::config::source::{OneOrMultiple, Rss as RssConfig, SharedSourceConfig, SourceConfig,
    Twitter as TwitterConfig};
use fetcher::config::settings::{Discord, Google};
use fetcher::config::task::{ConfigError, Tag, TaskConfig};
use fetcher::config::transform::Shorten as ShortenConfig;
use fetcher::config::view_mode::ViewMode as ViewModeConfig;
use fetcher::entry::{Entry, Message};
use fetcher::exec::Exec;
use fetcher::file::File;
use fetcher::http::{entry_from_response, http_request_url, HttpError};
use fetcher::read_filter::{Inner, Newer, ReadFilter};
use fetcher::sink::{Sink, Stdout};
use fetcher::source::{SharedSource, Source};
use fetcher::task::{EntryToMsgMap, ExternalDataResult, Task};
use fetcher::telegram::Telegram;

#[test]
fn read_filter_config_round_trips() {
    let cfg = ReadFilterConfig::NewerThanRead(NewerConfig { last_read_id: "42".to_string() });
    let rf = cfg.parse("job");
    assert_eq!(rf.name, "job");
    match &rf.inner {
        Inner::NewerThanLastRead(n) => assert_eq!(n.last_read_id.as_deref(), Some("42")),
        _ => panic!("wrong strategy"),
    }
    match ReadFilterConfig::unparse(&rf.inner) {
        Some(ReadFilterConfig::NewerThanRead(n)) => assert_eq!(n.last_read_id, "42"),
        _ => panic!("expected a persisted watermark"),
    }
}

#[test]
fn empty_ledger_state_is_not_persisted() {
    let empty = fetcher::read_filter::Inner::NewerThanLastRead(Newer { last_read_id: None });
    assert!(ReadFilterConfig::unparse(&empty).is_none());
    let empty_list = fetcher::read_filter::Inner::NotPresentInReadList(
        fetcher::read_filter::NotPresent { read_list: vec![] },
    );
    assert!(ReadFilterConfig::unparse(&empty_list).is_none());
    let full_list = fetcher::read_filter::Inner::NotPresentInReadList(
        fetcher::read_filter::NotPresent { read_list: vec!["a".to_string()] },
    );
    match ReadFilterConfig::unparse(&full_list) {
        Some(ReadFilterConfig::NotPresentInReadList(n)) => {
            assert_eq!(n.read_list, vec!["a".to_string()])
        }
        _ => panic!("expected a persisted list"),
    }
}

#[test]
fn kind_and_view_mode_configs_map_across() {
    assert!(matches!(
        Kind::NewerThanRead.parse(),
        fetcher::read_filter::Kind::NewerThanLastRead
    ));
    assert!(matches!(
        ViewModeConfig::Delete.parse(),
        fetcher::email::ViewMode::Delete
    ));
}

#[test]
fn settings_round_trip() {
    let token = Discord { token: "abc".to_string() }.parse();
    assert_eq!(token, "abc");
    assert_eq!(Discord::unparse("abc".to_string()).token, "abc");
    let auth = Google {
        client_id: "i".to_string(),
        client_secret: "s".to_string(),
        refresh_token: "r".to_string(),
    }
    .parse();
    let back = Google::unparse(auth);
    assert_eq!(back.client_id, "i");
    assert_eq!(back.refresh_token, "r");
}

#[test]
fn shorten_config_parses_to_transform() {
    assert_eq!(ShortenConfig { len: 12 }.parse().len, 12);
}

#[test]
fn task_resolution_takes_ledger_when_found() {
    let cfg = TaskConfig {
        read_filter_kind: Some(Kind::NewerThanRead),
        tag: Some(Tag::Literal("news".to_string())),
        actions: None,
        sink: Some(Sink::Stdout(Stdout)),
        entry_to_msg_map_enabled: None,
    };
    let rf = ReadFilter {
        name: "t".to_string(),
        inner: Inner::NewerThanLastRead(Newer { last_read_id: None }),
    };
    let task = cfg
        .parse(None, ExternalDataResult::Found(rf), ExternalDataResult::Unavailable)
        .ok()
        .unwrap();
    assert!(task.read_filter.is_some());
    assert_eq!(task.tag.as_deref(), Some("news"));
    // A stdout sink cannot address sent messages: no map is kept.
    assert!(task.entry_to_msg_map.is_none());
}

#[test]
fn unavailable_ledger_degrades_gracefully() {
    let cfg = TaskConfig {
        read_filter_kind: Some(Kind::NewerThanRead),
        tag: None,
        actions: None,
        sink: None,
        entry_to_msg_map_enabled: None,
    };
    let task = cfg
        .parse(None, ExternalDataResult::Unavailable, ExternalDataResult::Unavailable)
        .ok()
        .unwrap();
    assert!(task.read_filter.is_none());
}

#[test]
fn failed_ledger_resolver_is_a_hard_error() {
    let cfg = TaskConfig {
        read_filter_kind: Some(Kind::NewerThanRead),
        tag: None,
        actions: None,
        sink: None,
        entry_to_msg_map_enabled: None,
    };
    match cfg.parse(
        None,
        ExternalDataResult::Failed("disk gone".to_string()),
        ExternalDataResult::Unavailable,
    ) {
        Err(ConfigError::ReadFilter(m)) => assert_eq!(m, "disk gone"),
        _ => panic!("expected a hard error"),
    }
}

#[test]
fn telegram_sink_enables_the_message_map_by_default() {
    let cfg = TaskConfig {
        read_filter_kind: None,
        tag: Some(Tag::UseTaskName),
        actions: None,
        sink: Some(Sink::Telegram(Telegram::new(5))),
        entry_to_msg_map_enabled: None,
    };
    let name = "mytask".to_string();
    let mut map = EntryToMsgMap::new();
    map.insert("e1".to_string(), 99);
    let task = cfg
        .parse(
            Some(&name),
            ExternalDataResult::Unavailable,
            ExternalDataResult::Found(map),
        )
        .ok()
        .unwrap();
    assert_eq!(task.tag.as_deref(), Some("mytask"));
    let m = task.entry_to_msg_map.expect("map kept for a telegram sink");
    assert_eq!(m.get(&"e1".to_string()), Some(99));
    assert_eq!(m.get(&"absent".to_string()), None);
}

#[test]
fn entry_to_msg_map_returns_latest_recording() {
    let mut map = EntryToMsgMap::new();
    map.insert("e".to_string(), 1);
    map.insert("e".to_string(), 2);
    assert_eq!(map.get(&"e".to_string()), Some(2));
}

#[test]
fn task_without_actions_passes_batch_through() {
    let task = Task {
        tag: None,
        read_filter: None,
        actions: None,
        sink: None,
        entry_to_msg_map: None,
    };
    let e = Entry {
        id: Some("1".to_string()),
        raw_contents: None,
        msg: Message { title: None, body: Some("b".to_string()), link: None, media: None },
    };
    let out = task.run(vec![e]).ok().unwrap();
    assert_eq!(out.len(), 1);
    assert_eq!(out[0].id.as_deref(), Some("1"));
}

#[test]
fn stdout_sink_formats_the_exact_block() {
    let s = Stdout;
    let msg = Message {
        title: Some("T".to_string()),
        body: Some("B".to_string()),
        link: None,
        media: None,
    };
    let text = s.format_message(&msg, &Some("tag1".to_string()));
    assert_eq!(
        text,
        "------------------------------\nMessage:\nTitle: T\n\nBody:\nB\n\nLink: None\n\nMedia: None\n\nTag: tag1\n------------------------------\n"
    );
}

#[test]
fn exec_source_and_sink_edges_compute() {
    let x = Exec::new("cat".to_string());
    let e = x.entry_from_output("payload".to_string());
    assert_eq!(e.raw_contents.as_deref(), Some("payload"));
    assert!(e.id.is_none());
    let msg = Message {
        title: None,
        body: Some("to stdin".to_string()),
        link: None,
        media: None,
    };
    assert_eq!(x.stdin_payload(&msg).as_deref(), Some("to stdin"));
    let empty = Message { title: None, body: None, link: None, media: None };
    assert!(x.stdin_payload(&empty).is_none());
}

#[test]
fn file_source_trims_its_text() {
    let f = File::new("/tmp/notes.txt".to_string());
    let e = f.entry_from_text("  contents \n");
    assert_eq!(e.msg.body.as_deref(), Some("contents"));
}

#[test]
fn source_config_resolves_one_and_many() {
    let rf = ReadFilter {
        name: "t".to_string(),
        inner: Inner::NewerThanLastRead(Newer { last_read_id: None }),
    };
    let one = SourceConfig::WithSharedReadFilter(OneOrMultiple::One(SharedSourceConfig::Rss(
        RssConfig { url: "https://example.com/feed".to_string() },
    )));
    match one.parse(rf, &"k".to_string(), &"s".to_string()) {
        Source::WithSharedReadFilter(g) => {
            assert_eq!(g.sources.len(), 1);
            match &g.sources[0] {
                SharedSource::Rss(r) => assert_eq!(r.url, "https://example.com/feed"),
                _ => panic!("expected the rss source"),
            }
        }
        _ => panic!("expected a shared-ledger source"),
    }

    let rf2 = ReadFilter {
        name: "t".to_string(),
        inner: Inner::NewerThanLastRead(Newer { last_read_id: None }),
    };
    let many = SourceConfig::WithSharedReadFilter(OneOrMultiple::Multiple(vec![
        SharedSourceConfig::Rss(RssConfig { url: "https://example.com/a".to_string() }),
        SharedSourceConfig::Twitter(TwitterConfig {
            handle: "who".to_string(),
            filter: vec![],
        }),
    ]));
    match many.parse(rf2, &"key".to_string(), &"sec".to_string()) {
        Source::WithSharedReadFilter(g) => {
            assert_eq!(g.sources.len(), 2);
            match &g.sources[1] {
                SharedSource::Twitter(t) => {
                    assert_eq!(t.handle, "who");
                    assert_eq!(t.api_key, "key");
                }
                _ => panic!("expected the timeline source"),
            }
        }
        _ => panic!("expected a shared-ledger source"),
    }
}

#[test]
fn http_transform_edges_compute() {
    let mut e = Entry {
        id: None,
        raw_contents: None,
        msg: Message { title: None, body: None, link: None, media: None },
    };
    assert!(matches!(http_request_url(&e), Err(HttpError::MissingUrl)));
    e.msg.link = fetcher::entry::Url::parse("https://example.com/page");
    match http_request_url(&e) {
        Ok(u) => assert_eq!(u.as_str(), "https://example.com/page"),
        Err(_) => panic!("expected the message link"),
    }
    let fresh = entry_from_response("<html></html>".to_string());
    assert_eq!(fresh.raw_contents.as_deref(), Some("<html></html>"));
    assert!(fresh.msg.body.is_none());
}
