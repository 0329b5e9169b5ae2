use fetcher::action::{run_actions, Action, FilterAction, Shorten, Take, Transform,
    TransformErrorKind};
use fetcher::entry::{Entry, Message, Url};
use fetcher::read_filter::{Inner, Newer, ReadFilter};

fn entry(id: &str, title: &str, body: &str) -> Entry {
    Entry {
        id: Some(id.to_string()),
        raw_contents: None,
        msg: Message {
            title: Some(title.to_string()),
            body: Some(body.to_string()),
            link: None,
            media: None,
        },
    }
}

#[test]
fn caps_uppercases_title_and_body_and_keeps_rest() {
    // Per-entry transform plus merge fallback: id and link come back from
    // the original entry.
    let link = Url::parse("https://example.com/a").unwrap();
    let mut e = entry("id1", "hello", "world");
    e.msg.link = Some(link);
    let actions = vec![Action::Transform(Transform::Caps)];
    let out = run_actions(&actions, None, vec![e]).ok().unwrap();
    assert_eq!(out.len(), 1);
    assert_eq!(out[0].msg.title.as_deref(), Some("HELLO"));
    assert_eq!(out[0].msg.body.as_deref(), Some("WORLD"));
    assert_eq!(out[0].id.as_deref(), Some("id1"));
    assert!(out[0].msg.link.is_some());
}

#[test]
fn shorten_cuts_body_to_len() {
    let actions = vec![Action::Transform(Transform::Shorten(Shorten { len: 3 }))];
    let out = run_actions(&actions, None, vec![entry("i", "t", "abcdef")]).ok().unwrap();
    assert_eq!(out[0].msg.body.as_deref(), Some("abc"));
    assert_eq!(out[0].msg.title.as_deref(), Some("t"));
}

#[test]
fn take_keeps_first_n() {
    let actions = vec![Action::Filter(FilterAction::Take(Take { num: 2 }))];
    let batch = vec![entry("1", "a", "x"), entry("2", "b", "x"), entry("3", "c", "x")];
    let out = run_actions(&actions, None, batch).ok().unwrap();
    assert_eq!(out.len(), 2);
    assert_eq!(out[0].id.as_deref(), Some("1"));
    assert_eq!(out[1].id.as_deref(), Some("2"));
}

#[test]
fn read_filter_step_removes_read_entries() {
    let rf = ReadFilter {
        name: "t".to_string(),
        inner: Inner::NewerThanLastRead(Newer { last_read_id: Some("2".to_string()) }),
    };
    let actions = vec![Action::Filter(FilterAction::ReadFilterRemoval)];
    let batch = vec![entry("1", "a", "x"), entry("2", "b", "x"), entry("3", "c", "x")];
    let out = run_actions(&actions, Some(&rf), batch).ok().unwrap();
    assert_eq!(out.len(), 1);
    assert_eq!(out[0].id.as_deref(), Some("1"));
}

#[test]
fn missing_read_filter_disables_dedup() {
    let actions = vec![Action::Filter(FilterAction::ReadFilterRemoval)];
    let batch = vec![entry("1", "a", "x"), entry("2", "b", "x")];
    let out = run_actions(&actions, None, batch).ok().unwrap();
    assert_eq!(out.len(), 2);
}

#[test]
fn read_filter_as_transform_filters_batch() {
    let rf = ReadFilter {
        name: "t".to_string(),
        inner: Inner::NewerThanLastRead(Newer { last_read_id: Some("2".to_string()) }),
    };
    let actions = vec![Action::Transform(Transform::ReadFilter)];
    let batch = vec![entry("1", "a", "x"), entry("2", "b", "x")];
    let out = run_actions(&actions, Some(&rf), batch).ok().unwrap();
    assert_eq!(out.len(), 1);
}

#[test]
fn steps_apply_in_configured_order() {
    // Shorten then caps is not caps then shorten for these lengths, so the
    // output pins the order down.
    let actions = vec![
        Action::Transform(Transform::Shorten(Shorten { len: 2 })),
        Action::Transform(Transform::Caps),
    ];
    let out = run_actions(&actions, None, vec![entry("i", "t", "abcd")]).ok().unwrap();
    assert_eq!(out[0].msg.body.as_deref(), Some("AB"));
}

#[test]
fn failing_step_carries_original_entry() {
    // A JSON extraction on an entry without raw contents fails; the error
    // must carry the original, pre-transform entry.
    let q = fetcher::json::Json {
        itemq: vec!["items".to_string()],
        titleq: None,
        textq: vec![],
        idq: "id".to_string(),
        linkq: None,
        imgq: None,
    };
    let actions = vec![Action::Transform(Transform::Json(q))];
    let e = entry("orig", "t", "b");
    let err = match run_actions(&actions, None, vec![e]) {
        Err(err) => err,
        Ok(_) => panic!("expected the chain to fail"),
    };
    assert_eq!(err.original_entry.id.as_deref(), Some("orig"));
    assert!(matches!(
        err.kind,
        TransformErrorKind::Json(fetcher::json::JsonError::MissingRawContents)
    ));
}

#[test]
fn merge_fallback_claims_link_once() {
    // One input entry with a link, expanded into two outputs both omitting
    // the link: only the first output ends up with it.
    let doc = r#"{"items":[{"id":"a","t":"one"},{"id":"b","t":"two"}]}"#;
    let mut input = Entry {
        id: None,
        raw_contents: Some(doc.to_string()),
        msg: Message { title: None, body: None, link: None, media: None },
    };
    input.msg.link = Some(Url::parse("https://example.com/shared").unwrap());
    let q = fetcher::json::Json {
        itemq: vec!["items".to_string()],
        titleq: None,
        textq: vec![fetcher::json::TextQuery {
            string: "t".to_string(),
            prepend: None,
            append: None,
        }],
        idq: "id".to_string(),
        linkq: None,
        imgq: None,
    };
    let actions = vec![Action::Transform(Transform::Json(q))];
    let out = run_actions(&actions, None, vec![input]).ok().unwrap();
    assert_eq!(out.len(), 2);
    assert_eq!(out[0].msg.link.as_ref().map(|u| u.as_str()), Some("https://example.com/shared"));
    assert!(out[1].msg.link.is_none(), "the fallback link must be claimed only once");
}

#[test]
fn take_larger_than_batch_keeps_all() {
    let actions = vec![Action::Filter(FilterAction::Take(Take { num: 10 }))];
    let out = run_actions(&actions, None, vec![entry("1", "a", "x")]).ok().unwrap();
    assert_eq!(out.len(), 1);
}

#[test]
fn shorten_longer_than_body_keeps_it_whole() {
    let actions = vec![Action::Transform(Transform::Shorten(Shorten { len: 100 }))];
    let out = run_actions(&actions, None, vec![entry("i", "t", "ab")]).ok().unwrap();
    assert_eq!(out[0].msg.body.as_deref(), Some("ab"));
}

#[test]
fn empty_chain_passes_batch_through() {
    let actions: Vec<Action> = vec![];
    let out = run_actions(&actions, None, vec![entry("1", "a", "x")]).ok().unwrap();
    assert_eq!(out.len(), 1);
    assert_eq!(out[0].id.as_deref(), Some("1"));
}
