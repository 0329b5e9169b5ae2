use fetcher::entry::{Entry, Media, Message};
use fetcher::json::{Json, JsonError, TextQuery};

fn raw_entry(doc: &str) -> Entry {
    Entry {
        id: None,
        raw_contents: Some(doc.to_string()),
        msg: Message { title: None, body: None, link: None, media: None },
    }
}

fn tq(key: &str) -> TextQuery {
    TextQuery { string: key.to_string(), prepend: None, append: None }
}

#[test]
fn type_error_is_order_first() {
    // First item's missing title key fails the batch, not the second
    // item's bad id: errors are order-first and batch-aborting.
    let q = Json {
        itemq: vec!["items".to_string()],
        titleq: Some("title".to_string()),
        textq: vec![],
        idq: "id".to_string(),
        linkq: None,
        imgq: None,
    };
    let e = raw_entry(r#"{"items":[{"id":1},{"id":"x"}]}"#);
    match q.parse(&e) {
        Err(JsonError::KeyNotFound(k)) => assert_eq!(k, "title"),
        _ => panic!("expected the first item's missing title key to fail the batch"),
    }
}

#[test]
fn array_items_extract_all_fields() {
    let q = Json {
        itemq: vec!["data".to_string(), "items".to_string()],
        titleq: Some("title".to_string()),
        textq: vec![tq("text")],
        idq: "id".to_string(),
        linkq: Some(tq("link")),
        imgq: Some(vec!["img".to_string(), "url".to_string()]),
    };
    let doc = r#"{"data":{"items":[
        {"title":"  One  ","text":" first ","id":7,
         "link":"https://example.com/a","img":{"url":"https://example.com/i.png"}}
    ]}}"#;
    let out = q.parse(&raw_entry(doc)).ok().unwrap();
    assert_eq!(out.len(), 1);
    assert_eq!(out[0].msg.title.as_deref(), Some("One"));
    assert_eq!(out[0].msg.body.as_deref(), Some("first"));
    assert_eq!(out[0].id.as_deref(), Some("7"));
    assert_eq!(out[0].msg.link.as_ref().map(|u| u.as_str()), Some("https://example.com/a"));
    match &out[0].msg.media {
        Some(ms) => match &ms[0] {
            Media::Photo(u) => assert_eq!(u.as_str(), "https://example.com/i.png"),
            _ => panic!("expected a photo"),
        },
        None => panic!("expected media"),
    }
}

#[test]
fn object_items_iterate_values_in_order() {
    let q = Json {
        itemq: vec!["items".to_string()],
        titleq: None,
        textq: vec![],
        idq: "id".to_string(),
        linkq: None,
        imgq: None,
    };
    let doc = r#"{"items":{"first":{"id":"a"},"second":{"id":"b"}}}"#;
    let out = q.parse(&raw_entry(doc)).ok().unwrap();
    assert_eq!(out.len(), 2);
    assert_eq!(out[0].id.as_deref(), Some("a"));
    assert_eq!(out[1].id.as_deref(), Some("b"));
}

#[test]
fn invalid_json_is_reported() {
    let q = Json {
        itemq: vec!["items".to_string()],
        titleq: None,
        textq: vec![],
        idq: "id".to_string(),
        linkq: None,
        imgq: None,
    };
    assert!(matches!(q.parse(&raw_entry("{not json")), Err(JsonError::InvalidJson)));
}

#[test]
fn non_iterable_items_name_last_segment_and_kinds() {
    let q = Json {
        itemq: vec!["a".to_string(), "b".to_string()],
        titleq: None,
        textq: vec![],
        idq: "id".to_string(),
        linkq: None,
        imgq: None,
    };
    match q.parse(&raw_entry(r#"{"a":{"b":3}}"#)) {
        Err(JsonError::KeyWrongType { key, expected_type, found_type }) => {
            assert_eq!(key, "b");
            assert_eq!(expected_type, "iterator (array, map)");
            assert_eq!(found_type, "number");
        }
        _ => panic!("expected a type error naming the last path segment"),
    }
}

#[test]
fn ids_may_be_string_signed_or_unsigned() {
    let q = Json {
        itemq: vec!["items".to_string()],
        titleq: None,
        textq: vec![],
        idq: "id".to_string(),
        linkq: None,
        imgq: None,
    };
    let doc = r#"{"items":[{"id":"s"},{"id":-12},{"id":18446744073709551615}]}"#;
    let out = q.parse(&raw_entry(doc)).ok().unwrap();
    assert_eq!(out[0].id.as_deref(), Some("s"));
    assert_eq!(out[1].id.as_deref(), Some("-12"));
    assert_eq!(out[2].id.as_deref(), Some("18446744073709551615"));
}

#[test]
fn boolean_id_is_a_type_error() {
    let q = Json {
        itemq: vec!["items".to_string()],
        titleq: None,
        textq: vec![],
        idq: "id".to_string(),
        linkq: None,
        imgq: None,
    };
    match q.parse(&raw_entry(r#"{"items":[{"id":true}]}"#)) {
        Err(JsonError::KeyWrongType { key, expected_type, found_type }) => {
            assert_eq!(key, "id");
            assert_eq!(expected_type, "string/i64/u64");
            assert_eq!(found_type, "bool");
        }
        _ => panic!("expected a type error for the boolean id"),
    }
}

#[test]
fn texts_are_wrapped_and_paragraph_joined() {
    let q = Json {
        itemq: vec!["items".to_string()],
        titleq: None,
        textq: vec![
            TextQuery {
                string: "a".to_string(),
                prepend: Some(">> ".to_string()),
                append: Some(" <<".to_string()),
            },
            tq("b"),
        ],
        idq: "id".to_string(),
        linkq: None,
        imgq: None,
    };
    let doc = r#"{"items":[{"id":"1","a":" x ","b":"y"}]}"#;
    let out = q.parse(&raw_entry(doc)).ok().unwrap();
    assert_eq!(out[0].msg.body.as_deref(), Some(">> x <<\n\ny"));
}

#[test]
fn link_is_wrapped_then_parsed_and_normalized() {
    // The URL wrapper must really run: a bare authority is normalized with
    // a trailing slash, so handing the text back unchanged would fail.
    let q = Json {
        itemq: vec!["items".to_string()],
        titleq: None,
        textq: vec![],
        idq: "id".to_string(),
        linkq: Some(TextQuery {
            string: "slug".to_string(),
            prepend: Some("https://example.com".to_string()),
            append: None,
        }),
        imgq: None,
    };
    let doc = r#"{"items":[{"id":"1","slug":""}]}"#;
    let out = q.parse(&raw_entry(doc)).ok().unwrap();
    assert_eq!(out[0].msg.link.as_ref().map(|u| u.as_str()), Some("https://example.com/"));
}

#[test]
fn invalid_link_reports_the_wrapped_text() {
    let q = Json {
        itemq: vec!["items".to_string()],
        titleq: None,
        textq: vec![],
        idq: "id".to_string(),
        linkq: Some(tq("link")),
        imgq: None,
    };
    match q.parse(&raw_entry(r#"{"items":[{"id":"1","link":"not a url"}]}"#)) {
        Err(JsonError::InvalidUrl(u)) => assert_eq!(u, "not a url"),
        _ => panic!("expected an invalid-url error"),
    }
}

#[test]
fn missing_raw_contents_is_an_error() {
    let q = Json {
        itemq: vec!["items".to_string()],
        titleq: None,
        textq: vec![],
        idq: "id".to_string(),
        linkq: None,
        imgq: None,
    };
    let e = Entry {
        id: None,
        raw_contents: None,
        msg: Message { title: None, body: None, link: None, media: None },
    };
    assert!(matches!(q.parse(&e), Err(JsonError::MissingRawContents)));
}

#[test]
fn missing_nested_image_key_names_the_segment() {
    let q = Json {
        itemq: vec!["items".to_string()],
        titleq: None,
        textq: vec![],
        idq: "id".to_string(),
        linkq: None,
        imgq: Some(vec!["img".to_string(), "url".to_string()]),
    };
    match q.parse(&raw_entry(r#"{"items":[{"id":"1","img":{}}]}"#)) {
        Err(JsonError::KeyNotFound(k)) => assert_eq!(k, "url"),
        _ => panic!("expected the nested key miss"),
    }
}

#[test]
fn empty_items_array_yields_no_entries() {
    let q = Json {
        itemq: vec!["items".to_string()],
        titleq: None,
        textq: vec![],
        idq: "id".to_string(),
        linkq: None,
        imgq: None,
    };
    let out = q.parse(&raw_entry(r#"{"items":[]}"#)).ok().unwrap();
    assert!(out.is_empty());
}
