use fetcher::html::{DataLocation, Html, HtmlError, HtmlNode, IdQuery, IdQueryKind, ImageQuery,
    LinkQuery, Query, QueryData, QueryKind, ReplaceRegex, TextQuery};

fn el(tag: &str, attrs: &[(&str, &str)], text: &str, children: Vec<HtmlNode>) -> HtmlNode {
    HtmlNode {
        tag: tag.to_string(),
        attrs: attrs.iter().map(|(k, v)| (k.to_string(), v.to_string())).collect(),
        text: text.to_string(),
        children,
    }
}

fn qd(levels: Vec<QueryKind>, loc: DataLocation) -> QueryData {
    QueryData {
        query: levels.into_iter().map(|k| Query { kind: k, ignore: None }).collect(),
        data_location: loc,
        regex: None,
    }
}

fn fixture() -> HtmlNode {
    // Two <div class="item"> blocks, each with an <h1> title and an
    // <a href> link.
    el("html", &[], "", vec![el("body", &[], "", vec![
        el("div", &[("class", "item")], "", vec![
            el("h1", &[], "First title", vec![]),
            el("a", &[("href", "https://example.com/one")], "read one", vec![]),
        ]),
        el("div", &[("class", "footer")], "", vec![
            el("h1", &[], "Not an item", vec![]),
        ]),
        el("div", &[("class", "item")], "", vec![
            el("h1", &[], "Second title", vec![]),
            el("a", &[("href", "https://example.com/two")], "read two", vec![]),
        ]),
    ])])
}

fn item_query() -> Html {
    Html {
        itemq: vec![Query {
            kind: QueryKind::Class("item".to_string()),
            ignore: None,
        }],
        titleq: Some(qd(vec![QueryKind::Tag("h1".to_string())], DataLocation::Text)),
        textq: vec![],
        idq: IdQuery {
            kind: IdQueryKind::String,
            inner: qd(
                vec![QueryKind::Tag("a".to_string())],
                DataLocation::Attr("href".to_string()),
            ),
        },
        linkq: LinkQuery {
            prepend: None,
            inner: qd(
                vec![QueryKind::Tag("a".to_string())],
                DataLocation::Attr("href".to_string()),
            ),
        },
        imgq: None,
    }
}

#[test]
fn extraction_yields_both_items_in_document_order() {
    // The fixture round-trip: exactly two entries, titles and links equal
    // to the fixture's literal text and attribute values, in order.
    let out = item_query().parse(&fixture()).ok().unwrap();
    assert_eq!(out.len(), 2);
    assert_eq!(out[0].msg.title.as_deref(), Some("First title"));
    assert_eq!(out[0].msg.link.as_ref().map(|u| u.as_str()), Some("https://example.com/one"));
    assert_eq!(out[1].msg.title.as_deref(), Some("Second title"));
    assert_eq!(out[1].msg.link.as_ref().map(|u| u.as_str()), Some("https://example.com/two"));
    assert_eq!(out[0].id.as_deref(), Some("https://example.com/one"));
}

#[test]
fn ignore_list_skips_matching_candidates() {
    let mut q = item_query();
    q.itemq = vec![Query {
        kind: QueryKind::Tag("div".to_string()),
        ignore: Some(vec![QueryKind::Class("footer".to_string())]),
    }];
    let out = q.parse(&fixture()).ok().unwrap();
    assert_eq!(out.len(), 2);
}

#[test]
fn class_matching_is_token_based() {
    let doc = el("html", &[], "", vec![
        el("div", &[("class", "card item-wide")], "", vec![
            el("h1", &[], "No", vec![]),
        ]),
    ]);
    let mut q = item_query();
    q.itemq = vec![Query { kind: QueryKind::Class("item".to_string()), ignore: None }];
    // "item-wide" is not the token "item", so nothing matches.
    let out = q.parse(&doc).ok().unwrap();
    assert!(out.is_empty());
}

#[test]
fn text_content_concatenates_descendants() {
    let doc = el("html", &[], "", vec![
        el("div", &[("class", "item")], "", vec![
            el("h1", &[], "A ", vec![el("b", &[], "bold", vec![])]),
            el("a", &[("href", "https://example.com/x")], "", vec![]),
        ]),
    ]);
    let out = item_query().parse(&doc).ok().unwrap();
    assert_eq!(out[0].msg.title.as_deref(), Some("A bold"));
}

#[test]
fn texts_concatenate_paragraph_joined_with_prepend() {
    let doc = el("html", &[], "", vec![
        el("div", &[("class", "item")], "", vec![
            el("h1", &[], "T", vec![]),
            el("p", &[], "one", vec![]),
            el("a", &[("href", "https://example.com/x")], "", vec![]),
        ]),
    ]);
    let mut q = item_query();
    q.textq = vec![TextQuery {
        prepend: Some("| ".to_string()),
        inner: qd(vec![QueryKind::Tag("p".to_string())], DataLocation::Text),
    }];
    let out = q.parse(&doc).ok().unwrap();
    assert_eq!(out[0].msg.body.as_deref(), Some("| one"));
}

#[test]
fn missing_id_fails_the_extraction() {
    let doc = el("html", &[], "", vec![
        el("div", &[("class", "item")], "", vec![el("h1", &[], "T", vec![])]),
    ]);
    let mut q = item_query();
    q.idq = IdQuery {
        kind: IdQueryKind::String,
        inner: qd(vec![QueryKind::Tag("span".to_string())], DataLocation::Text),
    };
    q.linkq = LinkQuery {
        prepend: Some("https://example.com/".to_string()),
        inner: qd(vec![QueryKind::Tag("h1".to_string())], DataLocation::Text),
    };
    assert!(matches!(q.parse(&doc), Err(HtmlError::IdNotFound)));
}

#[test]
fn missing_required_image_fails_and_optional_does_not() {
    let doc = fixture();
    let mut q = item_query();
    q.imgq = Some(ImageQuery {
        inner: qd(
            vec![QueryKind::Tag("img".to_string())],
            DataLocation::Attr("src".to_string()),
        ),
        optional: false,
    });
    assert!(matches!(q.parse(&doc), Err(HtmlError::ImageNotFound)));
    let mut q2 = item_query();
    q2.imgq = Some(ImageQuery {
        inner: qd(
            vec![QueryKind::Tag("img".to_string())],
            DataLocation::Attr("src".to_string()),
        ),
        optional: true,
    });
    let out = q2.parse(&doc).ok().unwrap();
    assert!(out[0].msg.media.is_none());
}

#[test]
fn regex_replaces_extracted_data() {
    // The regex wrapper must really replace: handing the text back
    // unchanged would fail this.
    let doc = el("html", &[], "", vec![
        el("div", &[("class", "item")], "", vec![
            el("h1", &[], "episode 042 aired", vec![]),
            el("a", &[("href", "https://example.com/x")], "", vec![]),
        ]),
    ]);
    let mut q = item_query();
    q.titleq = Some(QueryData {
        query: vec![Query { kind: QueryKind::Tag("h1".to_string()), ignore: None }],
        data_location: DataLocation::Text,
        regex: Some(ReplaceRegex {
            re: r"episode (?P<num>[0-9]+) aired".to_string(),
            replace_with: "#$num".to_string(),
        }),
    });
    let out = q.parse(&doc).ok().unwrap();
    assert_eq!(out[0].msg.title.as_deref(), Some("#042"));
}

#[test]
fn invalid_regex_pattern_is_an_error() {
    let doc = fixture();
    let mut q = item_query();
    q.titleq = Some(QueryData {
        query: vec![Query { kind: QueryKind::Tag("h1".to_string()), ignore: None }],
        data_location: DataLocation::Text,
        regex: Some(ReplaceRegex { re: "(".to_string(), replace_with: "x".to_string() }),
    });
    match q.parse(&doc) {
        Err(HtmlError::InvalidRegexPattern(p)) => assert_eq!(p, "("),
        _ => panic!("expected an invalid-pattern error"),
    }
}

#[test]
fn date_ids_normalize_to_epoch_seconds() {
    // The date wrapper must really parse: 2022-01-01T00:00:00Z is second
    // 1640995200 of the epoch.
    let doc = el("html", &[], "", vec![
        el("div", &[("class", "item")], "", vec![
            el("h1", &[], "T", vec![]),
            el("time", &[], "2022-01-01T00:00:00Z", vec![]),
            el("a", &[("href", "https://example.com/x")], "", vec![]),
        ]),
    ]);
    let mut q = item_query();
    q.idq = IdQuery {
        kind: IdQueryKind::Date,
        inner: qd(vec![QueryKind::Tag("time".to_string())], DataLocation::Text),
    };
    let out = q.parse(&doc).ok().unwrap();
    assert_eq!(out[0].id.as_deref(), Some("1640995200"));
}

#[test]
fn bad_date_id_is_an_error() {
    let doc = el("html", &[], "", vec![
        el("div", &[("class", "item")], "", vec![
            el("h1", &[], "T", vec![]),
            el("time", &[], "yesterday", vec![]),
            el("a", &[("href", "https://example.com/x")], "", vec![]),
        ]),
    ]);
    let mut q = item_query();
    q.idq = IdQuery {
        kind: IdQueryKind::Date,
        inner: qd(vec![QueryKind::Tag("time".to_string())], DataLocation::Text),
    };
    match q.parse(&doc) {
        Err(HtmlError::InvalidTimeFormat(t)) => assert_eq!(t, "yesterday"),
        _ => panic!("expected an invalid-time error"),
    }
}

#[test]
fn descendant_chain_narrows_level_by_level() {
    let doc = el("html", &[], "", vec![
        el("section", &[], "", vec![
            el("div", &[("class", "item")], "", vec![
                el("h1", &[], "Inside", vec![]),
                el("a", &[("href", "https://example.com/in")], "", vec![]),
            ]),
        ]),
        el("div", &[("class", "item")], "", vec![
            el("h1", &[], "Outside", vec![]),
            el("a", &[("href", "https://example.com/out")], "", vec![]),
        ]),
    ]);
    let mut q = item_query();
    q.itemq = vec![
        Query { kind: QueryKind::Tag("section".to_string()), ignore: None },
        Query { kind: QueryKind::Class("item".to_string()), ignore: None },
    ];
    let out = q.parse(&doc).ok().unwrap();
    assert_eq!(out.len(), 1);
    assert_eq!(out[0].msg.title.as_deref(), Some("Inside"));
}
