use fetcher::config::html as html_cfg;
use fetcher::config::json as json_cfg;
use fetcher::html::HtmlNode;

fn el(tag: &str, attrs: &[(&str, &str)], text: &str, children: Vec<HtmlNode>) -> HtmlNode {
    HtmlNode {
        tag: tag.to_string(),
        attrs: attrs.iter().map(|(k, v)| (k.to_string(), v.to_string())).collect(),
        text: text.to_string(),
        children,
    }
}

#[test]
fn configured_html_query_drives_the_engine() {
    let cfg = html_cfg::Html {
        itemq: vec![html_cfg::QueryKind::Class { value: "item".to_string() }],
        titleq: Some(html_cfg::Query {
            kind: vec![html_cfg::QueryKind::Tag { value: "h1".to_string() }],
            data_location: html_cfg::DataLocation::Text,
        }),
        textq: vec![],
        idq: html_cfg::IdQuery {
            kind: html_cfg::IdQueryKind::String,
            inner: html_cfg::Query {
                kind: vec![html_cfg::QueryKind::Tag { value: "a".to_string() }],
                data_location: html_cfg::DataLocation::Attr { value: "href".to_string() },
            },
        },
        linkq: html_cfg::LinkQuery {
            prepend: None,
            inner: html_cfg::Query {
                kind: vec![html_cfg::QueryKind::Tag { value: "a".to_string() }],
                data_location: html_cfg::DataLocation::Attr { value: "href".to_string() },
            },
        },
        imgq: None,
    };
    let engine = cfg.parse();
    let doc = el("html", &[], "", vec![
        el("div", &[("class", "item")], "", vec![
            el("h1", &[], "Hello", vec![]),
            el("a", &[("href", "https://example.com/x")], "", vec![]),
        ]),
    ]);
    let out = engine.parse(&doc).ok().unwrap();
    assert_eq!(out.len(), 1);
    assert_eq!(out[0].msg.title.as_deref(), Some("Hello"));
    assert_eq!(out[0].msg.link.as_ref().map(|u| u.as_str()), Some("https://example.com/x"));
}

#[test]
fn configured_json_query_drives_the_engine() {
    let cfg = json_cfg::Json {
        itemq: vec!["items".to_string()],
        titleq: Some("title".to_string()),
        textq: Some(vec![json_cfg::TextQuery {
            string: "text".to_string(),
            prepend: None,
            append: None,
        }]),
        idq: "id".to_string(),
        linkq: None,
        imgq: None,
    };
    let engine = cfg.parse();
    let entry = fetcher::entry::Entry {
        id: None,
        raw_contents: Some(r#"{"items":[{"id":"1","title":"T","text":"B"}]}"#.to_string()),
        msg: fetcher::entry::Message { title: None, body: None, link: None, media: None },
    };
    let out = engine.parse(&entry).ok().unwrap();
    assert_eq!(out.len(), 1);
    assert_eq!(out[0].msg.title.as_deref(), Some("T"));
    assert_eq!(out[0].msg.body.as_deref(), Some("B"));
}

#[test]
fn configured_json_query_without_texts_yields_empty_body() {
    let cfg = json_cfg::Json {
        itemq: vec!["items".to_string()],
        titleq: None,
        textq: None,
        idq: "id".to_string(),
        linkq: None,
        imgq: None,
    };
    let engine = cfg.parse();
    let entry = fetcher::entry::Entry {
        id: None,
        raw_contents: Some(r#"{"items":[{"id":"1"}]}"#.to_string()),
        msg: fetcher::entry::Message { title: None, body: None, link: None, media: None },
    };
    let out = engine.parse(&entry).ok().unwrap();
    assert_eq!(out[0].msg.body.as_deref(), Some(""));
}

#[test]
fn configured_image_query_defaults_to_required() {
    let cfg = html_cfg::ImageQuery {
        optional: None,
        inner: html_cfg::LinkQuery {
            prepend: None,
            inner: html_cfg::Query {
                kind: vec![html_cfg::QueryKind::Tag { value: "img".to_string() }],
                data_location: html_cfg::DataLocation::Attr { value: "src".to_string() },
            },
        },
    };
    let engine = cfg.parse();
    assert!(!engine.optional);
}
