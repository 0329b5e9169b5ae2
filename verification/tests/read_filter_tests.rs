use fetcher::entry::{Entry, Message};
use fetcher::read_filter::{Inner, Newer, NotPresent, ReadFilter};

fn entry_with_id(id: &str) -> Entry {
    Entry {
        id: Some(id.to_string()),
        raw_contents: None,
        msg: Message { title: None, body: Some("body".to_string()), link: None, media: None },
    }
}

fn ids(entries: &[Entry]) -> Vec<String> {
    entries.iter().map(|e| e.id.clone().unwrap_or_default()).collect()
}

#[test]
fn newer_removes_watermark_and_older() {
    // Monotonic watermark: after mark_as_read("b"), a batch holding "b" and
    // everything after it loses all of them.
    let mut rf = Newer { last_read_id: None };
    rf.mark_as_read(&"b".to_string());
    let mut batch = vec![entry_with_id("a"), entry_with_id("b"), entry_with_id("c")];
    rf.remove_read(&mut batch);
    assert_eq!(ids(&batch), vec!["a".to_string()]);
}

#[test]
fn newer_without_watermark_keeps_all() {
    let rf = Newer { last_read_id: None };
    let mut batch = vec![entry_with_id("a"), entry_with_id("b")];
    rf.remove_read(&mut batch);
    assert_eq!(batch.len(), 2);
}

#[test]
fn newer_absent_watermark_id_keeps_all() {
    let rf = Newer { last_read_id: Some("zz".to_string()) };
    let mut batch = vec![entry_with_id("a"), entry_with_id("b")];
    rf.remove_read(&mut batch);
    assert_eq!(batch.len(), 2);
}

#[test]
fn remove_read_twice_is_idempotent_newer() {
    // Dedup idempotence, watermark strategy.
    let rf = Newer { last_read_id: Some("b".to_string()) };
    let mut once = vec![entry_with_id("a"), entry_with_id("b"), entry_with_id("c")];
    rf.remove_read(&mut once);
    let mut twice = once.clone();
    rf.remove_read(&mut twice);
    assert_eq!(ids(&once), ids(&twice));
}

#[test]
fn remove_read_twice_is_idempotent_not_present() {
    // Dedup idempotence, seen-set strategy.
    let rf = NotPresent { read_list: vec!["b".to_string(), "d".to_string()] };
    let mut once =
        vec![entry_with_id("a"), entry_with_id("b"), entry_with_id("c"), entry_with_id("d")];
    rf.remove_read(&mut once);
    assert_eq!(ids(&once), vec!["a".to_string(), "c".to_string()]);
    let mut twice = once.clone();
    rf.remove_read(&mut twice);
    assert_eq!(ids(&once), ids(&twice));
}

#[test]
fn not_present_mark_is_idempotent() {
    // Set membership stability: marking the same id many times equals once.
    let mut rf = NotPresent { read_list: vec![] };
    rf.mark_as_read(&"x".to_string());
    rf.mark_as_read(&"x".to_string());
    rf.mark_as_read(&"x".to_string());
    assert_eq!(rf.read_list, vec!["x".to_string()]);
}

#[test]
fn not_present_keeps_entries_without_id() {
    let rf = NotPresent { read_list: vec!["a".to_string()] };
    let no_id = Entry {
        id: None,
        raw_contents: None,
        msg: Message { title: None, body: None, link: None, media: None },
    };
    let mut batch = vec![no_id, entry_with_id("a")];
    rf.remove_read(&mut batch);
    assert_eq!(batch.len(), 1);
    assert!(batch[0].id.is_none());
}

#[test]
fn read_filter_dispatches_by_strategy() {
    let mut rf = ReadFilter {
        name: "feed".to_string(),
        inner: Inner::NewerThanLastRead(Newer { last_read_id: None }),
    };
    rf.mark_as_read(&"10".to_string());
    match &rf.inner {
        Inner::NewerThanLastRead(n) => {
            assert_eq!(n.last_read_id.as_deref(), Some("10"));
        }
        _ => panic!("wrong strategy"),
    }
    let mut batch = vec![entry_with_id("11"), entry_with_id("10"), entry_with_id("9")];
    rf.remove_read(&mut batch);
    assert_eq!(ids(&batch), vec!["11".to_string()]);
}

#[test]
fn empty_batch_stays_empty() {
    let rf = NotPresent { read_list: vec!["a".to_string()] };
    let mut batch: Vec<Entry> = vec![];
    rf.remove_read(&mut batch);
    assert!(batch.is_empty());
}
