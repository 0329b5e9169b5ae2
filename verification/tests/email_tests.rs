use fetcher::auth::GoogleAuth;
use fetcher::email::{build_search_string, entry_from_mail_bytes, mark_as_read_plan,
    uids_search_arg, Auth, Email, EmailFilters, ImapCommand, ViewMode};

fn filters(
    sender: Option<&str>,
    subjects: Option<Vec<&str>>,
    exclude: Option<Vec<&str>>,
) -> EmailFilters {
    EmailFilters {
        sender: sender.map(|s| s.to_string()),
        subjects: subjects.map(|v| v.into_iter().map(|s| s.to_string()).collect()),
        exclude_subjects: exclude.map(|v| v.into_iter().map(|s| s.to_string()).collect()),
    }
}

#[test]
fn search_string_without_filters_is_unseen() {
    assert_eq!(build_search_string(&filters(None, None, None)), "UNSEEN");
}

#[test]
fn search_string_combines_all_clauses_in_order() {
    let f = filters(
        Some("news@example.com"),
        Some(vec!["daily", "weekly"]),
        Some(vec!["spam"]),
    );
    assert_eq!(
        build_search_string(&f),
        "UNSEEN FROM \"news@example.com\" SUBJECT \"daily\" SUBJECT \"weekly\" NOT SUBJECT \"spam\""
    );
}

#[test]
fn uids_join_comma_separated() {
    assert_eq!(uids_search_arg(&vec![3, 17, 250]), "3,17,250");
    assert_eq!(uids_search_arg(&vec![]), "");
}

#[test]
fn gmail_source_uses_gmail_imap_server() {
    let e = Email::new_gmail(
        "me@gmail.com".to_string(),
        GoogleAuth::new("i".to_string(), "s".to_string(), "r".to_string()),
        filters(None, None, None),
        ViewMode::ReadOnly,
    );
    assert_eq!(e.imap, "imap.gmail.com");
    assert!(matches!(e.auth, Auth::GmailOAuth2(_)));
}

#[test]
fn generic_source_keeps_its_server_and_password() {
    let e = Email::new_generic(
        "mail.example.com".to_string(),
        "me@example.com".to_string(),
        "pw-1234".to_string(),
        filters(None, None, None),
        ViewMode::MarkAsRead,
    );
    assert_eq!(e.imap, "mail.example.com");
    match e.auth {
        Auth::Password(p) => assert_eq!(p, "pw-1234"),
        _ => panic!("expected password auth"),
    }
}

#[test]
fn parsed_mail_becomes_entry_with_subject_and_body() {
    // The mailparse wrapper must really parse: the subject header and the
    // body come decoded out of raw message bytes.
    let raw = b"Subject: Greetings\r\nFrom: a@example.com\r\n\r\nPlain body here\r\n";
    let entry = match entry_from_mail_bytes(raw, 42, &None) {
        Some(Ok(e)) => e,
        _ => panic!("expected an entry"),
    };
    assert_eq!(entry.id.as_deref(), Some("42"));
    assert_eq!(entry.msg.title.as_deref(), Some("Greetings"));
    assert_eq!(entry.msg.body.as_deref(), Some("Plain body here\n"));
}

#[test]
fn footer_and_everything_after_it_is_removed() {
    let raw = b"Subject: S\r\n\r\nkeep this\n-- \nsignature noise\r\n";
    let entry = match entry_from_mail_bytes(raw, 1, &Some("-- ".to_string())) {
        Some(Ok(e)) => e,
        _ => panic!("expected an entry"),
    };
    assert_eq!(entry.msg.body.as_deref(), Some("keep this\n"));
}

#[test]
fn html_in_mail_bodies_is_sanitized() {
    // The sanitizer must really run: the script element cannot survive.
    let raw = b"Subject: S\r\n\r\nhello <script>alert(1)</script>world\r\n";
    let entry = match entry_from_mail_bytes(raw, 1, &None) {
        Some(Ok(e)) => e,
        _ => panic!("expected an entry"),
    };
    let body = entry.msg.body.unwrap();
    assert!(!body.contains("<script>"), "script tags must not survive sanitizing: {body}");
    assert!(body.contains("hello"));
}

#[test]
fn multipart_mail_prefers_the_plain_text_part() {
    let raw = b"Subject: M\r\nMIME-Version: 1.0\r\nContent-Type: multipart/alternative; boundary=\"b\"\r\n\r\n--b\r\nContent-Type: text/html\r\n\r\n<p>html part</p>\r\n--b\r\nContent-Type: text/plain\r\n\r\nplain part\r\n--b--\r\n";
    let entry = match entry_from_mail_bytes(raw, 1, &None) {
        Some(Ok(e)) => e,
        _ => panic!("expected an entry"),
    };
    assert_eq!(entry.msg.body.as_deref(), Some("plain part"));
}

#[test]
fn mark_as_read_plan_follows_the_view_mode() {
    let id = "77".to_string();
    assert!(mark_as_read_plan(&ViewMode::ReadOnly, &id).is_empty());
    let seen = mark_as_read_plan(&ViewMode::MarkAsRead, &id);
    assert_eq!(seen.len(), 1);
    assert!(matches!(&seen[0], ImapCommand::StoreSeen(u) if u == "77"));
    let del = mark_as_read_plan(&ViewMode::Delete, &id);
    assert_eq!(del.len(), 2);
    assert!(matches!(&del[0], ImapCommand::StoreDeleted(u) if u == "77"));
    assert!(matches!(&del[1], ImapCommand::Expunge(u) if u == "77"));
}
