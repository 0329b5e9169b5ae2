//! The email source's logic: the IMAP search string, the parsing of a
//! fetched mail into an entry, and the mark-as-read plan.
//!
//! The network side of IMAP — connecting, authenticating, issuing the
//! commands — is outside this library; what stands here is everything that
//! decides and computes: which search string is issued for a filter set,
//! how a raw mail (parsed by `mailparse` behind a trusted wrapper) becomes
//! an entry, and which commands a mark-as-read request must issue under
//! each view mode.

use vstd::prelude::*;

use crate::auth::GoogleAuth;
use crate::entry::{Entry, EntryV, Message, MessageV};
use crate::text::{contains_seq, dec_rep, join_spec, occurs_at, trim_back_spec, views_of};

verus! {

/// What an IMAP session may do to fetched mail.
pub enum ViewMode {
    /// Never mutate anything on the server.
    ReadOnly,
    /// Mark delivered mail as seen.
    MarkAsRead,
    /// Delete delivered mail.
    Delete,
}

impl Clone for ViewMode {
    fn clone(&self) -> (r: Self)
        ensures
            r == *self,
    {
        match self {
            ViewMode::ReadOnly => ViewMode::ReadOnly,
            ViewMode::MarkAsRead => ViewMode::MarkAsRead,
            ViewMode::Delete => ViewMode::Delete,
        }
    }
}

/// The IMAP search filters of an email source.
pub struct EmailFilters {
    /// Keep only mail from this sender.
    pub sender: Option<String>,
    /// Keep only mail whose subject contains each of these.
    pub subjects: Option<Vec<String>>,
    /// Drop mail whose subject contains any of these.
    pub exclude_subjects: Option<Vec<String>>,
}

/// The mathematical view of [`EmailFilters`].
#[verifier::ext_equal]
pub struct EmailFiltersV {
    /// The sender filter, if any.
    pub sender: Option<Seq<char>>,
    /// The subject filters, if any.
    pub subjects: Option<Seq<Seq<char>>>,
    /// The excluded-subject filters, if any.
    pub exclude_subjects: Option<Seq<Seq<char>>>,
}

impl View for EmailFilters {
    type V = EmailFiltersV;

    open spec fn view(&self) -> EmailFiltersV {
        EmailFiltersV {
            sender: match &self.sender {
                Some(s) => Some(s@),
                None => None,
            },
            subjects: match &self.subjects {
                Some(v) => Some(views_of(v@)),
                None => None,
            },
            exclude_subjects: match &self.exclude_subjects {
                Some(v) => Some(views_of(v@)),
                None => None,
            },
        }
    }
}

/// How an email source authenticates.
pub enum Auth {
    /// A plain IMAP password.
    Password(String),
    /// Google OAuth2, as used for Gmail.
    GmailOAuth2(GoogleAuth),
}

/// An email source: fetches subjects and bodies over IMAP.
pub struct Email {
    /// The IMAP server name.
    pub imap: String,
    /// The mailbox address and IMAP login.
    pub email: String,
    /// The authentication method.
    pub auth: Auth,
    /// The search filters.
    pub filters: EmailFilters,
    /// What the session may do to fetched mail.
    pub view_mode: ViewMode,
}

impl Email {
    /// An email source for Gmail, authenticating with Google OAuth2.
    pub fn new_gmail(email: String, auth: GoogleAuth, filters: EmailFilters, view_mode: ViewMode)
        -> (r: Self)
        ensures
            r.imap@ == "imap.gmail.com"@,
            r.email@ == email@,
            r.auth is GmailOAuth2,
            r.filters@ == filters@,
            r.view_mode == view_mode,
    {
        Email {
            imap: String::from_str("imap.gmail.com"),
            email,
            auth: Auth::GmailOAuth2(auth),
            filters,
            view_mode,
        }
    }

    /// An email source for any IMAP server, authenticating with a
    /// password.
    pub fn new_generic(
        imap: String,
        email: String,
        password: String,
        filters: EmailFilters,
        view_mode: ViewMode,
    ) -> (r: Self)
        ensures
            r.imap@ == imap@,
            r.email@ == email@,
            r.auth matches Auth::Password(p) && p@ == password@,
            r.filters@ == filters@,
            r.view_mode == view_mode,
    {
        Email { imap, email, auth: Auth::Password(password), filters, view_mode }
    }

    /// The IMAP search string for this source's filters.
    pub fn search_string(&self) -> (r: String)
        ensures
            r@ == search_spec(self.filters@),
    {
        build_search_string(&self.filters)
    }
}

/// The quoted filter clauses: `prefix "x" ` for each element, in order.
pub open spec fn quoted_parts(prefix: Seq<char>, xs: Seq<Seq<char>>) -> Seq<char>
    decreases xs.len(),
{
    if xs.len() == 0 {
        Seq::empty()
    } else {
        prefix + "\""@ + xs[0] + "\" "@ + quoted_parts(prefix, xs.drop_first())
    }
}

/// The IMAP search string for a filter set: `UNSEEN`, then a `FROM`
/// clause for the sender, a `SUBJECT` clause per required subject and a
/// `NOT SUBJECT` clause per excluded subject, each value quoted, with the
/// trailing blank removed.
pub open spec fn search_spec(f: EmailFiltersV) -> Seq<char> {
    trim_back_spec(
        "UNSEEN "@ + (match f.sender {
            Some(s) => "FROM "@ + "\""@ + s + "\" "@,
            None => Seq::empty(),
        }) + (match f.subjects {
            Some(xs) => quoted_parts("SUBJECT "@, xs),
            None => Seq::empty(),
        }) + (match f.exclude_subjects {
            Some(xs) => quoted_parts("NOT SUBJECT "@, xs),
            None => Seq::empty(),
        }),
    )
}

fn append_quoted_parts(out: &mut String, prefix: &str, xs: &Vec<String>)
    ensures
        final(out)@ == old(out)@ + quoted_parts(prefix@, views_of(xs@)),
{
    let ghost xv = views_of(xs@);
    let ghost init = out@;
    proof {
        assert(xv.skip(0) =~= xv);
    }
    let mut i: usize = 0;
    while i < xs.len()
        invariant
            xv == views_of(xs@),
            i <= xs.len(),
            out@ + quoted_parts(prefix@, xv.skip(i as int)) == init + quoted_parts(prefix@, xv),
        decreases xs.len() - i,
    {
        proof {
            assert(xv.skip(i as int)[0] == xv[i as int]);
            assert(xv[i as int] == xs@[i as int]@);
            assert(xv.skip(i as int).drop_first() =~= xv.skip(i + 1));
        }
        let ghost before = out@;
        out.append(prefix);
        out.append("\"");
        out.append(xs[i].as_str());
        out.append("\" ");
        proof {
            assert((before + (prefix@ + "\""@ + xv[i as int] + "\" "@)) + quoted_parts(
                prefix@,
                xv.skip(i + 1),
            ) =~= before + ((prefix@ + "\""@ + xv[i as int] + "\" "@) + quoted_parts(
                prefix@,
                xv.skip(i + 1),
            )));
            assert(out@ =~= before + (prefix@ + "\""@ + xv[i as int] + "\" "@));
        }
        i = i + 1;
    }
    proof {
        assert(xv.skip(xv.len() as int) =~= Seq::<Seq<char>>::empty());
        assert(out@ + Seq::<char>::empty() =~= out@);
    }
}

/// Builds the IMAP search string for a filter set.
pub fn build_search_string(f: &EmailFilters) -> (r: String)
    ensures
        r@ == search_spec(f@),
{
    let mut out = String::from_str("UNSEEN ");
    match &f.sender {
        Some(s) => {
            out.append("FROM ");
            out.append("\"");
            out.append(s.as_str());
            out.append("\" ");
            proof {
                assert(out@ =~= "UNSEEN "@ + ("FROM "@ + "\""@ + f@.sender->0 + "\" "@));
            }
        },
        None => {
            proof {
                assert(out@ =~= "UNSEEN "@ + Seq::<char>::empty());
            }
        },
    }
    let ghost mid1 = out@;
    match &f.subjects {
        Some(xs) => {
            append_quoted_parts(&mut out, "SUBJECT ", xs);
        },
        None => {
            proof {
                assert(mid1 + Seq::<char>::empty() =~= mid1);
            }
        },
    }
    let ghost mid2 = out@;
    match &f.exclude_subjects {
        Some(xs) => {
            append_quoted_parts(&mut out, "NOT SUBJECT ", xs);
        },
        None => {
            proof {
                assert(mid2 + Seq::<char>::empty() =~= mid2);
            }
        },
    }
    proof {
        assert(out@ =~= "UNSEEN "@ + (match f@.sender {
            Some(s) => "FROM "@ + "\""@ + s + "\" "@,
            None => Seq::<char>::empty(),
        }) + (match f@.subjects {
            Some(xs) => quoted_parts("SUBJECT "@, xs),
            None => Seq::<char>::empty(),
        }) + (match f@.exclude_subjects {
            Some(xs) => quoted_parts("NOT SUBJECT "@, xs),
            None => Seq::<char>::empty(),
        }));
    }
    crate::text::trim_end(out.as_str())
}

/// The search argument naming the fetched mail: the uids, in decimal, comma
/// separated.
pub fn uids_search_arg(ids: &Vec<u64>) -> (r: String)
    ensures
        r@ == join_spec(ids@.map_values(|n: u64| dec_rep(n as nat)), ","@),
{
    let mut texts: Vec<String> = Vec::new();
    let mut i: usize = 0;
    while i < ids.len()
        invariant
            i <= ids.len(),
            views_of(texts@) =~= ids@.take(i as int).map_values(|n: u64| dec_rep(n as nat)),
        decreases ids.len() - i,
    {
        let ghost prev = views_of(texts@);
        let t = crate::text::u64_to_string(ids[i]);
        texts.push(t);
        proof {
            assert(views_of(texts@) =~= prev.push(dec_rep(ids@[i as int] as nat)));
            assert(ids@.take(i + 1).map_values(|n: u64| dec_rep(n as nat)) =~= ids@.take(
                i as int,
            ).map_values(|n: u64| dec_rep(n as nat)).push(dec_rep(ids@[i as int] as nat)));
        }
        i = i + 1;
    }
    proof {
        assert(ids@.take(ids@.len() as int) =~= ids@);
    }
    crate::text::join(&texts, ",")
}

/// One part of a fetched mail.
pub struct MailPart {
    /// The part's MIME type.
    pub mimetype: String,
    /// The part's decoded body, when it could be decoded.
    pub body: Option<String>,
}

/// The mathematical view of a [`MailPart`].
#[verifier::ext_equal]
pub struct MailPartV {
    /// The part's MIME type.
    pub mimetype: Seq<char>,
    /// The part's decoded body, if any.
    pub body: Option<Seq<char>>,
}

impl View for MailPart {
    type V = MailPartV;

    open spec fn view(&self) -> MailPartV {
        MailPartV {
            mimetype: self.mimetype@,
            body: match &self.body {
                Some(b) => Some(b@),
                None => None,
            },
        }
    }
}

/// A fetched mail: its headers, its own body and its direct subparts.
pub struct Mail {
    /// The headers, as name-value pairs in message order.
    pub headers: Vec<(String, String)>,
    /// The decoded body of the message itself, when it could be decoded.
    pub body: Option<String>,
    /// The direct subparts of a multipart message.
    pub subparts: Vec<MailPart>,
}

/// The mathematical view of a [`Mail`].
#[verifier::ext_equal]
pub struct MailV {
    /// The headers, as name-value pairs.
    pub headers: Seq<(Seq<char>, Seq<char>)>,
    /// The decoded body, if any.
    pub body: Option<Seq<char>>,
    /// The direct subparts.
    pub subparts: Seq<MailPartV>,
}

impl View for Mail {
    type V = MailV;

    open spec fn view(&self) -> MailV {
        MailV {
            headers: crate::html::pairs_view(self.headers@),
            body: match &self.body {
                Some(b) => Some(b@),
                None => None,
            },
            subparts: self.subparts@.map_values(|p: MailPart| p@),
        }
    }
}

/// What `mailparse::parse_mail` parses a raw message to, in the library's
/// mail model, named: the result depends on the bytes alone.  `None`
/// stands for a parse error.
pub uninterp spec fn mail_of(b: Seq<u8>) -> Option<MailV>;

/// Relies on `mailparse::parse_mail` for message parsing, on
/// `MailHeader::get_key` / `get_value` for the headers and on
/// `ParsedMail::get_body` for the decoded bodies; an undecodable body is
/// carried as absent.
#[verifier::external_body]
fn parse_mail_bytes(b: &[u8]) -> (r: Option<Mail>)
    ensures
        match r {
            Some(m) => mail_of(b@) == Some(m@),
            None => mail_of(b@) is None,
        },
{
    match mailparse::parse_mail(b) {
        Ok(m) => Some(Mail {
            headers: m.headers.iter().map(|h| (h.get_key(), h.get_value())).collect(),
            body: m.get_body().ok(),
            subparts: m.subparts.iter().map(|p| MailPart {
                mimetype: p.ctype.mimetype.clone(),
                body: p.get_body().ok(),
            }).collect(),
        }),
        Err(_) => None,
    }
}

/// What `ammonia::clean` returns, named: the sanitized HTML depends on the
/// input characters alone.
pub uninterp spec fn sanitized_of(s: Seq<char>) -> Seq<char>;

/// Relies on `ammonia::clean` for HTML sanitizing.
#[verifier::external_body]
fn clean_html(s: &str) -> (r: String)
    ensures
        r@ == sanitized_of(s@),
{
    ammonia::clean(s)
}

/// An error of the mail-to-entry parsing step.
pub enum EmailParseError {
    /// The selected part carries no decodable body.
    NoBody,
}

/// The value of the first header named `name`, if any.
pub open spec fn header_of(headers: Seq<(Seq<char>, Seq<char>)>, name: Seq<char>) -> Option<
    Seq<char>,
>
    decreases headers.len(),
{
    if headers.len() == 0 {
        None
    } else if headers[0].0 == name {
        Some(headers[0].1)
    } else {
        header_of(headers.drop_first(), name)
    }
}

proof fn lemma_header_of_none(headers: Seq<(Seq<char>, Seq<char>)>, name: Seq<char>)
    requires
        forall|j: int| 0 <= j < headers.len() ==> headers[j].0 != name,
    ensures
        header_of(headers, name) is None,
    decreases headers.len(),
{
    if headers.len() > 0 {
        lemma_header_of_none(headers.drop_first(), name);
    }
}

proof fn lemma_header_of_found(headers: Seq<(Seq<char>, Seq<char>)>, name: Seq<char>, k: int)
    requires
        0 <= k < headers.len(),
        headers[k].0 == name,
        forall|j: int| 0 <= j < k ==> headers[j].0 != name,
    ensures
        header_of(headers, name) == Some(headers[k].1),
    decreases headers.len(),
{
    if k > 0 {
        lemma_header_of_found(headers.drop_first(), name, k - 1);
    }
}

/// The subject of the mail: the value of its first `Subject` header.
pub open spec fn subject_of(m: MailV) -> Option<Seq<char>> {
    header_of(m.headers, "Subject"@)
}

fn find_subject(mail: &Mail) -> (r: Option<String>)
    ensures
        match r {
            Some(s) => subject_of(mail@) == Some(s@),
            None => subject_of(mail@) is None,
        },
{
    let needle = String::from_str("Subject");
    let ghost hv = mail@.headers;
    proof {
        assert forall|j: int| 0 <= j < mail.headers@.len() implies hv[j] == (
        #[trigger] mail.headers@[j].0@,
        mail.headers@[j].1@,
        ) by {
            assert(hv[j] == (mail.headers@[j].0@, mail.headers@[j].1@));
        }
    }
    let mut i: usize = 0;
    while i < mail.headers.len()
        invariant
            hv == mail@.headers,
            hv.len() == mail.headers@.len(),
            forall|j: int|
                0 <= j < mail.headers@.len() ==> hv[j] == (
                #[trigger] mail.headers@[j].0@,
                mail.headers@[j].1@,
                ),
            needle@ == "Subject"@,
            i <= mail.headers.len(),
            forall|j: int| 0 <= j < i ==> hv[j].0 != "Subject"@,
        decreases mail.headers.len() - i,
    {
        if mail.headers[i].0 == needle {
            proof {
                lemma_header_of_found(hv, "Subject"@, i as int);
            }
            return Some(mail.headers[i].1.clone());
        }
        i = i + 1;
    }
    proof {
        lemma_header_of_none(hv, "Subject"@);
    }
    None
}

/// The index of the body part: the message itself when it has no
/// subparts; else its first `text/plain` subpart, or its first subpart
/// when none is `text/plain`.
pub open spec fn body_part_index(parts: Seq<MailPartV>) -> int
    decreases parts.len(),
{
    if parts.len() == 0 {
        0
    } else if parts[0].mimetype == "text/plain"@ {
        0
    } else if exists|j: int| 0 <= j < parts.len() && (#[trigger] parts[j]).mimetype
        == "text/plain"@ {
        1 + body_part_index(parts.drop_first())
    } else {
        0
    }
}

/// The selected raw body of the mail, before the footer cut and
/// sanitizing; `None` when the selected part could not be decoded.
pub open spec fn selected_body(m: MailV) -> Option<Seq<char>> {
    if m.subparts.len() == 0 {
        m.body
    } else {
        m.subparts[body_part_index(m.subparts)].body
    }
}

proof fn lemma_body_part_index_range(parts: Seq<MailPartV>)
    requires
        parts.len() > 0,
    ensures
        0 <= body_part_index(parts) < parts.len(),
        (exists|j: int|
            0 <= j < parts.len() && (#[trigger] parts[j]).mimetype == "text/plain"@) ==> parts[
        body_part_index(parts)].mimetype == "text/plain"@,
    decreases parts.len(),
{
    if parts[0].mimetype == "text/plain"@ {
    } else if exists|j: int| 0 <= j < parts.len() && (#[trigger] parts[j]).mimetype
        == "text/plain"@ {
        let j = choose|j: int|
            0 <= j < parts.len() && (#[trigger] parts[j]).mimetype == "text/plain"@;
        assert(parts.drop_first()[j - 1].mimetype == "text/plain"@);
        lemma_body_part_index_range(parts.drop_first());
    }
}

fn select_body_part(mail: &Mail) -> (r: Option<&String>)
    ensures
        match r {
            Some(b) => selected_body(mail@) == Some(b@),
            None => selected_body(mail@) is None,
        },
{
    let ghost pv = mail@.subparts;
    proof {
        assert forall|j: int| 0 <= j < mail.subparts@.len() implies pv[j] == (
        #[trigger] mail.subparts@[j])@ by {
            assert(pv[j] == mail.subparts@[j]@);
        }
    }
    if mail.subparts.len() == 0 {
        return match &mail.body {
            Some(b) => Some(b),
            None => None,
        };
    }
    let plain = String::from_str("text/plain");
    let mut i: usize = 0;
    while i < mail.subparts.len()
        invariant
            pv == mail@.subparts,
            pv.len() == mail.subparts@.len(),
            forall|j: int| 0 <= j < mail.subparts@.len() ==> pv[j] == (#[trigger] mail.subparts@[j])@,
            plain@ == "text/plain"@,
            i <= mail.subparts.len(),
            forall|j: int| 0 <= j < i ==> (#[trigger] pv[j]).mimetype != "text/plain"@,
        decreases mail.subparts.len() - i,
    {
        if mail.subparts[i].mimetype == plain {
            proof {
                lemma_body_index_is(pv, i as int);
            }
            return match &mail.subparts[i].body {
                Some(b) => Some(b),
                None => None,
            };
        }
        i = i + 1;
    }
    proof {
        assert forall|j: int|
            0 <= j < pv.len() implies (#[trigger] pv[j]).mimetype != "text/plain"@ by {}
        lemma_body_index_no_plain(pv);
    }
    match &mail.subparts[0].body {
        Some(b) => Some(b),
        None => None,
    }
}

proof fn lemma_body_index_is(parts: Seq<MailPartV>, k: int)
    requires
        0 <= k < parts.len(),
        parts[k].mimetype == "text/plain"@,
        forall|j: int| 0 <= j < k ==> (#[trigger] parts[j]).mimetype != "text/plain"@,
    ensures
        body_part_index(parts) == k,
    decreases parts.len(),
{
    if k == 0 {
    } else {
        assert(parts[k].mimetype == "text/plain"@);
        assert(exists|j: int|
            0 <= j < parts.len() && (#[trigger] parts[j]).mimetype == "text/plain"@);
        assert(parts.drop_first()[k - 1].mimetype == "text/plain"@);
        assert(forall|j: int|
            0 <= j < k - 1 ==> (#[trigger] parts.drop_first()[j]).mimetype != "text/plain"@);
        lemma_body_index_is(parts.drop_first(), k - 1);
    }
}

proof fn lemma_body_index_no_plain(parts: Seq<MailPartV>)
    requires
        parts.len() > 0,
        forall|j: int| 0 <= j < parts.len() ==> (#[trigger] parts[j]).mimetype != "text/plain"@,
    ensures
        body_part_index(parts) == 0,
{
}

/// The body with everything from the first occurrence of the footer text
/// on removed; unchanged when the footer does not occur.
pub open spec fn footer_cut(body: Seq<char>, footer: Option<Seq<char>>) -> Seq<char> {
    match footer {
        None => body,
        Some(f) => if contains_seq(body, f) {
            body.take(first_occurrence_at(body, f))
        } else {
            body
        },
    }
}

/// The first index at which `needle` occurs in `hay`.
pub open spec fn first_occurrence_at(hay: Seq<char>, needle: Seq<char>) -> int {
    choose|i: int| occurs_at(hay, needle, i) && forall|j: int| 0 <= j < i ==> !occurs_at(hay, needle, j)
}

fn cut_footer(body: &str, footer: &Option<String>) -> (r: String)
    ensures
        r@ == footer_cut(body@, match footer {
            Some(f) => Some(f@),
            None => None,
        }),
{
    match footer {
        None => body.to_owned(),
        Some(f) => {
            match crate::text::find(body, f.as_str()) {
                Some(idx) => {
                    proof {
                        let w = first_occurrence_at(body@, f@);
                        assert(occurs_at(body@, f@, idx as int) && forall|j: int|
                            0 <= j < idx ==> !occurs_at(body@, f@, j));
                        assert(occurs_at(body@, f@, w) && forall|j: int|
                            0 <= j < w ==> !occurs_at(body@, f@, j));
                        assert(w == idx as int);
                        assert(body@.take(idx as int) =~= body@.subrange(0, idx as int));
                    }
                    let piece = body.substring_char(0, idx);
                    piece.to_owned()
                },
                None => body.to_owned(),
            }
        },
    }
}

/// The entry a fetched mail becomes: the subject as the title and the
/// selected body — footer cut away, then sanitized — as the body, under
/// the given uid.  Fails exactly when the selected part has no decodable
/// body.
pub open spec fn mail_entry_spec(m: MailV, uid: Seq<char>, footer: Option<Seq<char>>) -> Result<
    EntryV,
    EmailParseError,
> {
    match selected_body(m) {
        None => Err(EmailParseError::NoBody),
        Some(b) => Ok(
            EntryV {
                id: Some(uid),
                raw_contents: None,
                msg: MessageV {
                    title: subject_of(m),
                    body: Some(sanitized_of(footer_cut(b, footer))),
                    link: None,
                    media: None,
                },
            },
        ),
    }
}

/// Turns one fetched mail into an entry: the subject becomes the title;
/// the body of the message (or of its first `text/plain` subpart, or of
/// its first subpart) has the footer and everything after it removed and
/// is sanitized; the uid becomes the id.
pub fn parse_mail_entry(mail: &Mail, uid: u64, footer: &Option<String>) -> (r: Result<
    Entry,
    EmailParseError,
>)
    ensures
        match r {
            Ok(e) => mail_entry_spec(mail@, dec_rep(uid as nat), match footer {
                Some(f) => Some(f@),
                None => None,
            }) == Ok::<_, EmailParseError>(e@),
            Err(er) => mail_entry_spec(mail@, dec_rep(uid as nat), match footer {
                Some(f) => Some(f@),
                None => None,
            }) == Err::<EntryV, _>(er),
        },
{
    let title = find_subject(mail);
    let body = match select_body_part(mail) {
        Some(b) => b,
        None => {
            return Err(EmailParseError::NoBody);
        },
    };
    let cut = cut_footer(body.as_str(), footer);
    let cleaned = clean_html(cut.as_str());
    let id = crate::text::u64_to_string(uid);
    let e = Entry {
        id: Some(id),
        raw_contents: None,
        msg: Message { title, body: Some(cleaned), link: None, media: None },
    };
    proof {
        assert(mail_entry_spec(
            mail@,
            dec_rep(uid as nat),
            match footer {
                Some(f) => Some(f@),
                None => None,
            },
        ) matches Ok(ev) && ev =~~= e@);
    }
    Ok(e)
}

/// Turns the raw bytes of one fetched mail into an entry under the given
/// uid: `None` when the bytes do not parse as a message, else the entry
/// (or the per-mail error) that the parsed message becomes.
pub fn entry_from_mail_bytes(raw: &[u8], uid: u64, footer: &Option<String>) -> (r: Option<
    Result<Entry, EmailParseError>,
>)
    ensures
        match r {
            None => mail_of(raw@) is None,
            Some(res) => mail_of(raw@) matches Some(m) && (match res {
                Ok(e) => mail_entry_spec(m, dec_rep(uid as nat), match footer {
                    Some(f) => Some(f@),
                    None => None,
                }) == Ok::<_, EmailParseError>(e@),
                Err(er) => mail_entry_spec(m, dec_rep(uid as nat), match footer {
                    Some(f) => Some(f@),
                    None => None,
                }) == Err::<EntryV, _>(er),
            }),
        },
{
    match parse_mail_bytes(raw) {
        None => None,
        Some(mail) => Some(parse_mail_entry(&mail, uid, footer)),
    }
}

/// One IMAP command of a mark-as-read plan, naming the uid it acts on.
pub enum ImapCommand {
    /// Set the `\Seen` flag, silently.
    StoreSeen(String),
    /// Set the `\Deleted` flag, silently.
    StoreDeleted(String),
    /// Expunge the deleted mail.
    Expunge(String),
}

/// The mathematical view of an [`ImapCommand`].
#[verifier::ext_equal]
pub enum ImapCommandV {
    /// Set the `\Seen` flag.
    StoreSeen(Seq<char>),
    /// Set the `\Deleted` flag.
    StoreDeleted(Seq<char>),
    /// Expunge the deleted mail.
    Expunge(Seq<char>),
}

impl View for ImapCommand {
    type V = ImapCommandV;

    open spec fn view(&self) -> ImapCommandV {
        match self {
            ImapCommand::StoreSeen(u) => ImapCommandV::StoreSeen(u@),
            ImapCommand::StoreDeleted(u) => ImapCommandV::StoreDeleted(u@),
            ImapCommand::Expunge(u) => ImapCommandV::Expunge(u@),
        }
    }
}

/// The commands a mark-as-read request must issue: none in read-only
/// mode; a silent `\Seen` store in mark-as-read mode; a silent `\Deleted`
/// store followed by an expunge in delete mode.
pub open spec fn mark_as_read_plan_spec(mode: ViewMode, id: Seq<char>) -> Seq<ImapCommandV> {
    match mode {
        ViewMode::ReadOnly => Seq::empty(),
        ViewMode::MarkAsRead => seq![ImapCommandV::StoreSeen(id)],
        ViewMode::Delete => seq![ImapCommandV::StoreDeleted(id), ImapCommandV::Expunge(id)],
    }
}

/// Plans the commands of a mark-as-read request for `id` under the given
/// view mode.
pub fn mark_as_read_plan(mode: &ViewMode, id: &String) -> (r: Vec<ImapCommand>)
    ensures
        r@.map_values(|c: ImapCommand| c@) == mark_as_read_plan_spec(*mode, id@),
{
    let mut out: Vec<ImapCommand> = Vec::new();
    match mode {
        ViewMode::ReadOnly => (),
        ViewMode::MarkAsRead => {
            out.push(ImapCommand::StoreSeen(id.clone()));
        },
        ViewMode::Delete => {
            out.push(ImapCommand::StoreDeleted(id.clone()));
            out.push(ImapCommand::Expunge(id.clone()));
        },
    }
    proof {
        assert(out@.map_values(|c: ImapCommand| c@) =~= mark_as_read_plan_spec(*mode, id@));
    }
    out
}

} // verus!
