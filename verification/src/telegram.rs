//! The chat-bot delivery logic: message shaping, length truncation and the
//! rate-limit retry loop.
//!
//! Delivery to a rate-limited transport is a blocking retry loop: on a
//! "retry after N seconds" response the sender sleeps exactly N seconds and
//! resends the identical payload; any other error is immediately fatal for
//! that send.  Text beyond the transport's maximum length is truncated,
//! with an ellipsis marker, before the first attempt — never as a fallback.
//! Media-bearing and text-only messages are two distinct delivery calls;
//! the sink never synthesizes one from the other.
//!
//! The transport itself is outside this library: the retry loop is driven
//! over the observed outcomes of the attempts, so the whole decision logic
//! is verified for every possible sequence of outcomes.

use vstd::prelude::*;

verus! {

/// A media attachment of a chat message, by URL.
pub enum Media {
    /// A photo at the given URL.
    Photo(String),
    /// A video at the given URL.
    Video(String),
}

/// The mathematical view of a [`Media`].
#[verifier::ext_equal]
pub enum TgMediaV {
    /// A photo at the given URL.
    Photo(Seq<char>),
    /// A video at the given URL.
    Video(Seq<char>),
}

impl View for Media {
    type V = TgMediaV;

    open spec fn view(&self) -> TgMediaV {
        match self {
            Media::Photo(u) => TgMediaV::Photo(u@),
            Media::Video(u) => TgMediaV::Video(u@),
        }
    }
}

/// A chat message: text with optional media attachments.
pub struct Message {
    /// The text, sent as the message body or as the media caption.
    pub text: String,
    /// The media attachments, if any.
    pub media: Option<Vec<Media>>,
}

/// The mathematical view of a [`Message`].
#[verifier::ext_equal]
pub struct TgMessageV {
    /// The text.
    pub text: Seq<char>,
    /// The media attachments, if any.
    pub media: Option<Seq<TgMediaV>>,
}

impl View for Message {
    type V = TgMessageV;

    open spec fn view(&self) -> TgMessageV {
        TgMessageV {
            text: self.text@,
            media: match &self.media {
                Some(ms) => Some(ms@.map_values(|m: Media| m@)),
                None => None,
            },
        }
    }
}

/// A chat-bot sink bound to one chat.
pub struct Telegram {
    /// The chat the sink delivers to.
    pub chat_id: i64,
}

impl Telegram {
    /// A sink delivering to the given chat.
    pub fn new(chat_id: i64) -> (r: Self)
        ensures
            r.chat_id == chat_id,
    {
        Telegram { chat_id }
    }
}

/// The text as it goes out: unchanged up to 4096 characters, else cut to
/// 4093 characters with a three-dot ellipsis appended, for exactly 4096.
pub open spec fn prepared_text(t: Seq<char>) -> Seq<char> {
    if t.len() <= 4096 {
        t
    } else {
        t.take(4093) + "..."@
    }
}

/// Truncates `text` to the transport's maximum length, appending an
/// ellipsis when it was cut.  Applied before the first send attempt.
pub fn prepare_text(text: &str) -> (r: String)
    ensures
        r@ == prepared_text(text@),
        r@.len() <= 4096,
{
    proof {
        reveal_strlit("...");
    }
    let len: usize = text.unicode_len();
    if len <= 4096 {
        text.to_owned()
    } else {
        let cut = text.substring_char(0, 4093);
        let mut out = cut.to_owned();
        out.append("...");
        out
    }
}

/// One prepared attachment of a media-group call.
pub struct MediaItem {
    /// Whether the attachment is a photo; otherwise it is a video.
    pub is_photo: bool,
    /// The attachment URL.
    pub url: String,
    /// The caption, the prepared message text.
    pub caption: String,
}

/// The mathematical view of a [`MediaItem`].
#[verifier::ext_equal]
pub struct MediaItemV {
    /// Whether the attachment is a photo.
    pub is_photo: bool,
    /// The attachment URL.
    pub url: Seq<char>,
    /// The caption.
    pub caption: Seq<char>,
}

impl View for MediaItem {
    type V = MediaItemV;

    open spec fn view(&self) -> MediaItemV {
        MediaItemV { is_photo: self.is_photo, url: self.url@, caption: self.caption@ }
    }
}

/// The shape of one delivery call: a text message, or one media group.
pub enum SendPayload {
    /// A text-only message.
    Text(String),
    /// A media group, each attachment captioned with the message text.
    MediaGroup(Vec<MediaItem>),
}

/// The mathematical view of a [`SendPayload`].
#[verifier::ext_equal]
pub enum SendPayloadV {
    /// A text-only message.
    Text(Seq<char>),
    /// A media group.
    MediaGroup(Seq<MediaItemV>),
}

impl View for SendPayload {
    type V = SendPayloadV;

    open spec fn view(&self) -> SendPayloadV {
        match self {
            SendPayload::Text(t) => SendPayloadV::Text(t@),
            SendPayload::MediaGroup(ms) => SendPayloadV::MediaGroup(
                ms@.map_values(|m: MediaItem| m@),
            ),
        }
    }
}

/// The prepared attachment of one media entry, captioned with `caption`.
pub open spec fn media_item_spec(m: TgMediaV, caption: Seq<char>) -> MediaItemV {
    match m {
        TgMediaV::Photo(u) => MediaItemV { is_photo: true, url: u, caption },
        TgMediaV::Video(u) => MediaItemV { is_photo: false, url: u, caption },
    }
}

/// The delivery call for a message: a media group when the message carries
/// media (every attachment captioned with the prepared text), else a text
/// call with the prepared text.
pub open spec fn plan_message_spec(m: TgMessageV) -> SendPayloadV {
    match m.media {
        Some(ms) => SendPayloadV::MediaGroup(
            ms.map_values(|x: TgMediaV| media_item_spec(x, prepared_text(m.text))),
        ),
        None => SendPayloadV::Text(prepared_text(m.text)),
    }
}

/// Decides the shape of the delivery call for `msg` and prepares its text.
pub fn plan_message(msg: &Message) -> (r: SendPayload)
    ensures
        r@ == plan_message_spec(msg@),
{
    let text = prepare_text(msg.text.as_str());
    match &msg.media {
        None => SendPayload::Text(text),
        Some(ms) => {
            let ghost msv = msg@.media->0;
            let mut items: Vec<MediaItem> = Vec::new();
            let mut i: usize = 0;
            while i < ms.len()
                invariant
                    msv == msg@.media->0,
                    msv.len() == ms@.len(),
                    forall|j: int| 0 <= j < ms@.len() ==> msv[j] == (#[trigger] ms@[j])@,
                    text@ == prepared_text(msg@.text),
                    i <= ms.len(),
                    items@.map_values(|m: MediaItem| m@) =~= msv.take(i as int).map_values(
                        |x: TgMediaV| media_item_spec(x, prepared_text(msg@.text)),
                    ),
                decreases ms.len() - i,
            {
                let ghost prev = items@.map_values(|m: MediaItem| m@);
                let item = match &ms[i] {
                    Media::Photo(u) => MediaItem {
                        is_photo: true,
                        url: u.clone(),
                        caption: text.clone(),
                    },
                    Media::Video(u) => MediaItem {
                        is_photo: false,
                        url: u.clone(),
                        caption: text.clone(),
                    },
                };
                items.push(item);
                proof {
                    assert(items@.map_values(|m: MediaItem| m@) =~= prev.push(
                        media_item_spec(msv[i as int], prepared_text(msg@.text)),
                    ));
                    assert(msv.take(i + 1).map_values(
                        |x: TgMediaV| media_item_spec(x, prepared_text(msg@.text)),
                    ) =~= msv.take(i as int).map_values(
                        |x: TgMediaV| media_item_spec(x, prepared_text(msg@.text)),
                    ).push(media_item_spec(msv[i as int], prepared_text(msg@.text))));
                }
                i = i + 1;
            }
            proof {
                assert(msv.take(msv.len() as int) =~= msv);
            }
            SendPayload::MediaGroup(items)
        },
    }
}

/// The transport's response to one send attempt.
pub enum SendOutcome {
    /// The message was delivered.
    Sent,
    /// The transport asked to retry after the given number of seconds.
    RetryAfter(u64),
    /// A fatal transport error; carries its description.
    Fatal(String),
}

/// The mathematical view of a [`SendOutcome`].
#[verifier::ext_equal]
pub enum SendOutcomeV {
    /// Delivered.
    Sent,
    /// Retry after the given number of seconds.
    RetryAfter(u64),
    /// A fatal error.
    Fatal(Seq<char>),
}

impl View for SendOutcome {
    type V = SendOutcomeV;

    open spec fn view(&self) -> SendOutcomeV {
        match self {
            SendOutcome::Sent => SendOutcomeV::Sent,
            SendOutcome::RetryAfter(n) => SendOutcomeV::RetryAfter(*n),
            SendOutcome::Fatal(m) => SendOutcomeV::Fatal(m@),
        }
    }
}

/// The views of the outcomes in `s`.
pub open spec fn outcome_views(s: Seq<SendOutcome>) -> Seq<SendOutcomeV> {
    s.map_values(|o: SendOutcome| o@)
}

/// What one delivery run did: how many attempts it made, how long it slept
/// in total, and how it ended.
pub struct SendReport {
    /// How many send attempts were made, retries included.
    pub attempts: usize,
    /// The total seconds slept between attempts.
    pub slept: u64,
    /// Whether the message was delivered (exactly once, on the last
    /// attempt).
    pub delivered: bool,
    /// The fatal error that ended the run, if one did.
    pub error: Option<String>,
}

/// The mathematical view of a [`SendReport`].
#[verifier::ext_equal]
pub struct SendReportV {
    /// How many attempts were made.
    pub attempts: nat,
    /// The total seconds slept.
    pub slept: nat,
    /// Whether the message was delivered.
    pub delivered: bool,
    /// The fatal error, if any.
    pub error: Option<Seq<char>>,
}

impl View for SendReport {
    type V = SendReportV;

    open spec fn view(&self) -> SendReportV {
        SendReportV {
            attempts: self.attempts as nat,
            slept: self.slept as nat,
            delivered: self.delivered,
            error: match &self.error {
                Some(e) => Some(e@),
                None => None,
            },
        }
    }
}

/// The report of a delivery run whose attempts see the outcomes of
/// `script` in order: every retry-after outcome costs one attempt and its
/// sleep; the first terminal outcome ends the run, delivered on success,
/// with the error on a fatal failure.
pub open spec fn retry_spec(script: Seq<SendOutcomeV>) -> SendReportV
    decreases script.len(),
{
    if script.len() == 0 {
        SendReportV { attempts: 0, slept: 0, delivered: false, error: None }
    } else {
        match script[0] {
            SendOutcomeV::Sent => SendReportV {
                attempts: 1,
                slept: 0,
                delivered: true,
                error: None,
            },
            SendOutcomeV::Fatal(m) => SendReportV {
                attempts: 1,
                slept: 0,
                delivered: false,
                error: Some(m),
            },
            SendOutcomeV::RetryAfter(n) => {
                let rest = retry_spec(script.drop_first());
                SendReportV {
                    attempts: (rest.attempts + 1) as nat,
                    slept: (rest.slept + n) as nat,
                    delivered: rest.delivered,
                    error: rest.error,
                }
            },
        }
    }
}

/// A script contains a terminal outcome: one that is not a retry request.
pub open spec fn has_terminal(script: Seq<SendOutcomeV>) -> bool {
    exists|i: int| 0 <= i < script.len() && !((#[trigger] script[i]) is RetryAfter)
}

proof fn lemma_retry_attempts_le(script: Seq<SendOutcomeV>)
    ensures
        retry_spec(script).attempts <= script.len(),
    decreases script.len(),
{
    if script.len() > 0 && script[0] is RetryAfter {
        lemma_retry_attempts_le(script.drop_first());
    }
}

/// Runs the blocking retry loop over the outcomes the transport hands
/// back, one per attempt: a retry-after outcome is slept out and the
/// identical payload is resent; the first terminal outcome ends the run.
/// The report pins down the exact number of attempts, the total sleep and
/// the way the run ended, for every script.
pub fn send_with_retry(script: &Vec<SendOutcome>) -> (r: SendReport)
    requires
        has_terminal(outcome_views(script@)),
        retry_spec(outcome_views(script@)).slept <= u64::MAX,
    ensures
        r@ == retry_spec(outcome_views(script@)),
{
    let ghost sv = outcome_views(script@);
    let mut slept: u64 = 0;
    let mut i: usize = 0;
    proof {
        assert(sv.skip(0) =~= sv);
    }
    while i < script.len()
        invariant
            sv == outcome_views(script@),
            i <= script.len(),
            has_terminal(sv),
            retry_spec(sv).slept <= u64::MAX,
            forall|j: int| 0 <= j < i ==> (#[trigger] sv[j]) is RetryAfter,
            retry_spec(sv) == (SendReportV {
                attempts: (i + retry_spec(sv.skip(i as int)).attempts) as nat,
                slept: (slept + retry_spec(sv.skip(i as int)).slept) as nat,
                delivered: retry_spec(sv.skip(i as int)).delivered,
                error: retry_spec(sv.skip(i as int)).error,
            }),
        decreases script.len() - i,
    {
        proof {
            assert(sv.skip(i as int)[0] == sv[i as int]);
            assert(sv[i as int] == script@[i as int]@);
            assert(sv.skip(i as int).drop_first() =~= sv.skip(i + 1));
            lemma_retry_attempts_le(sv.skip(i as int));
        }
        match &script[i] {
            SendOutcome::Sent => {
                return SendReport { attempts: i + 1, slept, delivered: true, error: None };
            },
            SendOutcome::Fatal(m) => {
                return SendReport {
                    attempts: i + 1,
                    slept,
                    delivered: false,
                    error: Some(m.clone()),
                };
            },
            SendOutcome::RetryAfter(n) => {
                proof {
                    assert(retry_spec(sv.skip(i as int)).slept == retry_spec(sv.skip(i + 1)).slept
                        + *n);
                }
                slept = slept + *n;
            },
        }
        i = i + 1;
    }
    // never reached: the script holds a terminal outcome, so the loop
    // returns before it runs out
    proof {
        let k = choose|k: int| 0 <= k < sv.len() && !((sv[k]) is RetryAfter);
        assert(sv[k] is RetryAfter);
        assert(false);
    }
    SendReport { attempts: 0, slept: 0, delivered: false, error: None }
}

} // verus!
