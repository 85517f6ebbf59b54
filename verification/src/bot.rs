//! The orchestrator: the per-update state machine.  One inbound message is
//! validated, the sender's record is synced, and the message either earns
//! an informational notice or a resolution attempt; a resolved response
//! body becomes a delivery plan.  Every outbound send is returned as a
//! plain instruction for the chat-platform client to perform.

use vstd::prelude::*;

use crate::fetcher::{
    audio_or_default, images_of, json_text_ok, music_of, parse_tiktok_content, play_of, title_of,
    title_or_default, Media, ResolutionError,
};
use crate::parser::{is_tiktok_link, is_tiktok_url};
use crate::store::{create_spec, increment_spec, Store, User, UserView};

verus! {

/// Captions longer than this many characters are cut.
pub const MEDIA_LIMIT: u16 = 1024;

/// Whether a title is longer than the cap.
pub fn is_beyond_scope(text: &String, size: u16) -> (r: bool)
    ensures
        r == (text@.len() > size as int),
{
    text.as_str().unicode_len() > size as usize
}

/// A text cut to at most `cap` leading characters.
pub open spec fn cut_text_spec(s: Seq<char>, cap: int) -> Seq<char> {
    if s.len() > cap {
        s.take(cap)
    } else {
        s
    }
}

/// Cut a text to the cap: the leading characters, nothing else — no
/// ellipsis, no word-boundary awareness.  A text within the cap passes
/// unchanged.
pub fn cut_text(text: String, size: u16) -> (r: String)
    ensures
        r@ == cut_text_spec(text@, size as int),
{
    if is_beyond_scope(&text, size) {
        let sliced = text.as_str().substring_char(0, size as usize);
        let r = String::from_str(sliced);
        proof {
            assert(r@ =~= text@.take(size as int));
        }
        r
    } else {
        text
    }
}

/// The locale tags that select the alternate rendering of each notice.
pub open spec fn alt_locale(l: Seq<char>) -> bool {
    ||| l == "ru"@
    ||| l == "rs"@
    ||| l == "ua"@
    ||| l == "by"@
    ||| l == "kz"@
    ||| l == "md"@
    ||| l == "sk"@
    ||| l == "si"@
    ||| l == "lv"@
    ||| l == "ee"@
}

fn str_is(lang: &String, code: &str) -> (r: bool)
    ensures
        r == (lang@ == code@),
{
    let c = String::from_str(code);
    *lang == c
}

/// Whether the sender's locale tag selects the alternate rendering.
pub fn is_alternate_locale(lang: &String) -> (r: bool)
    ensures
        r == alt_locale(lang@),
{
    str_is(lang, "ru") || str_is(lang, "rs") || str_is(lang, "ua") || str_is(lang, "by")
        || str_is(lang, "kz") || str_is(lang, "md") || str_is(lang, "sk") || str_is(
        lang,
        "si",
    ) || str_is(lang, "lv") || str_is(lang, "ee")
}

/// Pick one of a notice's two renderings by the sender's locale.
pub fn localized(english: &str, russian: &str, lang: &String) -> (r: String)
    ensures
        r@ == if alt_locale(lang@) {
            russian@
        } else {
            english@
        },
{
    if is_alternate_locale(lang) {
        String::from_str(russian)
    } else {
        String::from_str(english)
    }
}

pub open spec fn welcome_text_spec(alt: bool) -> Seq<char> {
    if alt {
        "<b>🎉 Добро пожаловать!</b>\n🎉 Похоже, вы здесь впервые. Пользуйтесь ботом бесплатно - без ограничений! 😊"@
    } else {
        "<b>🎉 Welcome aboard!</b>\n🎉 It looks like you're new here. Enjoy our bot for free - no limits! 😊"@
    }
}

/// The one-time notice a newly filed user is greeted with.
pub fn welcome_text(lang: &String) -> (r: String)
    ensures
        r@ == welcome_text_spec(alt_locale(lang@)),
{
    localized(
        "<b>🎉 Welcome aboard!</b>\n🎉 It looks like you're new here. Enjoy our bot for free - no limits! 😊",
        "<b>🎉 Добро пожаловать!</b>\n🎉 Похоже, вы здесь впервые. Пользуйтесь ботом бесплатно - без ограничений! 😊",
        lang,
    )
}

pub open spec fn welcome_back_text_spec(alt: bool) -> Seq<char> {
    if alt {
        "<b>🌟 С возвращением!</b>\n🌟 Мы рады снова видеть вас! 😊"@
    } else {
        "<b>🌟 Welcome back!</b>\n🌟 We missed you! 😊"@
    }
}

/// The notice a user absent three whole days or more is greeted with.
pub fn welcome_back_text(lang: &String) -> (r: String)
    ensures
        r@ == welcome_back_text_spec(alt_locale(lang@)),
{
    localized(
        "<b>🌟 Welcome back!</b>\n🌟 We missed you! 😊",
        "<b>🌟 С возвращением!</b>\n🌟 Мы рады снова видеть вас! 😊",
        lang,
    )
}

pub open spec fn help_text_spec(alt: bool) -> Seq<char> {
    if alt {
        "<b>ℹ️ Доступные функции</b>\n\nНа данный момент бот поддерживает только <b>скачивание видео из TikTok</b>.\n\nОтправьте рабочую ссылку на видео для продолжения.\n\n<i>Пример: https://vm.tiktok.com/ABC123/</i> 🎬"@
    } else {
        "<b>ℹ️ Current Bot Functions</b>\n\nCurrently, the bot only supports <b>TikTok video downloads</b>.\n\nPlease send a valid TikTok video link to proceed.\n\n<i>Example: https://vm.tiktok.com/ABC123/</i> 🎥"@
    }
}

/// The notice a non-link message earns.
pub fn help_text(lang: &String) -> (r: String)
    ensures
        r@ == help_text_spec(alt_locale(lang@)),
{
    localized(
        "<b>ℹ️ Current Bot Functions</b>\n\nCurrently, the bot only supports <b>TikTok video downloads</b>.\n\nPlease send a valid TikTok video link to proceed.\n\n<i>Example: https://vm.tiktok.com/ABC123/</i> 🎥",
        "<b>ℹ️ Доступные функции</b>\n\nНа данный момент бот поддерживает только <b>скачивание видео из TikTok</b>.\n\nОтправьте рабочую ссылку на видео для продолжения.\n\n<i>Пример: https://vm.tiktok.com/ABC123/</i> 🎬",
        lang,
    )
}

pub open spec fn processing_text_spec(alt: bool) -> Seq<char> {
    if alt {
        "<b>⏳ Скачивание видео из TikTok...</b>\n\nПожалуйста, подождите, пока мы обрабатываем ваш запрос! 🎬"@
    } else {
        "<b>⏳ Downloading TikTok video...</b>\n\nPlease wait while we process your request! 🎬"@
    }
}

/// The notice sent before a resolution is attempted.
pub fn processing_text(lang: &String) -> (r: String)
    ensures
        r@ == processing_text_spec(alt_locale(lang@)),
{
    localized(
        "<b>⏳ Downloading TikTok video...</b>\n\nPlease wait while we process your request! 🎬",
        "<b>⏳ Скачивание видео из TikTok...</b>\n\nПожалуйста, подождите, пока мы обрабатываем ваш запрос! 🎬",
        lang,
    )
}

pub open spec fn failure_text_spec(alt: bool, reason: Seq<char>) -> Seq<char> {
    if alt {
        "<b>❌ Скачивание не удалось!</b>\n\nПричина: <code>"@ + reason
            + "</code>\n\nПопробуйте позже! 🎬"@
    } else {
        "<b>❌ Download failed!</b>\n\nReason: <code>"@ + reason
            + "</code>\n\nPlease try again later! 🎬"@
    }
}

/// The notice a failed resolution earns, with the reason embedded.
pub fn failure_text(lang: &String, reason: &str) -> (r: String)
    ensures
        r@ == failure_text_spec(alt_locale(lang@), reason@),
{
    if is_alternate_locale(lang) {
        let mut s = String::from_str("<b>❌ Скачивание не удалось!</b>\n\nПричина: <code>");
        s.append(reason);
        s.append("</code>\n\nПопробуйте позже! 🎬");
        s
    } else {
        let mut s = String::from_str("<b>❌ Download failed!</b>\n\nReason: <code>");
        s.append(reason);
        s.append("</code>\n\nPlease try again later! 🎬");
        s
    }
}

/// Whether three whole days (in milliseconds, floor division) have passed
/// between the last-seen time and now.
pub open spec fn long_absent_spec(last_seen: int, now: int) -> bool {
    now >= last_seen && (now - last_seen) / 86400000 >= 3
}

/// The record an existing user's sync leaves: name refreshed, chat id
/// backfilled where it was null, everything else untouched.
pub open spec fn synced_record(u: UserView, name: Seq<char>, chat_id: int) -> UserView {
    UserView {
        name: name,
        chat_id: if u.chat_id is None {
            Some(chat_id)
        } else {
            u.chat_id
        },
        ..u
    }
}

/// The record a new user is filed under: creation alone does not count as
/// a request, so the counter starts at zero.
pub open spec fn new_record(id: int, chat_id: int, name: Seq<char>, now: int) -> UserView {
    UserView {
        id: id,
        chat_id: Some(chat_id),
        name: name,
        requests_amount: 0,
        timestamp: now,
        register_timestamp: now,
    }
}

/// The store a sync leaves behind.
pub open spec fn sync_effect(
    m: Map<int, UserView>,
    id: int,
    chat_id: int,
    name: Seq<char>,
    now: int,
) -> Map<int, UserView> {
    if m.contains_key(id) {
        m.insert(id, synced_record(m[id], name, chat_id))
    } else {
        create_spec(m, new_record(id, chat_id, name, now))
    }
}

/// What a sync reports back to the orchestrator.
#[derive(Debug, Clone, Copy, PartialEq, Eq, Structural)]
pub struct SyncOutcome {
    /// A record was created: the user is new.
    pub created: bool,
    /// The user was last seen three or more whole days ago.
    pub long_absent: bool,
}

/// The outcome a sync reports.
pub open spec fn sync_outcome_spec(m: Map<int, UserView>, id: int, now: int) -> SyncOutcome {
    if m.contains_key(id) {
        SyncOutcome { created: false, long_absent: long_absent_spec(m[id].timestamp, now) }
    } else {
        SyncOutcome { created: true, long_absent: false }
    }
}

/// Bring the sender's record up to date: file a new user, or refresh an
/// existing user's name and backfill a null chat id.  The last-seen time
/// is not touched here — only a successful resolution refreshes it.
pub fn sync_user(store: &mut Store, id: i64, chat_id: i64, first_name: &String, now: i64) -> (r:
    SyncOutcome)
    requires
        old(store).wf(),
        0 <= now,
    ensures
        final(store).wf(),
        final(store)@ == sync_effect(old(store)@, id as int, chat_id as int, first_name@, now as int),
        r == sync_outcome_spec(old(store)@, id as int, now as int),
{
    proof {
        store.lemma_wf_records();
    }
    match store.get_user(id) {
        Some(u) => {
            let long_absent = if now >= u.timestamp {
                (now - u.timestamp) / 86400000 >= 3
            } else {
                false
            };
            let mut nu = u;
            nu.name = first_name.clone();
            if nu.chat_id.is_none() {
                nu.chat_id = Some(chat_id);
            }
            let _ = store.update_user(nu);
            SyncOutcome { created: false, long_absent }
        },
        None => {
            let nu = User {
                id: id,
                chat_id: Some(chat_id),
                name: first_name.clone(),
                requests_amount: 0,
                timestamp: now,
                register_timestamp: now,
            };
            let _ = store.add_user(nu);
            SyncOutcome { created: true, long_absent: false }
        },
    }
}

/// The sender of an inbound message, as the platform reports it.
#[derive(Debug)]
pub struct Sender {
    pub id: i64,
    pub first_name: String,
    pub language_code: Option<String>,
}

/// One inbound update, reduced to the plain values the pipeline reads.
#[derive(Debug)]
pub struct Inbound {
    pub text: Option<String>,
    pub chat_id: Option<i64>,
    pub from: Option<Sender>,
    pub is_topic_message: bool,
}

/// An update is acted on only when it carries non-empty text, a chat
/// target and a sender, and is not a sub-thread message.
pub open spec fn valid_update(m: Inbound) -> bool {
    match (m.text, m.chat_id, m.from) {
        (Some(t), Some(_), Some(_)) => t@.len() > 0 && !m.is_topic_message,
        _ => false,
    }
}

/// The locale a sender's notices are rendered for.
pub open spec fn effective_lang(s: Sender) -> Seq<char> {
    match s.language_code {
        Some(l) => l@,
        None => "en"@,
    }
}

/// The pre-notices a sync earns: a welcome for a new user, a welcome-back
/// for a long-absent one, nothing otherwise.
pub open spec fn sync_notices(m: Map<int, UserView>, id: int, alt: bool, now: int) -> Seq<
    Seq<char>,
> {
    if !m.contains_key(id) {
        seq![welcome_text_spec(alt)]
    } else if long_absent_spec(m[id].timestamp, now) {
        seq![welcome_back_text_spec(alt)]
    } else {
        Seq::empty()
    }
}

/// One outbound instruction for the chat-platform client.  In a photo
/// group, the caption belongs to the first photo only.
#[derive(Debug)]
pub enum Outbound {
    Message { text: String },
    Video { url: String, caption: String },
    PhotoGroup { urls: Vec<String>, caption: String },
    Audio { url: String },
}

/// What one validated message leads to: nothing, an informational reply,
/// or a resolution attempt.
#[derive(Debug)]
pub enum Plan {
    /// The update is discarded silently.
    Skip,
    /// The text is no link: send the notices and stop.
    Inform { chat_id: i64, notices: Vec<String> },
    /// The text is a link: send the notices, then resolve through the API.
    Resolve { chat_id: i64, user_id: i64, api_url: String, notices: Vec<String> },
}

/// The first half of the state machine: validate the update, sync the
/// sender's record, and decide between an informational reply and a
/// resolution attempt.  Invalid updates are dropped silently with no store
/// effect.
pub fn handle_message(store: &mut Store, msg: &Inbound, now: i64) -> (r: Plan)
    requires
        old(store).wf(),
        0 <= now,
    ensures
        final(store).wf(),
        !valid_update(*msg) ==> r is Skip && final(store)@ == old(store)@,
        valid_update(*msg) ==> ({
            let t = msg.text->0;
            let cid = msg.chat_id->0;
            let sender = msg.from->0;
            let alt = alt_locale(effective_lang(sender));
            let pre = sync_notices(old(store)@, sender.id as int, alt, now as int);
            &&& final(store)@ == sync_effect(
                old(store)@,
                sender.id as int,
                cid as int,
                sender.first_name@,
                now as int,
            )
            &&& (!is_tiktok_link(t@) ==> (r matches Plan::Inform { chat_id, notices }
                && chat_id == cid && notices.deep_view() == pre.push(help_text_spec(alt))))
            &&& (is_tiktok_link(t@) ==> (r matches Plan::Resolve {
                chat_id,
                user_id,
                api_url,
                notices,
            } && chat_id == cid && user_id == sender.id && api_url@
                == "https://www.tikwm.com/api/?url="@ + t@ && notices.deep_view() == pre.push(
                processing_text_spec(alt),
            )))
        }),
{
    let text = match &msg.text {
        Some(t) => t,
        None => {
            return Plan::Skip;
        },
    };
    if text.as_str().is_empty() {
        return Plan::Skip;
    }
    if msg.is_topic_message {
        return Plan::Skip;
    }
    let chat_id = match msg.chat_id {
        Some(c) => c,
        None => {
            return Plan::Skip;
        },
    };
    let sender = match &msg.from {
        Some(s) => s,
        None => {
            return Plan::Skip;
        },
    };
    let lang: String = match &sender.language_code {
        Some(l) => l.clone(),
        None => String::from_str("en"),
    };
    let outcome = sync_user(store, sender.id, chat_id, &sender.first_name, now);
    let mut notices: Vec<String> = Vec::new();
    if outcome.created {
        notices.push(welcome_text(&lang));
    } else if outcome.long_absent {
        notices.push(welcome_back_text(&lang));
    }
    let ghost pre = sync_notices(
        old(store)@,
        sender.id as int,
        alt_locale(lang@),
        now as int,
    );
    if !is_tiktok_url(text.as_str()) {
        notices.push(help_text(&lang));
        proof {
            assert(notices.deep_view() =~= pre.push(help_text_spec(alt_locale(lang@))));
        }
        Plan::Inform { chat_id, notices }
    } else {
        notices.push(processing_text(&lang));
        proof {
            assert(notices.deep_view() =~= pre.push(processing_text_spec(alt_locale(lang@))));
        }
        let api_url = crate::fetcher::build_api_url(text.as_str());
        Plan::Resolve { chat_id, user_id: sender.id, api_url, notices }
    }
}

/// The delivery a resolved media earns: one content send — the playable
/// URL with the capped title as caption, or the photo group with the
/// caption on its first item — followed by one audio send, in that order.
pub fn delivery_plan(media: &Media) -> (r: Vec<Outbound>)
    ensures
        r@.len() == 2,
        match media {
            Media::Video { title, video_url, audio_url } => {
                &&& r@[0] matches Outbound::Video { url, caption } && url == video_url
                    && caption@ == cut_text_spec(title@, MEDIA_LIMIT as int)
                &&& r@[1] matches Outbound::Audio { url } && url == audio_url
            },
            Media::Photo { title, photo_urls, audio_url } => {
                &&& r@[0] matches Outbound::PhotoGroup { urls, caption } && urls@ == photo_urls@
                    && caption@ == cut_text_spec(title@, MEDIA_LIMIT as int)
                &&& r@[1] matches Outbound::Audio { url } && url == audio_url
            },
        },
{
    let caption = cut_text(media.get_title(), MEDIA_LIMIT);
    match media {
        Media::Video { video_url, audio_url, .. } => {
            let mut out: Vec<Outbound> = Vec::new();
            out.push(Outbound::Video { url: video_url.clone(), caption });
            out.push(Outbound::Audio { url: audio_url.clone() });
            out
        },
        Media::Photo { photo_urls, audio_url, .. } => {
            let mut urls: Vec<String> = Vec::new();
            let n = photo_urls.len();
            let mut i: usize = 0;
            while i < n
                invariant
                    i <= n,
                    n == photo_urls@.len(),
                    urls@.len() == i,
                    forall|j: int| 0 <= j < i ==> #[trigger] urls@[j] == photo_urls@[j],
                decreases n - i,
            {
                urls.push(photo_urls[i].clone());
                i += 1;
            }
            proof {
                assert(urls@ =~= photo_urls@);
            }
            let mut out: Vec<Outbound> = Vec::new();
            out.push(Outbound::PhotoGroup { urls, caption });
            out.push(Outbound::Audio { url: audio_url.clone() });
            out
        },
    }
}

/// The second half of the state machine: a response body arrived for a
/// user's link.  A body carrying images is delivered as their photo group
/// and a body carrying only a playable URL as that video — each with the
/// capped, defaulted title as caption and the audio track after it — and
/// the store's counter is raised; on a failure the store is untouched and
/// the one instruction is the localized failure notice.
///
/// The orchestrator syncs before it resolves, so the user is filed.
pub fn handle_resolution(
    store: &mut Store,
    user_id: i64,
    lang: &String,
    body: &str,
    now: i64,
) -> (r: Vec<Outbound>)
    requires
        old(store).wf(),
        0 <= now,
        old(store)@.contains_key(user_id as int),
        old(store)@[user_id as int].requests_amount < i64::MAX,
    ensures
        final(store).wf(),
        !json_text_ok(body@) ==> final(store)@ == old(store)@ && r@.len() == 1
            && (r@[0] matches Outbound::Message { text } && text@ == failure_text_spec(
            alt_locale(lang@),
            ResolutionError::Decode.spec_reason(),
        )),
        json_text_ok(body@) ==> ({
            let imgs = images_of(body@);
            let cap = cut_text_spec(title_or_default(title_of(body@)), MEDIA_LIMIT as int);
            let audio = audio_or_default(music_of(body@));
            &&& (imgs.len() > 0 ==> final(store)@ == increment_spec(
                old(store)@,
                user_id as int,
                now as int,
            ) && r@.len() == 2 && (r@[0] matches Outbound::PhotoGroup { urls, caption }
                && urls.deep_view() == imgs && caption@ == cap) && (
            r@[1] matches Outbound::Audio { url } && url@ == audio))
            &&& (imgs.len() == 0 && play_of(body@) is Some ==> final(store)@ == increment_spec(
                old(store)@,
                user_id as int,
                now as int,
            ) && r@.len() == 2 && (r@[0] matches Outbound::Video { url, caption } && url@
                == play_of(body@)->0 && caption@ == cap) && (
            r@[1] matches Outbound::Audio { url } && url@ == audio))
            &&& (imgs.len() == 0 && play_of(body@) is None ==> final(store)@ == old(store)@
                && r@.len() == 1 && (r@[0] matches Outbound::Message { text } && text@
                == failure_text_spec(
                alt_locale(lang@),
                ResolutionError::ContentNotFound.spec_reason(),
            )))
        }),
{
    match parse_tiktok_content(body, user_id, store, now) {
        Ok(m) => delivery_plan(&m),
        Err(e) => {
            let text = failure_text(lang, e.reason());
            let mut out: Vec<Outbound> = Vec::new();
            out.push(Outbound::Message { text });
            out
        },
    }
}

} // verus!
