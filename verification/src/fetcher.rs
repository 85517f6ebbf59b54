//! Media resolution: classify a content-API response into a video or a
//! photo set.  The transport (one HTTP GET against the API) stays outside
//! the library; this module takes the response body as text, reads the
//! `data.images`, `data.title`, `data.music` and `data.play` fields through
//! the JSON crate, and classifies what it finds.  On success, and only
//! then, the user's request counter is raised.

use vstd::prelude::*;

use crate::store::{increment_spec, Store};

verus! {

/// The two kinds of resolved content.
#[derive(Debug, Clone, Copy)]
pub enum ContentType {
    Photo,
    Video,
}

impl PartialEq for ContentType {
    fn eq(&self, other: &Self) -> bool {
        match (self, other) {
            (ContentType::Photo, ContentType::Photo) => true,
            (ContentType::Video, ContentType::Video) => true,
            _ => false,
        }
    }
}

impl vstd::std_specs::cmp::PartialEqSpecImpl for ContentType {
    open spec fn obeys_eq_spec() -> bool {
        true
    }

    open spec fn eq_spec(&self, other: &ContentType) -> bool {
        self == other
    }
}

/// A resolved media handle: everything one delivery needs.  A photo set
/// always carries at least one image; image presence takes priority over a
/// playable URL when both are in the response.
#[derive(Debug)]
pub enum Media {
    Video { title: String, video_url: String, audio_url: String },
    Photo { title: String, photo_urls: Vec<String>, audio_url: String },
}

impl Media {
    /// A photo set is never empty.
    pub open spec fn wf(&self) -> bool {
        match self {
            Media::Photo { photo_urls, .. } => photo_urls@.len() > 0,
            Media::Video { .. } => true,
        }
    }

    pub open spec fn spec_title(&self) -> Seq<char> {
        match self {
            Media::Video { title, .. } => title@,
            Media::Photo { title, .. } => title@,
        }
    }

    pub open spec fn spec_audio_url(&self) -> Seq<char> {
        match self {
            Media::Video { audio_url, .. } => audio_url@,
            Media::Photo { audio_url, .. } => audio_url@,
        }
    }

    pub open spec fn spec_content_type(&self) -> ContentType {
        match self {
            Media::Video { .. } => ContentType::Video,
            Media::Photo { .. } => ContentType::Photo,
        }
    }

    /// The content URLs in delivery order: the one playable URL, or the
    /// photo URLs as given.
    pub open spec fn spec_content_urls(&self) -> Seq<Seq<char>> {
        match self {
            Media::Video { video_url, .. } => seq![video_url@],
            Media::Photo { photo_urls, .. } => Seq::new(
                photo_urls@.len(),
                |i: int| photo_urls@[i]@,
            ),
        }
    }

    pub fn get_title(&self) -> (r: String)
        ensures
            r@ == self.spec_title(),
    {
        match self {
            Media::Video { title, .. } => title.clone(),
            Media::Photo { title, .. } => title.clone(),
        }
    }

    pub fn get_content_type(&self) -> (r: ContentType)
        ensures
            r == self.spec_content_type(),
    {
        match self {
            Media::Video { .. } => ContentType::Video,
            Media::Photo { .. } => ContentType::Photo,
        }
    }

    pub fn get_content_urls(&self) -> (r: Vec<String>)
        ensures
            r@.len() == self.spec_content_urls().len(),
            forall|i: int|
                0 <= i < r@.len() ==> (#[trigger] r@[i])@ == self.spec_content_urls()[i],
    {
        match self {
            Media::Video { video_url, .. } => {
                let mut out: Vec<String> = Vec::new();
                out.push(video_url.clone());
                out
            },
            Media::Photo { photo_urls, .. } => {
                let mut out: Vec<String> = Vec::new();
                let n = photo_urls.len();
                let mut i: usize = 0;
                while i < n
                    invariant
                        i <= n,
                        n == photo_urls@.len(),
                        out@.len() == i,
                        forall|j: int| 0 <= j < i ==> #[trigger] out@[j] == photo_urls@[j],
                    decreases n - i,
                {
                    out.push(photo_urls[i].clone());
                    i += 1;
                }
                out
            },
        }
    }

    pub fn get_audio_url(&self) -> (r: String)
        ensures
            r@ == self.spec_audio_url(),
    {
        match self {
            Media::Video { audio_url, .. } => audio_url.clone(),
            Media::Photo { audio_url, .. } => audio_url.clone(),
        }
    }
}

/// Why a resolution failed.
#[derive(Debug, Clone, Copy, PartialEq, Eq, Structural)]
pub enum ResolutionError {
    /// The request could not be sent or timed out.
    Network,
    /// The body is not valid JSON.
    Decode,
    /// The response carries neither images nor a playable URL.
    ContentNotFound,
}

impl ResolutionError {
    pub open spec fn spec_reason(&self) -> Seq<char> {
        match self {
            ResolutionError::Network => "Failed to send request"@,
            ResolutionError::Decode => "Failed to parse JSON response"@,
            ResolutionError::ContentNotFound => "Video URL not found in API response"@,
        }
    }

    /// The reason line a failure notice embeds.
    pub fn reason(&self) -> (r: &'static str)
        ensures
            r@ == self.spec_reason(),
    {
        match self {
            ResolutionError::Network => "Failed to send request",
            ResolutionError::Decode => "Failed to parse JSON response",
            ResolutionError::ContentNotFound => "Video URL not found in API response",
        }
    }
}

/// The plain fields a response body carries, before classification.
pub struct ApiFields {
    pub images: Vec<String>,
    pub title: Option<String>,
    pub music: Option<String>,
    pub play: Option<String>,
}

/// The title a response yields: the reported one, or the fixed placeholder.
pub open spec fn title_or_default(t: Option<Seq<char>>) -> Seq<char> {
    match t {
        Some(s) => s,
        None => "tiktok_video"@,
    }
}

/// The audio URL a response yields: the reported track, or the fixed
/// fallback; a missing track never fails a resolution.
pub open spec fn audio_or_default(m: Option<Seq<char>>) -> Seq<char> {
    match m {
        Some(s) => s,
        None => "https://moosic.my.mail.ru/file/7aa9b68114dfa1a4581ce525a1e793b1.mp3"@,
    }
}

/// Classify extracted response fields: a non-empty image list makes a
/// photo set whatever else is present; otherwise a playable URL makes a
/// video; otherwise the content is not found.
pub fn classify(fields: ApiFields) -> (r: Result<Media, ResolutionError>)
    ensures
        fields.images@.len() > 0 ==> match r {
            Ok(m) => match m {
                Media::Photo { title, photo_urls, audio_url } => {
                    &&& photo_urls == fields.images
                    &&& title@ == title_or_default(fields.title.deep_view())
                    &&& audio_url@ == audio_or_default(fields.music.deep_view())
                },
                _ => false,
            },
            Err(_) => false,
        },
        fields.images@.len() == 0 && fields.play is Some ==> match r {
            Ok(m) => match m {
                Media::Video { title, video_url, audio_url } => {
                    &&& video_url == fields.play->0
                    &&& title@ == title_or_default(fields.title.deep_view())
                    &&& audio_url@ == audio_or_default(fields.music.deep_view())
                },
                _ => false,
            },
            Err(_) => false,
        },
        fields.images@.len() == 0 && fields.play is None ==> r == Err::<Media, ResolutionError>(
            ResolutionError::ContentNotFound,
        ),
        match r {
            Ok(m) => m.wf(),
            Err(e) => e == ResolutionError::ContentNotFound,
        },
{
    let ApiFields { images, title, music, play } = fields;
    let t = match title {
        Some(s) => s,
        None => String::from_str("tiktok_video"),
    };
    let a = match music {
        Some(s) => s,
        None => String::from_str(
            "https://moosic.my.mail.ru/file/7aa9b68114dfa1a4581ce525a1e793b1.mp3",
        ),
    };
    if images.len() > 0 {
        Ok(Media::Photo { title: t, photo_urls: images, audio_url: a })
    } else {
        match play {
            Some(v) => Ok(Media::Video { title: t, video_url: v, audio_url: a }),
            None => Err(ResolutionError::ContentNotFound),
        }
    }
}

/// The API address a source link resolves through: the fixed endpoint with
/// the link as its query parameter.
pub fn build_api_url(link: &str) -> (r: String)
    ensures
        r@ == "https://www.tikwm.com/api/?url="@ + link@,
{
    String::from_str("https://www.tikwm.com/api/?url=").concat(link)
}

/// Whether a text parses as a JSON document.  What
/// `serde_json::from_str::<Value>` accepts depends on the text alone, so
/// the fact gets a name rather than a rewritten grammar.
pub uninterp spec fn json_text_ok(s: Seq<char>) -> bool;

/// The string entries of `data.images` in a JSON body, in order; empty
/// where the field is absent or not an array.  A function of the body
/// text alone.
pub uninterp spec fn images_of(s: Seq<char>) -> Seq<Seq<char>>;

/// The string under `data.title` in a JSON body, where there is one.
pub uninterp spec fn title_of(s: Seq<char>) -> Option<Seq<char>>;

/// The string under `data.music` in a JSON body, where there is one.
pub uninterp spec fn music_of(s: Seq<char>) -> Option<Seq<char>>;

/// The string under `data.play` in a JSON body, where there is one.
pub uninterp spec fn play_of(s: Seq<char>) -> Option<Seq<char>>;

/// Relies on `serde_json::from_str::<Value>` and the `Value` accessors
/// `as_array` and `as_str` behind its index operator: parse the body —
/// succeeding exactly on the texts the JSON grammar accepts — and read
/// the fields under `data`, keeping the string entries of `data.images`
/// in order and a missing or differently-typed field as absent.  All of
/// it is a function of the body text alone, named above rather than
/// restated.
#[verifier::external_body]
fn extract_response(body: &str) -> (r: Option<ApiFields>)
    ensures
        r is Some <==> json_text_ok(body@),
        r matches Some(f) ==> f.images.deep_view() == images_of(body@) && f.title.deep_view()
            == title_of(body@) && f.music.deep_view() == music_of(body@) && f.play.deep_view()
            == play_of(body@),
{
    let v: serde_json::Value = serde_json::from_str(body).ok()?;
    let d = &v["data"];
    let images = match d["images"].as_array() {
        Some(a) => a.iter().filter_map(|x| x.as_str().map(|s| s.to_string())).collect(),
        None => Vec::new(),
    };
    let title = d["title"].as_str().map(|s| s.to_string());
    let music = d["music"].as_str().map(|s| s.to_string());
    let play = d["play"].as_str().map(|s| s.to_string());
    Some(ApiFields { images, title, music, play })
}

/// Resolve a response body for one user: parse the JSON, classify the
/// content, and — only on success — raise the user's request counter with
/// the current time.  A photo set is owed exactly when the body carries
/// images, a video exactly when it carries a playable URL and no images,
/// and a failed resolution leaves the store untouched.
///
/// The caller has already filed the user (the orchestrator syncs before it
/// resolves), so the id is present.
pub fn parse_tiktok_content(body: &str, id: i64, store: &mut Store, now: i64) -> (r: Result<
    Media,
    ResolutionError,
>)
    requires
        old(store).wf(),
        0 <= now,
        old(store)@.contains_key(id as int),
        old(store)@[id as int].requests_amount < i64::MAX,
    ensures
        final(store).wf(),
        !json_text_ok(body@) ==> r == Err::<Media, ResolutionError>(ResolutionError::Decode)
            && final(store)@ == old(store)@,
        json_text_ok(body@) ==> ({
            let imgs = images_of(body@);
            let title = title_or_default(title_of(body@));
            let audio = audio_or_default(music_of(body@));
            &&& (imgs.len() > 0 ==> (r matches Ok(m) && m matches Media::Photo {
                title: t,
                photo_urls,
                audio_url,
            } && photo_urls.deep_view() == imgs && t@ == title && audio_url@ == audio))
            &&& (imgs.len() == 0 && play_of(body@) is Some ==> (r matches Ok(m)
                && m matches Media::Video { title: t, video_url, audio_url } && video_url@
                == play_of(body@)->0 && t@ == title && audio_url@ == audio))
            &&& (imgs.len() == 0 && play_of(body@) is None ==> r == Err::<
                Media,
                ResolutionError,
            >(ResolutionError::ContentNotFound))
            &&& (r is Ok ==> final(store)@ == increment_spec(old(store)@, id as int, now as int))
            &&& (r is Err ==> final(store)@ == old(store)@)
            &&& (r matches Ok(m) ==> m.wf())
        }),
{
    match extract_response(body) {
        None => Err(ResolutionError::Decode),
        Some(fields) => {
            match classify(fields) {
                Ok(m) => {
                    let _ = store.increment_requests(id, now);
                    Ok(m)
                },
                Err(e) => Err(e),
            }
        },
    }
}

} // verus!
