//! One track's playback data, the errors that stand in for it, and the small rules both are made
//! by.
use vstd::prelude::*;
use vstd::string::*;

use crate::model::{copy_text, Format, Loudness, PlayerResponse};
use crate::string_map::StringMap;
use crate::text::{self, has_substring, parse_u64, same_text};

verus! {

/// The watch-history ping for one play: the tracking URL and the registry key of the client whose
/// answer carried it. The two travel together because the ping has to be sent as the client that
/// was issued the URL.
#[derive(Debug)]
pub struct PlaybackPing {
    pub url: String,
    pub client: String,
}

/// A [`PlaybackPing`] as text.
pub struct PingText {
    pub url: Seq<char>,
    pub client: Seq<char>,
}

impl View for PlaybackPing {
    type V = PingText;

    open spec fn view(&self) -> PingText {
        PingText { url: self.url@, client: self.client@ }
    }
}

/// The text of an optional ping.
pub open spec fn ping_text(ping: Option<PlaybackPing>) -> Option<PingText> {
    match ping {
        Some(p) => Some(p@),
        None => None,
    }
}

/// Everything that the player, the UI and the media layer need for one track.
pub struct PlaybackData {
    pub video_id: String,
    pub stream_url: String,
    pub itag: i64,
    /// The HTTP headers that the stream request must carry.
    pub headers: StringMap<String>,
    pub expires_in_seconds: i64,
    pub loudness_db: Option<Loudness>,
    /// Where to register this play in the watch history. `None` when neither the main answer nor
    /// the one that the stream came from carried the tracking block.
    pub playback_ping: Option<PlaybackPing>,
    pub title: Option<String>,
    pub artists: Option<String>,
    pub duration: Option<String>,
    pub thumbnail: Option<String>,
    /// `Some(true)` for a video upload, `Some(false)` for the generated audio track, `None` when
    /// there is no main answer or it does not say.
    pub is_video: Option<bool>,
    /// Which client produced the stream.
    pub stream_client: String,
}

/// A [`PlaybackData`] as mathematical values.
pub struct PlaybackText {
    pub video_id: Seq<char>,
    pub stream_url: Seq<char>,
    pub itag: int,
    pub headers: Map<Seq<char>, Seq<char>>,
    pub expires_in_seconds: int,
    pub loudness_db: Option<Loudness>,
    pub playback_ping: Option<PingText>,
    pub title: Option<Seq<char>>,
    pub artists: Option<Seq<char>>,
    pub duration: Option<Seq<char>>,
    pub thumbnail: Option<Seq<char>>,
    pub is_video: Option<bool>,
    pub stream_client: Seq<char>,
}

impl View for PlaybackData {
    type V = PlaybackText;

    open spec fn view(&self) -> PlaybackText {
        PlaybackText {
            video_id: self.video_id@,
            stream_url: self.stream_url@,
            itag: self.itag as int,
            headers: self.headers.texts(),
            expires_in_seconds: self.expires_in_seconds as int,
            loudness_db: self.loudness_db,
            playback_ping: ping_text(self.playback_ping),
            title: text::opt_text(self.title),
            artists: text::opt_text(self.artists),
            duration: text::opt_text(self.duration),
            thumbnail: text::opt_text(self.thumbnail),
            is_video: self.is_video,
            stream_client: self.stream_client@,
        }
    }
}

/// Why a track did not play. Each variant names the track.
#[derive(Debug)]
pub enum ResolveError {
    /// No client could resolve a playable stream.
    AllClientsFailed(String),
    /// One of the user's own uploads that no authenticated client would stream. The likely cause is
    /// a session that needs signing in again, not a track that is gone.
    UploadUnavailable(String),
    /// Every client that was answered for this track wanted an account, and there is no session. The
    /// user can fix this one.
    SignInRequired(String),
    /// A local file that was in the library but is no longer on disk.
    LocalMissing(String),
    /// Nothing answered at all. That is the network, and it says nothing about this track.
    Unreachable(String),
}

/// A [`ResolveError`] with the track's id as text.
pub enum Failure {
    AllClientsFailed(Seq<char>),
    UploadUnavailable(Seq<char>),
    SignInRequired(Seq<char>),
    LocalMissing(Seq<char>),
    Unreachable(Seq<char>),
}

impl View for ResolveError {
    type V = Failure;

    open spec fn view(&self) -> Failure {
        match self {
            ResolveError::AllClientsFailed(id) => Failure::AllClientsFailed(id@),
            ResolveError::UploadUnavailable(id) => Failure::UploadUnavailable(id@),
            ResolveError::SignInRequired(id) => Failure::SignInRequired(id@),
            ResolveError::LocalMissing(id) => Failure::LocalMissing(id@),
            ResolveError::Unreachable(id) => Failure::Unreachable(id@),
        }
    }
}

impl Failure {
    /// Every other track in the queue would fail this way too.
    pub open spec fn systemic(self) -> bool {
        self is Unreachable || self is SignInRequired
    }

    /// What the user is told.
    pub open spec fn text(self) -> Seq<char> {
        match self {
            Failure::AllClientsFailed(id) =>
                "no client could resolve a playable stream for "@ + id,
            Failure::UploadUnavailable(id) =>
                "this upload could not be played. Try signing in to YouTube Music again ("@ + id
                    + ")"@,
            Failure::SignInRequired(id) =>
                "YouTube would not serve "@ + id
                    + " without an account. Sign in from the account menu."@,
            Failure::LocalMissing(id) => "this file is no longer on your disk: "@ + id,
            Failure::Unreachable(id) =>
                "could not reach YouTube. Check your connection and try again ("@ + id + ")"@,
        }
    }
}

/// `before`, `middle` and `after` in a row.
fn joined(before: &str, middle: &str, after: &str) -> (r: String)
    ensures
        r@ == before@ + middle@ + after@,
{
    let mut r: String = before.to_owned();
    r.append(middle);
    r.append(after);
    r
}

impl ResolveError {
    /// Would every other track in the queue fail this way too? Skipping forward is right for a
    /// track that was refused and wrong for an outage, where it walks the whole queue.
    pub fn affects_every_track(&self) -> (r: bool)
        ensures
            r == self@.systemic(),
    {
        match self {
            ResolveError::Unreachable(_) => true,
            ResolveError::SignInRequired(_) => true,
            _ => false,
        }
    }

    /// What the user is told.
    pub fn message(&self) -> (r: String)
        ensures
            r@ == self@.text(),
    {
        proof {
            reveal_strlit("");
            assert(self@.text() + ""@ =~= self@.text());
        }
        match self {
            ResolveError::AllClientsFailed(id) => joined(
                "no client could resolve a playable stream for ",
                id.as_str(),
                "",
            ),
            ResolveError::UploadUnavailable(id) => joined(
                "this upload could not be played. Try signing in to YouTube Music again (",
                id.as_str(),
                ")",
            ),
            ResolveError::SignInRequired(id) => joined(
                "YouTube would not serve ",
                id.as_str(),
                " without an account. Sign in from the account menu.",
            ),
            ResolveError::LocalMissing(id) => joined(
                "this file is no longer on your disk: ",
                id.as_str(),
                "",
            ),
            ResolveError::Unreachable(id) => joined(
                "could not reach YouTube. Check your connection and try again (",
                id.as_str(),
                ")",
            ),
        }
    }
}

/// The verdict on an ordinary track that nothing could stream.
pub open spec fn verdict(
    video_id: Seq<char>,
    logged_in: bool,
    login_wanted: bool,
    reached: bool,
) -> Failure {
    if !reached {
        Failure::Unreachable(video_id)
    } else if login_wanted && !logged_in {
        Failure::SignInRequired(video_id)
    } else {
        Failure::AllClientsFailed(video_id)
    }
}

/// The error for a track nothing could stream. Signing in is a real fix when an account was asked
/// for and there is no session. When no answer came back at all (`reached` is false), nothing was
/// learned about this track.
pub fn nothing_played(
    video_id: &str,
    logged_in: bool,
    login_wanted: bool,
    reached: bool,
) -> (r: ResolveError)
    ensures
        r@ == verdict(video_id@, logged_in, login_wanted, reached),
{
    if !reached {
        return ResolveError::Unreachable(video_id.to_owned());
    }
    if login_wanted && !logged_in {
        ResolveError::SignInRequired(video_id.to_owned())
    } else {
        ResolveError::AllClientsFailed(video_id.to_owned())
    }
}

/// The headers of one stream request.
pub open spec fn header_map(
    ua: Option<Seq<char>>,
    cookie: Option<Seq<char>>,
    is_upload: bool,
) -> Map<Seq<char>, Seq<char>> {
    let agent = match ua {
        Some(ua) => Map::empty().insert("User-Agent"@, ua),
        None => Map::empty(),
    };
    match cookie {
        Some(cookie) if is_upload => agent.insert("Cookie"@, cookie),
        _ => agent,
    }
}

/// The headers that a stream request and the probe before it must send. An upload is served to the
/// session that owns it only, so it carries the cookie; nothing else does.
pub fn stream_headers(ua: Option<String>, cookie: Option<String>, is_upload: bool) -> (r: StringMap<
    String,
>)
    ensures
        r.texts() == header_map(
            text::opt_text(ua),
            text::opt_text(cookie),
            is_upload,
        ),
{
    let ghost agent = text::opt_text(ua);
    let ghost jar = text::opt_text(cookie);
    let mut headers: StringMap<String> = StringMap::new();
    if let Some(ua) = ua {
        headers.insert("User-Agent".to_owned(), ua);
    }
    if is_upload {
        if let Some(cookie) = cookie {
            headers.insert("Cookie".to_owned(), cookie);
        }
    }
    assert(headers.texts() =~= header_map(agent, jar, is_upload));
    headers
}

/// The byte length that a format reported, when it is a number above zero.
pub open spec fn reported_length(f: Format) -> Option<u64> {
    match f.content_length {
        Some(s) => match text::parsed_u64(s@) {
            Some(n) if n > 0 => Some(n),
            _ => None,
        },
        None => None,
    }
}

/// A format's byte length, when it reported one. `"0"` reads as absent: a file of no length has no
/// tail to probe.
pub fn content_length(f: &Format) -> (r: Option<u64>)
    ensures
        r == reported_length(*f),
{
    match &f.content_length {
        Some(s) => match parse_u64(s.as_str()) {
            Some(n) => if n > 0 {
                Some(n)
            } else {
                None
            },
            None => None,
        },
        None => None,
    }
}

/// A format reports this quality.
pub open spec fn quality_is(f: Format, quality: Seq<char>) -> bool {
    f.audio_quality matches Some(q) && q@ == quality
}

/// A format of the highest quality.
pub open spec fn high(f: Format) -> bool {
    quality_is(f, "AUDIO_QUALITY_HIGH"@)
}

fn reports_quality(f: &Format, quality: &str) -> (r: bool)
    ensures
        r == quality_is(*f, quality@),
{
    match &f.audio_quality {
        Some(q) => same_text(q.as_str(), quality),
        None => false,
    }
}

/// Is this a format of the highest quality?
pub fn is_high(f: &Format) -> (r: bool)
    ensures
        r == high(*f),
{
    reports_quality(f, "AUDIO_QUALITY_HIGH")
}

/// The standing of a reported quality.
pub open spec fn quality_rank(f: Format) -> int {
    if high(f) {
        3
    } else if quality_is(f, "AUDIO_QUALITY_MEDIUM"@) {
        2
    } else if quality_is(f, "AUDIO_QUALITY_LOW"@) {
        1
    } else {
        0
    }
}

/// The standing of the codec that a MIME type names: opus before mp4a before anything else.
pub open spec fn codec_rank(mime: Seq<char>) -> int {
    if text::occurs_in(mime, "opus"@) {
        2
    } else if text::occurs_in(mime, "mp4a"@) {
        1
    } else {
        0
    }
}

/// What a format is compared by: quality, then audio channels (two where none are reported), then
/// codec, then bitrate.
pub open spec fn standing(f: Format) -> (int, int, int, int) {
    (
        quality_rank(f),
        match f.audio_channels {
            Some(n) => n as int,
            None => 2,
        },
        codec_rank(f.mime_type@),
        f.bitrate as int,
    )
}

/// `a` comes after `b` in the order that compares field by field.
pub open spec fn above(a: (int, int, int, int), b: (int, int, int, int)) -> bool {
    ||| a.0 > b.0
    ||| a.0 == b.0 && a.1 > b.1
    ||| a.0 == b.0 && a.1 == b.1 && a.2 > b.2
    ||| a.0 == b.0 && a.1 == b.1 && a.2 == b.2 && a.3 > b.3
}

fn rank_quality(f: &Format) -> (r: u8)
    ensures
        r == quality_rank(*f),
{
    if is_high(f) {
        3
    } else if reports_quality(f, "AUDIO_QUALITY_MEDIUM") {
        2
    } else if reports_quality(f, "AUDIO_QUALITY_LOW") {
        1
    } else {
        0
    }
}

/// The standing of the codec that a MIME type names.
pub fn codec_score(mime: &str) -> (r: u8)
    ensures
        r == codec_rank(mime@),
{
    if has_substring(mime, "opus") {
        2
    } else if has_substring(mime, "mp4a") {
        1
    } else {
        0
    }
}

/// Is `a` strictly better than `b`? Anything is better than nothing.
pub fn better(a: &Format, b: Option<&Format>) -> (r: bool)
    ensures
        r == (b matches Some(b) ==> above(standing(*a), standing(*b))),
{
    let b: &Format = match b {
        Some(b) => b,
        None => {
            return true;
        },
    };
    let ra: u8 = rank_quality(a);
    let rb: u8 = rank_quality(b);
    if ra != rb {
        return ra > rb;
    }
    let ca: i32 = a.audio_channels.unwrap_or(2);
    let cb: i32 = b.audio_channels.unwrap_or(2);
    if ca != cb {
        return ca > cb;
    }
    let sa: u8 = codec_score(a.mime_type.as_str());
    let sb: u8 = codec_score(b.mime_type.as_str());
    if sa != sb {
        return sa > sb;
    }
    a.bitrate > b.bitrate
}

/// The loudness that an answer gives for the whole track.
pub open spec fn track_loudness(resp: PlayerResponse) -> Option<Loudness> {
    match resp.player_config {
        Some(c) => match c.audio_config {
            Some(a) => a.loudness_db,
            None => None,
        },
        None => None,
    }
}

/// The loudness that an answer gives for the whole track.
pub fn main_loudness(resp: &PlayerResponse) -> (r: Option<Loudness>)
    ensures
        r == track_loudness(*resp),
{
    match &resp.player_config {
        Some(c) => match &c.audio_config {
            Some(a) => a.loudness_db,
            None => None,
        },
        None => None,
    }
}

/// The tracking URL that an answer carries.
pub open spec fn tracking_url(resp: PlayerResponse) -> Option<Seq<char>> {
    match resp.playback_tracking {
        Some(t) => match t.videostats_playback_url {
            Some(u) => text::opt_text(u.base_url),
            None => None,
        },
        None => None,
    }
}

/// The ping for an answer that `client` was given.
pub open spec fn ping_of(resp: PlayerResponse, client: Seq<char>) -> Option<PingText> {
    match tracking_url(resp) {
        Some(url) => Some(PingText { url, client }),
        None => None,
    }
}

/// The ping for an answer that `client` was given, when it carries a tracking URL.
pub fn playback_ping(resp: &PlayerResponse, client: &str) -> (r: Option<PlaybackPing>)
    ensures
        ping_text(r) == ping_of(*resp, client@),
{
    match &resp.playback_tracking {
        Some(t) => match &t.videostats_playback_url {
            Some(u) => match &u.base_url {
                Some(url) => Some(PlaybackPing { url: url.clone(), client: client.to_owned() }),
                None => None,
            },
            None => None,
        },
        None => None,
    }
}

/// The last, and so largest, thumbnail of an answer.
pub open spec fn largest_thumbnail(resp: PlayerResponse) -> Option<Seq<char>> {
    match resp.video_details {
        Some(v) => match v.thumbnail {
            Some(t) if t.thumbnails@.len() > 0 => Some(t.thumbnails@.last().url@),
            _ => None,
        },
        None => None,
    }
}

/// The last, and so largest, thumbnail of an answer.
pub fn best_thumbnail(resp: &PlayerResponse) -> (r: Option<String>)
    ensures
        text::opt_text(r) == largest_thumbnail(*resp),
        r matches Some(url) ==> {
            &&& resp.video_details matches Some(v)
            &&& v.thumbnail matches Some(t)
            &&& t.thumbnails@.len() > 0
            &&& t.thumbnails@[t.thumbnails@.len() - 1].url == url
        },
        r is None ==> (resp.video_details matches Some(v) ==> (v.thumbnail matches Some(t)
            ==> t.thumbnails@.len() == 0)),
{
    match &resp.video_details {
        Some(v) => match &v.thumbnail {
            Some(t) => if t.thumbnails.len() > 0 {
                Some(t.thumbnails[t.thumbnails.len() - 1].url.clone())
            } else {
                None
            },
            None => None,
        },
        None => None,
    }
}

/// A stream with what goes out along with it.
pub struct StreamText {
    pub format: Format,
    pub url: Seq<char>,
    pub expires: i64,
    pub client: Seq<char>,
    pub ping: Option<PingText>,
    /// The URL is a web client's on the stream CDN.
    pub web: bool,
}

/// The playback data for a stream: the stream's own values, and the metadata of the main answer.
pub open spec fn assembled(
    video_id: Seq<char>,
    stream: StreamText,
    loudness: Option<Loudness>,
    main: Option<PlayerResponse>,
    headers: Map<Seq<char>, Seq<char>>,
) -> PlaybackText {
    let details = match main {
        Some(resp) => resp.video_details,
        None => None,
    };
    PlaybackText {
        video_id,
        stream_url: stream.url,
        itag: stream.format.itag as int,
        headers,
        expires_in_seconds: stream.expires as int,
        loudness_db: match stream.format.loudness_db {
            Some(l) => Some(l),
            None => loudness,
        },
        playback_ping: stream.ping,
        title: match details {
            Some(v) => text::opt_text(v.title),
            None => None,
        },
        artists: match details {
            Some(v) => text::opt_text(v.author),
            None => None,
        },
        duration: match details {
            Some(v) => text::opt_text(v.length_seconds),
            None => None,
        },
        thumbnail: match main {
            Some(resp) => largest_thumbnail(resp),
            None => None,
        },
        is_video: match details {
            Some(v) => v.is_music_video,
            None => None,
        },
        stream_client: stream.client,
    }
}

/// A stream URL together with the format and the client that it came from.
pub struct Candidate {
    pub format: Format,
    pub url: String,
    pub expires: i64,
    pub client: String,
    pub ping: Option<PlaybackPing>,
    /// The URL is a web client's on the stream CDN.
    pub web: bool,
}

impl View for Candidate {
    type V = StreamText;

    open spec fn view(&self) -> StreamText {
        StreamText {
            format: self.format,
            url: self.url@,
            expires: self.expires,
            client: self.client@,
            ping: ping_text(self.ping),
            web: self.web,
        }
    }
}

/// The playback data for a stream: the stream's own values, and the metadata of the main answer.
pub fn build(
    video_id: &str,
    stream: Candidate,
    loudness: Option<Loudness>,
    main: &Option<PlayerResponse>,
    headers: StringMap<String>,
) -> (r: PlaybackData)
    ensures
        r@ == assembled(video_id@, stream@, loudness, *main, headers.texts()),
{
    let mut title: Option<String> = None;
    let mut artists: Option<String> = None;
    let mut duration: Option<String> = None;
    let mut thumbnail: Option<String> = None;
    let mut is_video: Option<bool> = None;
    if let Some(resp) = main {
        thumbnail = best_thumbnail(resp);
        if let Some(v) = &resp.video_details {
            title = copy_text(&v.title);
            artists = copy_text(&v.author);
            duration = copy_text(&v.length_seconds);
            is_video = v.is_music_video;
        }
    }
    let loudness_db: Option<Loudness> = match stream.format.loudness_db {
        Some(l) => Some(l),
        None => loudness,
    };
    PlaybackData {
        video_id: video_id.to_owned(),
        stream_url: stream.url,
        itag: stream.format.itag as i64,
        headers,
        expires_in_seconds: stream.expires,
        loudness_db,
        playback_ping: stream.ping,
        title,
        artists,
        duration,
        thumbnail,
        is_video,
        stream_client: stream.client,
    }
}

} // verus!
