//! How a track is resolved: the calls that are made in turn, and what each answer leads to.
//!
//! The main client is asked first, then the fallback clients of the track's kind, then (for an
//! ordinary track) the extractor of last resort. Each client of the chain is one leg; leg 0 is the
//! main client, whose answer was already fetched for the metadata.
use vstd::prelude::*;

use crate::clients::{self, YouTubeClient, FALLBACKS, MAIN_CLIENT};
use crate::model::{AudioQuality, Format, Loudness, PlayerResponse};
use crate::playback::{self, Failure, PingText, PlaybackText, StreamText};
use crate::rustypipe_fallback::{FallbackError, StreamCandidate};
use crate::stream_url;
use crate::string_map::StringSet;
use crate::text;

verus! {

/// What is asked for, and the session it is asked in.
pub struct ResolveRequest {
    pub video_id: String,
    /// One of the user's own uploads, which are streamed to an authenticated client only.
    pub is_upload: bool,
    pub quality: AudioQuality,
    /// Registry keys of the clients that the user switched off.
    pub disabled: StringSet,
    pub logged_in: bool,
    pub visitor: Option<String>,
}

/// What was answered to a call.
pub enum Event {
    /// The signature timestamp of the deciphering script.
    Timestamp(Option<i64>),
    /// A session or streaming PoToken, when one could be had.
    Token(Option<String>),
    /// A client's answer to a `/player` call; `None` when the call failed.
    Answer(Option<PlayerResponse>),
    /// Whether the main client is barred for the track.
    Barred(bool),
    /// The URL behind a cipher, when it could be deciphered.
    Deciphered(Option<String>),
    /// A URL after the `n`-transform.
    Transformed(String),
    /// The session's cookie.
    Cookie(Option<String>),
    /// Whether a probed URL is served.
    Probed(bool),
    /// A self-heal was set off.
    Healed,
    /// What the extractor of last resort found.
    Extracted(Result<StreamCandidate, FallbackError>),
}

/// One `/player` call.
pub struct CallText {
    pub client: Seq<char>,
    pub playlist_id: Option<Seq<char>>,
    pub sts: Option<i64>,
    pub pot: Option<Seq<char>>,
}

/// The next thing to do.
pub enum ActionText {
    SignatureTimestamp,
    SessionToken { visitor: Seq<char> },
    Player(CallText),
    CheckBar,
    Decipher { cipher: Seq<char> },
    TransformN { url: Seq<char> },
    StreamToken { visitor: Seq<char> },
    ReadCookie,
    Probe {
        url: Seq<char>,
        headers: Map<Seq<char>, Seq<char>>,
        content_length: Option<u64>,
    },
    SelfHeal,
    Extract { prefer_high: bool },
    Done(Result<PlaybackText, Failure>),
}

/// What has been learned so far.
pub struct ProgressText {
    pub sts: Option<i64>,
    pub session_pot: Option<Seq<char>>,
    /// The answer that metadata is taken from.
    pub main: Option<PlayerResponse>,
    /// That answer came from `WEB_CREATOR`, not from the main client.
    pub from_creator: bool,
    /// The best stream that was set aside because a better quality exists elsewhere.
    pub best: Option<StreamText>,
    /// The upload stream that is used when no probe passes.
    pub upload_fallback: Option<StreamText>,
    pub loudness: Option<Loudness>,
    /// Something answered.
    pub reached: bool,
    /// Some client answered, and every answer asked for an account.
    pub login_wanted: bool,
    /// The leg that is being tried. Behind the last client comes the stream that was set aside.
    pub leg: int,
}

/// The call whose answer is awaited.
pub enum PhaseText {
    Timestamp,
    SessionToken,
    Main,
    Creator,
    Bar,
    Answer,
    /// The stream's URL is being deciphered; it stands empty until then.
    Decipher(StreamText),
    Transform(StreamText),
    StreamToken(StreamText),
    ProbeCookie(StreamText),
    Probe { stream: StreamText, headers: Map<Seq<char>, Seq<char>> },
    Heal,
    LastHeal(StreamText),
    LastCookie(StreamText),
    Extract,
    ExtractProbe(StreamCandidate),
    Finished,
}

/// Where a resolution stands, and what it asks for next.
pub struct Turn {
    pub progress: ProgressText,
    pub phase: PhaseText,
    pub action: ActionText,
}

/// The registry as a map.
pub type Registry = Map<Seq<char>, YouTubeClient>;

/// The client of a leg.
pub open spec fn leg_key(is_upload: bool, leg: int) -> Seq<char> {
    if leg == 0 {
        MAIN_CLIENT@
    } else {
        clients::fallback_order(is_upload)[leg - 1]
    }
}

/// This client's requests and stream URLs need PoTokens.
pub open spec fn uses_tokens(clients: Registry, key: Seq<char>) -> bool {
    clients.contains_key(key) && clients[key].use_web_po_tokens
}

/// This client's requests need the signature timestamp.
pub open spec fn uses_timestamp(clients: Registry, key: Seq<char>) -> bool {
    clients.contains_key(key) && clients[key].use_signature_timestamp
}

/// Some client that may be tried for this track needs a session PoToken.
pub open spec fn wants_token(clients: Registry, req: ResolveRequest) -> bool {
    exists|leg: int|
        0 <= leg <= FALLBACKS && !req.disabled@.contains(leg_key(req.is_upload, leg))
            && #[trigger] uses_tokens(clients, leg_key(req.is_upload, leg))
}

/// The best quality is asked for.
pub open spec fn prefers_high(quality: AudioQuality) -> bool {
    quality is High || quality is Auto
}

/// Without the uploads playlist as context, an upload's URLs expire within a minute.
pub open spec fn playlist_of(is_upload: bool) -> Option<Seq<char>> {
    if is_upload {
        Some("MLPT"@)
    } else {
        None
    }
}

/// The call to a client of the chain. It carries the timestamp and the token where the client
/// needs them.
pub open spec fn call_to(
    clients: Registry,
    req: ResolveRequest,
    p: ProgressText,
    key: Seq<char>,
) -> CallText {
    CallText {
        client: key,
        playlist_id: playlist_of(req.is_upload),
        sts: if uses_timestamp(clients, key) {
            p.sts
        } else {
            None
        },
        pot: if uses_tokens(clients, key) {
            p.session_pot
        } else {
            None
        },
    }
}

/// The user agent of a client.
pub open spec fn user_agent(clients: Registry, key: Seq<char>) -> Option<Seq<char>> {
    if clients.contains_key(key) {
        Some(clients[key].user_agent@)
    } else {
        None
    }
}

/// An answer that serves the track.
pub open spec fn is_ok(answer: Option<PlayerResponse>) -> bool {
    answer matches Some(resp) && resp.playability_status.ok
}

/// An answer that refuses the track for want of an account.
pub open spec fn asks_login(answer: Option<PlayerResponse>) -> bool {
    answer matches Some(resp) && !resp.playability_status.ok && resp.playability_status.status@
        == "LOGIN_REQUIRED"@
}

/// The main answer offers a format of the highest quality.
pub open spec fn offers_high(main: Option<PlayerResponse>) -> bool {
    main matches Some(resp) && resp.streaming_data matches Some(s) && exists|i: int|
        0 <= i < s.adaptive_formats@.len() && playback::high(
            #[trigger] s.adaptive_formats@[i],
        )
}

/// The client that the main answer came from.
pub open spec fn main_key(from_creator: bool) -> Seq<char> {
    if from_creator {
        "WEB_CREATOR"@
    } else {
        MAIN_CLIENT@
    }
}

/// The client whose answer a leg goes by. The main answer may be `WEB_CREATOR`'s.
pub open spec fn leg_client(is_upload: bool, from_creator: bool, leg: int) -> Seq<char> {
    if leg == 0 {
        main_key(from_creator)
    } else {
        leg_key(is_upload, leg)
    }
}

/// The ping for a stream: the main answer's, which registers the play as a music one, or else that
/// of the answer the stream came from.
pub open spec fn stream_ping(
    main: Option<PlayerResponse>,
    from_creator: bool,
    resp: PlayerResponse,
    key: Seq<char>,
) -> Option<PingText> {
    let from_main = match main {
        Some(m) => playback::ping_of(m, main_key(from_creator)),
        None => None,
    };
    match from_main {
        Some(ping) => Some(ping),
        None => playback::ping_of(resp, key),
    }
}

/// What an answer has to offer: its picked format, where it has one and says how long it lasts.
/// The URL stands empty.
pub open spec fn offer(
    main: Option<PlayerResponse>,
    from_creator: bool,
    resp: PlayerResponse,
    key: Seq<char>,
) -> Option<StreamText> {
    match resp.streaming_data {
        Some(s) => match (s.expires_in_seconds, s.picked) {
            (Some(expires), Some(format)) => Some(
                StreamText {
                    format,
                    url: Seq::empty(),
                    expires,
                    client: key,
                    ping: stream_ping(main, from_creator, resp, key),
                    web: false,
                },
            ),
            _ => None,
        },
        None => None,
    }
}

/// `stream` at this URL.
pub open spec fn at_url(stream: StreamText, url: Seq<char>) -> StreamText {
    StreamText { url, ..stream }
}

/// Registry keys of the clients whose stream URLs need the `n`-transform whatever the registry says.
pub const NEEDS_N_TRANSFORM: [&'static str; 4] = ["WEB", "WEB_REMIX", "WEB_CREATOR", "TVHTML5"];

/// The client is one of [`NEEDS_N_TRANSFORM`].
pub open spec fn always_transformed(key: Seq<char>) -> bool {
    exists|i: int| 0 <= i < 4 && (#[trigger] NEEDS_N_TRANSFORM@[i])@ == key
}

/// The URL needs the `n`-transform: a web client's URL on the stream CDN. Any other host must not
/// be handed a token.
pub open spec fn needs_transform(clients: Registry, key: Seq<char>, url: Seq<char>) -> bool {
    stream_url::youtube_stream(url) && (uses_tokens(clients, key) || always_transformed(key))
}

/// The stream is set aside: the best quality is asked for, this is not it, and the main answer says
/// that it exists.
pub open spec fn set_aside(
    quality: AudioQuality,
    main: Option<PlayerResponse>,
    format: Format,
) -> bool {
    prefers_high(quality) && !playback::high(format) && offers_high(main)
}

/// The better of a new stream and the one kept so far, which stays when they are equals.
pub open spec fn better_of(kept: Option<StreamText>, new: StreamText) -> Option<StreamText> {
    match kept {
        Some(old) if !playback::above(
            playback::standing(new.format),
            playback::standing(old.format),
        ) => Some(old),
        _ => Some(new),
    }
}

/// A client of the chain is asked only if the user left it on, it is registered, the session it
/// needs is there, and the token it needs could be had.
pub open spec fn askable(
    clients: Registry,
    req: ResolveRequest,
    session_pot: Option<Seq<char>>,
    key: Seq<char>,
) -> bool {
    &&& !req.disabled@.contains(key)
    &&& clients.contains_key(key)
    &&& clients[key].login_required ==> req.logged_in
    &&& clients[key].use_web_po_tokens ==> session_pot is Some
}

/// The playback data for what the extractor found. It names neither artist nor thumbnail, and it
/// does not know the track's kind.
pub open spec fn extracted_data(video_id: Seq<char>, c: StreamCandidate) -> PlaybackText {
    PlaybackText {
        video_id,
        stream_url: c.url@,
        itag: c.itag as int,
        headers: Map::empty(),
        expires_in_seconds: c.expires_in_seconds as int,
        loudness_db: c.loudness_db,
        playback_ping: None,
        title: text::opt_text(c.title),
        artists: None,
        duration: match c.duration_secs {
            Some(s) => Some(text::decimal(s as nat)),
            None => None,
        },
        thumbnail: None,
        is_video: None,
        stream_client: "rustypipe"@,
    }
}

/// The state before anything was asked.
pub open spec fn blank() -> ProgressText {
    ProgressText {
        sts: None,
        session_pot: None,
        main: None,
        from_creator: false,
        best: None,
        upload_fallback: None,
        loudness: None,
        reached: false,
        login_wanted: false,
        leg: 0,
    }
}

/// The resolution is over.
pub open spec fn done(p: ProgressText, result: Result<PlaybackText, Failure>) -> Turn {
    Turn { progress: p, phase: PhaseText::Finished, action: ActionText::Done(result) }
}

/// A resolution starts with the signature timestamp.
pub open spec fn first_turn() -> Turn {
    Turn {
        progress: blank(),
        phase: PhaseText::Timestamp,
        action: ActionText::SignatureTimestamp,
    }
}

/// The main client is asked unless it is off or unknown. Its call always carries the timestamp and
/// the token.
pub open spec fn ask_main(clients: Registry, req: ResolveRequest, p: ProgressText) -> Turn {
    if clients.contains_key(MAIN_CLIENT@) && !req.disabled@.contains(MAIN_CLIENT@) {
        Turn {
            progress: p,
            phase: PhaseText::Main,
            action: ActionText::Player(
                CallText {
                    client: MAIN_CLIENT@,
                    playlist_id: playlist_of(req.is_upload),
                    sts: p.sts,
                    pot: p.session_pot,
                },
            ),
        }
    } else {
        main_settled(clients, req, p)
    }
}

/// With the timestamp there, a session token is minted if some client will want it.
pub open spec fn on_timestamp(
    clients: Registry,
    req: ResolveRequest,
    p: ProgressText,
    sts: Option<i64>,
) -> Turn {
    let p = ProgressText { sts, ..p };
    match req.visitor {
        Some(visitor) if wants_token(clients, req) => Turn {
            progress: p,
            phase: PhaseText::SessionToken,
            action: ActionText::SessionToken { visitor: visitor@ },
        },
        _ => ask_main(clients, req, p),
    }
}

/// An age or login gate on the main client is retried as `WEB_CREATOR`, which needs a session.
pub open spec fn retried(
    clients: Registry,
    req: ResolveRequest,
    answer: Option<PlayerResponse>,
) -> bool {
    &&& req.logged_in
    &&& answer matches Some(resp) && resp.playability_status.age_gated
    &&& clients.contains_key("WEB_CREATOR"@)
}

/// The main client has answered, or failed to.
pub open spec fn on_main(
    clients: Registry,
    req: ResolveRequest,
    p: ProgressText,
    answer: Option<PlayerResponse>,
) -> Turn {
    let p = ProgressText { main: answer, ..p };
    if retried(clients, req, answer) {
        Turn {
            progress: p,
            phase: PhaseText::Creator,
            action: ActionText::Player(call_to(clients, req, p, "WEB_CREATOR"@)),
        }
    } else {
        main_settled(clients, req, p)
    }
}

/// An answer to the retry takes the place of the gated one.
pub open spec fn on_creator(
    clients: Registry,
    req: ResolveRequest,
    p: ProgressText,
    answer: Option<PlayerResponse>,
) -> Turn {
    match answer {
        Some(resp) => main_settled(
            clients,
            req,
            ProgressText { main: Some(resp), from_creator: true, ..p },
        ),
        None => main_settled(clients, req, p),
    }
}

/// The metadata answer is settled; the chain starts at leg 0.
pub open spec fn main_settled(clients: Registry, req: ResolveRequest, p: ProgressText) -> Turn {
    seek(
        clients,
        req,
        ProgressText {
            loudness: match p.main {
                Some(resp) => playback::track_loudness(resp),
                None => None,
            },
            reached: p.main is Some,
            login_wanted: asks_login(p.main),
            leg: 0,
            ..p
        },
    )
}

/// Tries the current leg or, where it is passed over, the next one.
pub open spec fn seek(clients: Registry, req: ResolveRequest, p: ProgressText) -> Turn
    decreases FALLBACKS + 1 - p.leg,
{
    if p.leg > FALLBACKS {
        finish(req, p)
    } else if p.leg == 0 {
        if is_ok(p.main) && !req.disabled@.contains(MAIN_CLIENT@) {
            Turn { progress: p, phase: PhaseText::Bar, action: ActionText::CheckBar }
        } else {
            seek(clients, req, ProgressText { leg: 1, ..p })
        }
    } else if askable(clients, req, p.session_pot, leg_key(req.is_upload, p.leg)) {
        Turn {
            progress: p,
            phase: PhaseText::Answer,
            action: ActionText::Player(call_to(clients, req, p, leg_key(req.is_upload, p.leg))),
        }
    } else {
        seek(clients, req, ProgressText { leg: p.leg + 1, ..p })
    }
}

/// Leaves the current leg.
pub open spec fn next_leg(clients: Registry, req: ResolveRequest, p: ProgressText) -> Turn {
    seek(clients, req, ProgressText { leg: p.leg + 1, ..p })
}

/// The clients are exhausted. A stream that was set aside is probed like any other; then an upload
/// uses the one it has to fall back on, though no probe passed; then, for an ordinary track, the
/// extractor is asked.
pub open spec fn finish(req: ResolveRequest, p: ProgressText) -> Turn {
    match (p.best, p.upload_fallback) {
        (Some(stream), _) => Turn {
            progress: ProgressText { best: None, ..p },
            phase: PhaseText::ProbeCookie(stream),
            action: ActionText::ReadCookie,
        },
        (None, Some(stream)) => Turn {
            progress: ProgressText { upload_fallback: None, ..p },
            phase: PhaseText::LastHeal(stream),
            action: ActionText::SelfHeal,
        },
        (None, None) => if req.is_upload {
            done(p, Err(Failure::UploadUnavailable(req.video_id@)))
        } else {
            Turn {
                progress: p,
                phase: PhaseText::Extract,
                action: ActionText::Extract { prefer_high: prefers_high(req.quality) },
            }
        },
    }
}

/// A main-client stream that already died in the player is not tried again for this track.
pub open spec fn on_bar(
    clients: Registry,
    req: ResolveRequest,
    p: ProgressText,
    barred: bool,
) -> Turn {
    match p.main {
        Some(resp) if !barred => consider(clients, req, p, resp),
        _ => next_leg(clients, req, p),
    }
}

/// A client of the chain has answered, or failed to.
pub open spec fn on_answer(
    clients: Registry,
    req: ResolveRequest,
    p: ProgressText,
    answer: Option<PlayerResponse>,
) -> Turn {
    let p = ProgressText {
        reached: p.reached || answer is Some,
        login_wanted: if answer is Some {
            asks_login(answer) && (p.reached ==> p.login_wanted)
        } else {
            p.login_wanted
        },
        ..p
    };
    match answer {
        Some(resp) if resp.playability_status.ok => consider(clients, req, p, resp),
        _ => next_leg(clients, req, p),
    }
}

/// Looks at what the current leg's answer offers. Its loudness counts as soon as it offers
/// anything.
pub open spec fn consider(
    clients: Registry,
    req: ResolveRequest,
    p: ProgressText,
    resp: PlayerResponse,
) -> Turn {
    match offer(
        p.main,
        p.from_creator,
        resp,
        leg_client(req.is_upload, p.from_creator, p.leg),
    ) {
        Some(stream) => {
            let p = ProgressText {
                loudness: match p.loudness {
                    Some(l) => Some(l),
                    None => playback::track_loudness(resp),
                },
                ..p
            };
            match (stream.format.direct_url, stream.format.cipher_string) {
                (Some(url), _) => located(clients, req, p, at_url(stream, url@)),
                (None, Some(cipher)) => Turn {
                    progress: p,
                    phase: PhaseText::Decipher(stream),
                    action: ActionText::Decipher { cipher: cipher@ },
                },
                (None, None) => next_leg(clients, req, p),
            }
        },
        None => next_leg(clients, req, p),
    }
}

/// The stream's URL is known.
pub open spec fn located(
    clients: Registry,
    req: ResolveRequest,
    p: ProgressText,
    stream: StreamText,
) -> Turn {
    if needs_transform(clients, stream.client, stream.url) {
        Turn {
            progress: p,
            phase: PhaseText::Transform(StreamText { web: true, ..stream }),
            action: ActionText::TransformN { url: stream.url },
        }
    } else {
        settled(clients, req, p, stream)
    }
}

/// The URL is transformed; it has a token appended where the leg's own client uses them. Leg 0 is
/// the main client's in this, whoever answered for it: the retry of a gated track needs a token that
/// the CDN accepts.
pub open spec fn on_transformed(
    clients: Registry,
    req: ResolveRequest,
    p: ProgressText,
    stream: StreamText,
) -> Turn {
    match req.visitor {
        Some(visitor) if uses_tokens(clients, leg_key(req.is_upload, p.leg)) => Turn {
            progress: p,
            phase: PhaseText::StreamToken(stream),
            action: ActionText::StreamToken { visitor: visitor@ },
        },
        _ => settled(clients, req, p, stream),
    }
}

/// The URL is final: the stream is set aside, or probed.
pub open spec fn settled(
    clients: Registry,
    req: ResolveRequest,
    p: ProgressText,
    stream: StreamText,
) -> Turn {
    if set_aside(req.quality, p.main, stream.format) {
        next_leg(clients, req, ProgressText { best: better_of(p.best, stream), ..p })
    } else {
        Turn {
            progress: p,
            phase: PhaseText::ProbeCookie(stream),
            action: ActionText::ReadCookie,
        }
    }
}

/// The probe carries exactly the headers that the stream request will.
pub open spec fn on_probe_cookie(
    clients: Registry,
    req: ResolveRequest,
    p: ProgressText,
    stream: StreamText,
    cookie: Option<Seq<char>>,
) -> Turn {
    let headers = playback::header_map(
        user_agent(clients, stream.client),
        cookie,
        req.is_upload,
    );
    Turn {
        progress: p,
        phase: PhaseText::Probe { stream, headers },
        action: ActionText::Probe {
            url: stream.url,
            headers,
            content_length: playback::reported_length(stream.format),
        },
    }
}

/// The upload stream to fall back on once `stream` was refused: the first of the clients' legs, but
/// before it the one that was set aside.
pub open spec fn demotion(p: ProgressText, stream: StreamText) -> Option<StreamText> {
    match p.upload_fallback {
        Some(first) if p.leg <= FALLBACKS => Some(first),
        _ => Some(stream),
    }
}

/// A served URL wins. A refused one is passed over; but an upload's is kept to fall back on, and a
/// web client's sets off a self-heal.
pub open spec fn on_probed(
    clients: Registry,
    req: ResolveRequest,
    p: ProgressText,
    stream: StreamText,
    headers: Map<Seq<char>, Seq<char>>,
    served: bool,
) -> Turn {
    if served {
        done(
            p,
            Ok(playback::assembled(req.video_id@, stream, p.loudness, p.main, headers)),
        )
    } else if req.is_upload {
        next_leg(
            clients,
            req,
            ProgressText {
                upload_fallback: demotion(p, stream),
                ..p
            },
        )
    } else if stream.web {
        Turn { progress: p, phase: PhaseText::Heal, action: ActionText::SelfHeal }
    } else {
        next_leg(clients, req, p)
    }
}

/// An upload's stream that is used without a passed probe.
pub open spec fn on_last_cookie(
    clients: Registry,
    req: ResolveRequest,
    p: ProgressText,
    stream: StreamText,
    cookie: Option<Seq<char>>,
) -> Turn {
    let headers = playback::header_map(
        user_agent(clients, stream.client),
        cookie,
        req.is_upload,
    );
    done(p, Ok(playback::assembled(req.video_id@, stream, p.loudness, p.main, headers)))
}

/// The extractor is the last that spoke to the service, so its verdict counts as an answer.
pub open spec fn on_extracted(
    req: ResolveRequest,
    p: ProgressText,
    found: Result<StreamCandidate, FallbackError>,
) -> Turn {
    match found {
        Ok(c) => Turn {
            progress: p,
            phase: PhaseText::ExtractProbe(c),
            action: ActionText::Probe {
                url: c.url@,
                headers: Map::empty(),
                content_length: Some(c.size),
            },
        },
        Err(e) => done(
            p,
            Err(
                playback::verdict(
                    req.video_id@,
                    req.logged_in,
                    p.login_wanted,
                    p.reached || e.is_verdict(),
                ),
            ),
        ),
    }
}

/// The extractor's URL was probed. It answered either way, so a refused URL is about the track.
pub open spec fn on_extract_probed(
    req: ResolveRequest,
    p: ProgressText,
    c: StreamCandidate,
    served: bool,
) -> Turn {
    if served {
        done(p, Ok(extracted_data(req.video_id@, c)))
    } else {
        done(
            p,
            Err(playback::verdict(req.video_id@, req.logged_in, p.login_wanted, true)),
        )
    }
}

/// The event answers the call that is awaited.
pub open spec fn fits(phase: PhaseText, event: Event) -> bool {
    match phase {
        PhaseText::Timestamp => event is Timestamp,
        PhaseText::SessionToken => event is Token,
        PhaseText::Main => event is Answer,
        PhaseText::Creator => event is Answer,
        PhaseText::Bar => event is Barred,
        PhaseText::Answer => event is Answer,
        PhaseText::Decipher(_) => event is Deciphered,
        PhaseText::Transform(_) => event is Transformed,
        PhaseText::StreamToken(_) => event is Token,
        PhaseText::ProbeCookie(_) => event is Cookie,
        PhaseText::Probe { .. } => event is Probed,
        PhaseText::Heal => event is Healed,
        PhaseText::LastHeal(_) => event is Healed,
        PhaseText::LastCookie(_) => event is Cookie,
        PhaseText::Extract => event is Extracted,
        PhaseText::ExtractProbe(_) => event is Probed,
        PhaseText::Finished => false,
    }
}

/// What an answer leads to.
pub open spec fn turn(
    clients: Registry,
    req: ResolveRequest,
    p: ProgressText,
    phase: PhaseText,
    event: Event,
) -> Turn {
    match (phase, event) {
        (PhaseText::Timestamp, Event::Timestamp(sts)) => on_timestamp(clients, req, p, sts),
        (PhaseText::SessionToken, Event::Token(token)) => ask_main(
            clients,
            req,
            ProgressText { session_pot: text::opt_text(token), ..p },
        ),
        (PhaseText::Main, Event::Answer(answer)) => on_main(clients, req, p, answer),
        (PhaseText::Creator, Event::Answer(answer)) => on_creator(clients, req, p, answer),
        (PhaseText::Bar, Event::Barred(barred)) => on_bar(clients, req, p, barred),
        (PhaseText::Answer, Event::Answer(answer)) => on_answer(clients, req, p, answer),
        (PhaseText::Decipher(stream), Event::Deciphered(found)) => match found {
            Some(url) => located(clients, req, p, at_url(stream, url@)),
            None => next_leg(clients, req, p),
        },
        (PhaseText::Transform(stream), Event::Transformed(url)) => on_transformed(
            clients,
            req,
            p,
            at_url(stream, url@),
        ),
        (PhaseText::StreamToken(stream), Event::Token(token)) => match token {
            Some(token) => settled(
                clients,
                req,
                p,
                at_url(stream, stream_url::with_token(stream.url, token@)),
            ),
            None => settled(clients, req, p, stream),
        },
        (PhaseText::ProbeCookie(stream), Event::Cookie(cookie)) => on_probe_cookie(
            clients,
            req,
            p,
            stream,
            text::opt_text(cookie),
        ),
        (PhaseText::Probe { stream, headers }, Event::Probed(served)) => on_probed(
            clients,
            req,
            p,
            stream,
            headers,
            served,
        ),
        (PhaseText::Heal, Event::Healed) => next_leg(clients, req, p),
        (PhaseText::LastHeal(stream), Event::Healed) => Turn {
            progress: p,
            phase: PhaseText::LastCookie(stream),
            action: ActionText::ReadCookie,
        },
        (PhaseText::LastCookie(stream), Event::Cookie(cookie)) => on_last_cookie(
            clients,
            req,
            p,
            stream,
            text::opt_text(cookie),
        ),
        (PhaseText::Extract, Event::Extracted(found)) => on_extracted(req, p, found),
        (PhaseText::ExtractProbe(c), Event::Probed(served)) => on_extract_probed(
            req,
            p,
            c,
            served,
        ),
        _ => arbitrary(),
    }
}

} // verus!
