//! The resolution of one track, as a machine that is handed answers and says what to do next.
use vstd::prelude::*;
use vstd::string::*;

use crate::chain::{self, Event, ResolveRequest, NEEDS_N_TRANSFORM};
use crate::clients::{fallback_key, Clients, FALLBACKS, MAIN_CLIENT};
use crate::model::{copy_text, AudioQuality, Format, Loudness, PlayerResponse};
use crate::playback::{
    self, better, build, content_length, is_high, main_loudness, nothing_played, playback_ping,
    stream_headers, Candidate, PlaybackData, PlaybackPing, ResolveError,
};
use crate::rustypipe_fallback::{FallbackError, StreamCandidate};
use crate::stream_url::{append_token, is_youtube_stream};
use crate::string_map::StringMap;
use crate::text::{self, decimal_text, same_text};

verus! {

/// One `/player` call: the registry key of the client to ask as, and what the call carries.
#[derive(Debug)]
pub struct PlayerCall {
    pub client: String,
    pub playlist_id: Option<String>,
    pub sts: Option<i64>,
    pub pot: Option<String>,
}

impl View for PlayerCall {
    type V = chain::CallText;

    open spec fn view(&self) -> chain::CallText {
        chain::CallText {
            client: self.client@,
            playlist_id: text::opt_text(self.playlist_id),
            sts: self.sts,
            pot: text::opt_text(self.pot),
        }
    }
}

/// The next thing to do.
pub enum Action {
    /// Read the signature timestamp of the deciphering script.
    SignatureTimestamp,
    /// Mint a session PoToken.
    SessionToken { visitor: String },
    /// Make a `/player` call for the track.
    Player(PlayerCall),
    /// Find out whether the main client is barred for the track.
    CheckBar,
    /// Decipher a stream URL.
    Decipher { cipher: String },
    /// Apply the `n`-transform to a stream URL.
    TransformN { url: String },
    /// Mint a streaming PoToken for the track.
    StreamToken { visitor: String },
    /// Read the session's cookie.
    ReadCookie,
    /// Send the probe for this URL.
    Probe { url: String, headers: StringMap<String>, content_length: Option<u64> },
    /// Set off a self-heal and go on at once.
    SelfHeal,
    /// Ask the extractor of last resort for the track.
    Extract { prefer_high: bool },
    /// Nothing is left to do.
    Done(Result<PlaybackData, ResolveError>),
}

impl View for Action {
    type V = chain::ActionText;

    open spec fn view(&self) -> chain::ActionText {
        match self {
            Action::SignatureTimestamp => chain::ActionText::SignatureTimestamp,
            Action::SessionToken { visitor } => chain::ActionText::SessionToken {
                visitor: visitor@,
            },
            Action::Player(call) => chain::ActionText::Player(call@),
            Action::CheckBar => chain::ActionText::CheckBar,
            Action::Decipher { cipher } => chain::ActionText::Decipher { cipher: cipher@ },
            Action::TransformN { url } => chain::ActionText::TransformN { url: url@ },
            Action::StreamToken { visitor } => chain::ActionText::StreamToken {
                visitor: visitor@,
            },
            Action::ReadCookie => chain::ActionText::ReadCookie,
            Action::Probe { url, headers, content_length } => chain::ActionText::Probe {
                url: url@,
                headers: headers.texts(),
                content_length: *content_length,
            },
            Action::SelfHeal => chain::ActionText::SelfHeal,
            Action::Extract { prefer_high } => chain::ActionText::Extract {
                prefer_high: *prefer_high,
            },
            Action::Done(Ok(data)) => chain::ActionText::Done(Ok(data@)),
            Action::Done(Err(e)) => chain::ActionText::Done(Err(e@)),
        }
    }
}

/// What has been learned so far.
struct Progress {
    sts: Option<i64>,
    session_pot: Option<String>,
    main: Option<PlayerResponse>,
    from_creator: bool,
    best: Option<Candidate>,
    upload_fallback: Option<Candidate>,
    loudness: Option<Loudness>,
    reached: bool,
    login_wanted: bool,
    leg: usize,
}

/// The values of an optional candidate.
pub open spec fn opt_stream(o: Option<Candidate>) -> Option<playback::StreamText> {
    match o {
        Some(c) => Some(c@),
        None => None,
    }
}

impl View for Progress {
    type V = chain::ProgressText;

    closed spec fn view(&self) -> chain::ProgressText {
        chain::ProgressText {
            sts: self.sts,
            session_pot: text::opt_text(self.session_pot),
            main: self.main,
            from_creator: self.from_creator,
            best: opt_stream(self.best),
            upload_fallback: opt_stream(self.upload_fallback),
            loudness: self.loudness,
            reached: self.reached,
            login_wanted: self.login_wanted,
            leg: self.leg as int,
        }
    }
}

/// The call whose answer is awaited.
enum Phase {
    Timestamp,
    SessionToken,
    Main,
    Creator,
    Bar,
    Answer,
    Decipher(Candidate),
    Transform(Candidate),
    StreamToken(Candidate),
    ProbeCookie(Candidate),
    Probe { stream: Candidate, headers: StringMap<String> },
    Heal,
    LastHeal(Candidate),
    LastCookie(Candidate),
    Extract,
    ExtractProbe(StreamCandidate),
    Finished,
}

impl View for Phase {
    type V = chain::PhaseText;

    closed spec fn view(&self) -> chain::PhaseText {
        match self {
            Phase::Timestamp => chain::PhaseText::Timestamp,
            Phase::SessionToken => chain::PhaseText::SessionToken,
            Phase::Main => chain::PhaseText::Main,
            Phase::Creator => chain::PhaseText::Creator,
            Phase::Bar => chain::PhaseText::Bar,
            Phase::Answer => chain::PhaseText::Answer,
            Phase::Decipher(c) => chain::PhaseText::Decipher(c@),
            Phase::Transform(c) => chain::PhaseText::Transform(c@),
            Phase::StreamToken(c) => chain::PhaseText::StreamToken(c@),
            Phase::ProbeCookie(c) => chain::PhaseText::ProbeCookie(c@),
            Phase::Probe { stream, headers } => chain::PhaseText::Probe {
                stream: stream@,
                headers: headers.texts(),
            },
            Phase::Heal => chain::PhaseText::Heal,
            Phase::LastHeal(c) => chain::PhaseText::LastHeal(c@),
            Phase::LastCookie(c) => chain::PhaseText::LastCookie(c@),
            Phase::Extract => chain::PhaseText::Extract,
            Phase::ExtractProbe(c) => chain::PhaseText::ExtractProbe(*c),
            Phase::Finished => chain::PhaseText::Finished,
        }
    }
}

/// A resolution under way.
pub struct Resolver {
    request: ResolveRequest,
    progress: Progress,
    phase: Phase,
}

/// A call of the leg that is being tried is awaited.
closed spec fn on_leg(phase: chain::PhaseText) -> bool {
    ||| phase is Bar
    ||| phase is Answer
    ||| phase is Decipher
    ||| phase is Transform
    ||| phase is StreamToken
    ||| phase is ProbeCookie
    ||| phase is Probe
    ||| phase is Heal
}

/// A leg can be left: it is a client's, or the stream that was set aside has been taken out.
closed spec fn on_track(p: chain::ProgressText) -> bool {
    p.leg <= FALLBACKS || (p.leg == FALLBACKS + 1 && p.best is None)
}

/// The phase and the progress belong together. Only a probe, and the heal that it sets off, is made
/// behind the last client.
closed spec fn consistent(p: chain::ProgressText, phase: chain::PhaseText) -> bool {
    &&& on_leg(phase) ==> on_track(p)
    &&& on_leg(phase) && !(phase is ProbeCookie || phase is Probe || phase is Heal) ==> p.leg
        <= FALLBACKS
}

impl Resolver {
    #[verifier::type_invariant]
    spec fn inv(self) -> bool {
        consistent(self.progress@, self.phase@)
    }

    /// What is being resolved.
    pub closed spec fn request(self) -> ResolveRequest {
        self.request
    }

    /// What has been learned so far.
    pub closed spec fn progress(self) -> chain::ProgressText {
        self.progress@
    }

    /// The call whose answer is awaited.
    pub closed spec fn phase(self) -> chain::PhaseText {
        self.phase@
    }
}

/// A resolver and the action it asks for, as one turn.
pub open spec fn turn_of(r: (Resolver, Action)) -> chain::Turn {
    chain::Turn { progress: r.0.progress(), phase: r.0.phase(), action: r.1@ }
}

/// A resolver that waits in `phase` for the answer to `action`.
fn waiting(request: ResolveRequest, progress: Progress, phase: Phase, action: Action) -> (r: (
    Resolver,
    Action,
))
    requires
        consistent(progress@, phase@),
    ensures
        r.0.request() == request,
        turn_of(r) == (chain::Turn {
            progress: progress@,
            phase: phase@,
            action: action@,
        }),
{
    (Resolver { request, progress, phase }, action)
}

/// Is the best quality asked for?
fn wants_high(quality: AudioQuality) -> (r: bool)
    ensures
        r == chain::prefers_high(quality),
{
    match quality {
        AudioQuality::High => true,
        AudioQuality::Auto => true,
        AudioQuality::Low => false,
    }
}

/// The playlist that a call for such a track names.
fn playlist(is_upload: bool) -> (r: Option<String>)
    ensures
        text::opt_text(r) == chain::playlist_of(is_upload),
{
    if is_upload {
        Some("MLPT".to_owned())
    } else {
        None
    }
}

/// The registry key of a leg's client.
fn key_of_leg(is_upload: bool, leg: usize) -> (r: &'static str)
    requires
        leg <= FALLBACKS,
    ensures
        r@ == chain::leg_key(is_upload, leg as int),
{
    if leg == 0 {
        MAIN_CLIENT
    } else {
        fallback_key(is_upload, leg - 1)
    }
}

/// The registry key of the client that the main answer came from.
fn key_of_main(from_creator: bool) -> (r: &'static str)
    ensures
        r@ == chain::main_key(from_creator),
{
    if from_creator {
        "WEB_CREATOR"
    } else {
        MAIN_CLIENT
    }
}

/// The registry key of the client whose answer a leg goes by.
fn client_of_leg(is_upload: bool, from_creator: bool, leg: usize) -> (r: &'static str)
    requires
        leg <= FALLBACKS,
    ensures
        r@ == chain::leg_client(is_upload, from_creator, leg as int),
{
    if leg == 0 {
        key_of_main(from_creator)
    } else {
        key_of_leg(is_upload, leg)
    }
}

/// Does this client need PoTokens?
fn takes_tokens(clients: &Clients, key: &str) -> (r: bool)
    ensures
        r == chain::uses_tokens(clients@, key@),
{
    match clients.get(key) {
        Some(c) => c.use_web_po_tokens,
        None => false,
    }
}

/// Will some client that may be tried for this track need a session PoToken? The token belongs to
/// the session, so switching the main client off does not switch the others' token off with it.
fn some_client_takes_tokens(clients: &Clients, request: &ResolveRequest) -> (r: bool)
    ensures
        r == chain::wants_token(clients@, *request),
{
    let mut leg: usize = 0;
    while leg <= FALLBACKS
        invariant
            leg <= FALLBACKS + 1,
            forall|l: int|
                0 <= l < leg && !request.disabled@.contains(
                    chain::leg_key(request.is_upload, l),
                ) ==> !#[trigger] chain::uses_tokens(
                    clients@,
                    chain::leg_key(request.is_upload, l),
                ),
        decreases FALLBACKS + 1 - leg,
    {
        let key: &str = key_of_leg(request.is_upload, leg);
        if !request.disabled.contains(key) && takes_tokens(clients, key) {
            assert(chain::uses_tokens(
                clients@,
                chain::leg_key(request.is_upload, leg as int),
            ));
            return true;
        }
        leg = leg + 1;
    }
    false
}

/// The call to a client of the chain.
fn call_for(clients: &Clients, request: &ResolveRequest, p: &Progress, key: &str) -> (r: PlayerCall)
    ensures
        r@ == chain::call_to(clients@, *request, p@, key@),
{
    let mut sts: Option<i64> = None;
    let mut pot: Option<String> = None;
    if let Some(c) = clients.get(key) {
        if c.use_signature_timestamp {
            sts = p.sts;
        }
        if c.use_web_po_tokens {
            pot = copy_text(&p.session_pot);
        }
    }
    PlayerCall { client: key.to_owned(), playlist_id: playlist(request.is_upload), sts, pot }
}

/// The user agent of a client.
fn agent_of(clients: &Clients, key: &str) -> (r: Option<String>)
    ensures
        text::opt_text(r) == chain::user_agent(clients@, key@),
{
    match clients.get(key) {
        Some(c) => Some(c.user_agent.clone()),
        None => None,
    }
}

/// The headers that a stream of this client is requested with.
pub fn client_headers(clients: &Clients, key: &str, cookie: Option<String>, is_upload: bool) -> (r:
    StringMap<String>)
    ensures
        r.texts() == playback::header_map(
            chain::user_agent(clients@, key@),
            text::opt_text(cookie),
            is_upload,
        ),
{
    stream_headers(agent_of(clients, key), cookie, is_upload)
}

/// Does the answer refuse the track for want of an account?
fn wants_login(resp: &PlayerResponse) -> (r: bool)
    ensures
        r == chain::asks_login(Some(*resp)),
{
    !resp.playability_status.ok && same_text(
        resp.playability_status.status.as_str(),
        "LOGIN_REQUIRED",
    )
}

/// Does the main answer offer a format of the highest quality?
fn main_offers_high(main: &Option<PlayerResponse>) -> (r: bool)
    ensures
        r == chain::offers_high(*main),
{
    let formats: &Vec<Format> = match main {
        Some(resp) => match &resp.streaming_data {
            Some(s) => &s.adaptive_formats,
            None => {
                return false;
            },
        },
        None => {
            return false;
        },
    };
    let mut i: usize = 0;
    while i < formats.len()
        invariant
            i <= formats@.len(),
            main matches Some(resp) && resp.streaming_data matches Some(s) && s.adaptive_formats@
                == formats@,
            forall|j: int| 0 <= j < i ==> !playback::high(#[trigger] formats@[j]),
        decreases formats@.len() - i,
    {
        if is_high(&formats[i]) {
            return true;
        }
        i = i + 1;
    }
    false
}

/// The ping for a stream out of `resp`.
fn ping_for(main: &Option<PlayerResponse>, from_creator: bool, resp: &PlayerResponse, key: &str) -> (r:
    Option<PlaybackPing>)
    ensures
        playback::ping_text(r) == chain::stream_ping(
            *main,
            from_creator,
            *resp,
            key@,
        ),
{
    if let Some(m) = main {
        let ping: Option<PlaybackPing> = playback_ping(m, key_of_main(from_creator));
        if ping.is_some() {
            return ping;
        }
    }
    playback_ping(resp, key)
}

/// What an answer has to offer, with the URL left empty.
fn offer_of(main: &Option<PlayerResponse>, from_creator: bool, resp: &PlayerResponse, key: &str) -> (r:
    Option<Candidate>)
    ensures
        opt_stream(r) == chain::offer(*main, from_creator, *resp, key@),
{
    match &resp.streaming_data {
        Some(s) => match (s.expires_in_seconds, &s.picked) {
            (Some(expires), Some(format)) => Some(
                Candidate {
                    format: format.clone(),
                    url: String::new(),
                    expires,
                    client: key.to_owned(),
                    ping: ping_for(main, from_creator, resp, key),
                    web: false,
                },
            ),
            _ => None,
        },
        None => None,
    }
}

/// Is this one of the clients whose URLs always need the `n`-transform?
fn named_for_transform(key: &str) -> (r: bool)
    ensures
        r == chain::always_transformed(key@),
{
    let mut i: usize = 0;
    while i < 4
        invariant
            i <= 4,
            forall|j: int| 0 <= j < i ==> (#[trigger] NEEDS_N_TRANSFORM@[j])@ != key@,
        decreases 4 - i,
    {
        if same_text(NEEDS_N_TRANSFORM[i], key) {
            return true;
        }
        i = i + 1;
    }
    false
}

/// Does this client's URL need the `n`-transform?
fn url_needs_transform(clients: &Clients, key: &str, url: &str) -> (r: bool)
    ensures
        r == chain::needs_transform(clients@, key@, url@),
{
    is_youtube_stream(url) && (takes_tokens(clients, key) || named_for_transform(key))
}

/// May this client of the chain be asked?
fn may_ask(clients: &Clients, request: &ResolveRequest, p: &Progress, key: &str) -> (r: bool)
    ensures
        r == chain::askable(clients@, *request, p@.session_pot, key@),
{
    if request.disabled.contains(key) {
        return false;
    }
    match clients.get(key) {
        Some(c) => (!c.login_required || request.logged_in) && (!c.use_web_po_tokens
            || p.session_pot.is_some()),
        None => false,
    }
}

/// The playback data for what the extractor found.
fn build_extracted(video_id: &str, c: StreamCandidate) -> (r: PlaybackData)
    ensures
        r@ == chain::extracted_data(video_id@, c),
{
    let duration: Option<String> = match c.duration_secs {
        Some(s) => Some(decimal_text(s as u64)),
        None => None,
    };
    let headers: StringMap<String> = StringMap::new();
    assert(headers.texts() =~= Map::<Seq<char>, Seq<char>>::empty());
    PlaybackData {
        video_id: video_id.to_owned(),
        stream_url: c.url,
        itag: c.itag as i64,
        headers,
        expires_in_seconds: c.expires_in_seconds as i64,
        loudness_db: c.loudness_db,
        playback_ping: None,
        title: c.title,
        artists: None,
        duration,
        thumbnail: None,
        is_video: None,
        stream_client: "rustypipe".to_owned(),
    }
}

fn ask_main(clients: &Clients, request: ResolveRequest, p: Progress) -> (r: (Resolver, Action))
    ensures
        r.0.request() == request,
        turn_of(r) == chain::ask_main(clients@, request, p@),
{
    if clients.get(MAIN_CLIENT).is_some() && !request.disabled.contains(MAIN_CLIENT) {
        let call = PlayerCall {
            client: MAIN_CLIENT.to_owned(),
            playlist_id: playlist(request.is_upload),
            sts: p.sts,
            pot: copy_text(&p.session_pot),
        };
        waiting(request, p, Phase::Main, Action::Player(call))
    } else {
        main_settled(clients, request, p)
    }
}

fn on_timestamp(clients: &Clients, request: ResolveRequest, p: Progress, sts: Option<i64>) -> (r: (
    Resolver,
    Action,
))
    ensures
        r.0.request() == request,
        turn_of(r) == chain::on_timestamp(clients@, request, p@, sts),
{
    let p = Progress { sts, ..p };
    if some_client_takes_tokens(clients, &request) {
        if let Some(visitor) = copy_text(&request.visitor) {
            return waiting(request, p, Phase::SessionToken, Action::SessionToken { visitor });
        }
    }
    ask_main(clients, request, p)
}

fn on_main(
    clients: &Clients,
    request: ResolveRequest,
    p: Progress,
    answer: Option<PlayerResponse>,
) -> (r: (Resolver, Action))
    ensures
        r.0.request() == request,
        turn_of(r) == chain::on_main(clients@, request, p@, answer),
{
    let gated: bool = match &answer {
        Some(resp) => resp.playability_status.age_gated,
        None => false,
    };
    let p = Progress { main: answer, ..p };
    if request.logged_in && gated && clients.get("WEB_CREATOR").is_some() {
        let call = call_for(clients, &request, &p, "WEB_CREATOR");
        waiting(request, p, Phase::Creator, Action::Player(call))
    } else {
        main_settled(clients, request, p)
    }
}

fn on_creator(
    clients: &Clients,
    request: ResolveRequest,
    p: Progress,
    answer: Option<PlayerResponse>,
) -> (r: (Resolver, Action))
    ensures
        r.0.request() == request,
        turn_of(r) == chain::on_creator(clients@, request, p@, answer),
{
    match answer {
        Some(resp) => main_settled(
            clients,
            request,
            Progress { main: Some(resp), from_creator: true, ..p },
        ),
        None => main_settled(clients, request, p),
    }
}

fn main_settled(clients: &Clients, request: ResolveRequest, p: Progress) -> (r: (Resolver, Action))
    ensures
        r.0.request() == request,
        turn_of(r) == chain::main_settled(clients@, request, p@),
{
    let mut loudness: Option<Loudness> = None;
    let mut login_wanted: bool = false;
    if let Some(resp) = &p.main {
        loudness = main_loudness(resp);
        login_wanted = wants_login(resp);
    }
    let reached: bool = p.main.is_some();
    seek(clients, request, Progress { loudness, reached, login_wanted, leg: 0, ..p })
}

fn seek(clients: &Clients, request: ResolveRequest, p: Progress) -> (r: (Resolver, Action))
    requires
        p@.best is Some ==> p@.leg <= FALLBACKS + 1,
        p@.leg <= FALLBACKS + 2,
    ensures
        r.0.request() == request,
        turn_of(r) == chain::seek(clients@, request, p@),
    decreases FALLBACKS + 1 - p@.leg,
{
    if p.leg > FALLBACKS {
        return finish(request, p);
    }
    if p.leg == 0 {
        let served: bool = match &p.main {
            Some(resp) => resp.playability_status.ok,
            None => false,
        };
        if served && !request.disabled.contains(MAIN_CLIENT) {
            waiting(request, p, Phase::Bar, Action::CheckBar)
        } else {
            seek(clients, request, Progress { leg: 1, ..p })
        }
    } else {
        let key: &str = key_of_leg(request.is_upload, p.leg);
        if may_ask(clients, &request, &p, key) {
            let call = call_for(clients, &request, &p, key);
            waiting(request, p, Phase::Answer, Action::Player(call))
        } else {
            seek(clients, request, Progress { leg: p.leg + 1, ..p })
        }
    }
}

fn next_leg(clients: &Clients, request: ResolveRequest, p: Progress) -> (r: (Resolver, Action))
    requires
        on_track(p@),
    ensures
        r.0.request() == request,
        turn_of(r) == chain::next_leg(clients@, request, p@),
{
    seek(clients, request, Progress { leg: p.leg + 1, ..p })
}

fn finish(request: ResolveRequest, p: Progress) -> (r: (Resolver, Action))
    requires
        p@.best is Some ==> p@.leg <= FALLBACKS + 1,
    ensures
        r.0.request() == request,
        turn_of(r) == chain::finish(request, p@),
{
    let mut p = p;
    if let Some(stream) = p.best.take() {
        return waiting(request, p, Phase::ProbeCookie(stream), Action::ReadCookie);
    }
    if let Some(stream) = p.upload_fallback.take() {
        return waiting(request, p, Phase::LastHeal(stream), Action::SelfHeal);
    }
    if request.is_upload {
        let e = ResolveError::UploadUnavailable(request.video_id.clone());
        waiting(request, p, Phase::Finished, Action::Done(Err(e)))
    } else {
        let prefer_high: bool = wants_high(request.quality);
        waiting(request, p, Phase::Extract, Action::Extract { prefer_high })
    }
}

fn on_bar(clients: &Clients, request: ResolveRequest, p: Progress, barred: bool) -> (r: (
    Resolver,
    Action,
))
    requires
        p@.leg <= FALLBACKS,
    ensures
        r.0.request() == request,
        turn_of(r) == chain::on_bar(clients@, request, p@, barred),
{
    if barred {
        return next_leg(clients, request, p);
    }
    let key: &str = client_of_leg(request.is_upload, p.from_creator, p.leg);
    let found: Option<(Option<Candidate>, Option<Loudness>)> = match &p.main {
        Some(resp) => Some(
            (offer_of(&p.main, p.from_creator, resp, key), main_loudness(resp)),
        ),
        None => None,
    };
    match found {
        Some((offer, loudness)) => consider(clients, request, p, offer, loudness),
        None => next_leg(clients, request, p),
    }
}

fn on_answer(
    clients: &Clients,
    request: ResolveRequest,
    p: Progress,
    answer: Option<PlayerResponse>,
) -> (r: (Resolver, Action))
    requires
        p@.leg <= FALLBACKS,
    ensures
        r.0.request() == request,
        turn_of(r) == chain::on_answer(clients@, request, p@, answer),
{
    match answer {
        Some(resp) => {
            let login_wanted: bool = wants_login(&resp) && (!p.reached || p.login_wanted);
            let p = Progress { reached: true, login_wanted, ..p };
            if resp.playability_status.ok {
                let key: &str = client_of_leg(request.is_upload, p.from_creator, p.leg);
                let offer: Option<Candidate> = offer_of(&p.main, p.from_creator, &resp, key);
                let loudness: Option<Loudness> = main_loudness(&resp);
                consider(clients, request, p, offer, loudness)
            } else {
                next_leg(clients, request, p)
            }
        },
        None => next_leg(clients, request, p),
    }
}

/// Goes on with what the current leg's answer offers, and with the loudness it gives.
fn consider(
    clients: &Clients,
    request: ResolveRequest,
    p: Progress,
    offer: Option<Candidate>,
    loudness: Option<Loudness>,
) -> (r: (Resolver, Action))
    requires
        p@.leg <= FALLBACKS,
    ensures
        r.0.request() == request,
        forall|resp: PlayerResponse|
            opt_stream(offer) == chain::offer(
                p@.main,
                p@.from_creator,
                resp,
                chain::leg_client(request.is_upload, p@.from_creator, p@.leg),
            ) && loudness == playback::track_loudness(resp) ==> turn_of(r)
                == #[trigger] chain::consider(clients@, request, p@, resp),
{
    let mut stream: Candidate = match offer {
        Some(stream) => stream,
        None => {
            return next_leg(clients, request, p);
        },
    };
    let p = match p.loudness {
        Some(_) => p,
        None => Progress { loudness, ..p },
    };
    if let Some(url) = copy_text(&stream.format.direct_url) {
        stream.url = url;
        return located(clients, request, p, stream);
    }
    match copy_text(&stream.format.cipher_string) {
        Some(cipher) => waiting(
            request,
            p,
            Phase::Decipher(stream),
            Action::Decipher { cipher },
        ),
        None => next_leg(clients, request, p),
    }
}

fn located(clients: &Clients, request: ResolveRequest, p: Progress, stream: Candidate) -> (r: (
    Resolver,
    Action,
))
    requires
        p@.leg <= FALLBACKS,
    ensures
        r.0.request() == request,
        turn_of(r) == chain::located(clients@, request, p@, stream@),
{
    if url_needs_transform(clients, stream.client.as_str(), stream.url.as_str()) {
        let url: String = stream.url.clone();
        waiting(
            request,
            p,
            Phase::Transform(Candidate { web: true, ..stream }),
            Action::TransformN { url },
        )
    } else {
        settled(clients, request, p, stream)
    }
}

fn on_transformed(clients: &Clients, request: ResolveRequest, p: Progress, stream: Candidate) -> (r:
    (Resolver, Action))
    requires
        p@.leg <= FALLBACKS,
    ensures
        r.0.request() == request,
        turn_of(r) == chain::on_transformed(clients@, request, p@, stream@),
{
    if takes_tokens(clients, key_of_leg(request.is_upload, p.leg)) {
        if let Some(visitor) = copy_text(&request.visitor) {
            return waiting(
                request,
                p,
                Phase::StreamToken(stream),
                Action::StreamToken { visitor },
            );
        }
    }
    settled(clients, request, p, stream)
}

fn settled(
    clients: &Clients,
    request: ResolveRequest,
    p: Progress,
    stream: Candidate,
) -> (r: (Resolver, Action))
    requires
        p@.leg <= FALLBACKS,
    ensures
        r.0.request() == request,
        turn_of(r) == chain::settled(clients@, request, p@, stream@),
{
    if wants_high(request.quality) && !is_high(&stream.format) && main_offers_high(&p.main) {
        let wins: bool = match &p.best {
            Some(kept) => better(&stream.format, Some(&kept.format)),
            None => better(&stream.format, None),
        };
        if wins {
            next_leg(clients, request, Progress { best: Some(stream), ..p })
        } else {
            next_leg(clients, request, p)
        }
    } else {
        waiting(request, p, Phase::ProbeCookie(stream), Action::ReadCookie)
    }
}

fn on_probe_cookie(
    clients: &Clients,
    request: ResolveRequest,
    p: Progress,
    stream: Candidate,
    cookie: Option<String>,
) -> (r: (Resolver, Action))
    requires
        on_track(p@),
    ensures
        r.0.request() == request,
        turn_of(r) == chain::on_probe_cookie(
            clients@,
            request,
            p@,
            stream@,
            text::opt_text(cookie),
        ),
{
    let headers: StringMap<String> = client_headers(
        clients,
        stream.client.as_str(),
        cookie,
        request.is_upload,
    );
    let action = Action::Probe {
        url: stream.url.clone(),
        headers: headers.copy(),
        content_length: content_length(&stream.format),
    };
    waiting(request, p, Phase::Probe { stream, headers }, action)
}

fn on_probed(
    clients: &Clients,
    request: ResolveRequest,
    p: Progress,
    stream: Candidate,
    headers: StringMap<String>,
    served: bool,
) -> (r: (Resolver, Action))
    requires
        on_track(p@),
    ensures
        r.0.request() == request,
        turn_of(r) == chain::on_probed(
            clients@,
            request,
            p@,
            stream@,
            headers.texts(),
            served,
        ),
{
    if served {
        let data = build(request.video_id.as_str(), stream, p.loudness, &p.main, headers);
        waiting(request, p, Phase::Finished, Action::Done(Ok(data)))
    } else if request.is_upload {
        if p.leg > FALLBACKS || p.upload_fallback.is_none() {
            next_leg(clients, request, Progress { upload_fallback: Some(stream), ..p })
        } else {
            next_leg(clients, request, p)
        }
    } else if stream.web {
        waiting(request, p, Phase::Heal, Action::SelfHeal)
    } else {
        next_leg(clients, request, p)
    }
}

fn on_last_cookie(
    clients: &Clients,
    request: ResolveRequest,
    p: Progress,
    stream: Candidate,
    cookie: Option<String>,
) -> (r: (Resolver, Action))
    ensures
        r.0.request() == request,
        turn_of(r) == chain::on_last_cookie(
            clients@,
            request,
            p@,
            stream@,
            text::opt_text(cookie),
        ),
{
    let headers: StringMap<String> = client_headers(
        clients,
        stream.client.as_str(),
        cookie,
        request.is_upload,
    );
    let data = build(request.video_id.as_str(), stream, p.loudness, &p.main, headers);
    waiting(request, p, Phase::Finished, Action::Done(Ok(data)))
}

fn on_extracted(
    request: ResolveRequest,
    p: Progress,
    found: Result<StreamCandidate, FallbackError>,
) -> (r: (Resolver, Action))
    ensures
        r.0.request() == request,
        turn_of(r) == chain::on_extracted(request, p@, found),
{
    match found {
        Ok(c) => {
            let headers: StringMap<String> = StringMap::new();
            assert(headers.texts() =~= Map::<Seq<char>, Seq<char>>::empty());
            let action = Action::Probe {
                url: c.url.clone(),
                headers,
                content_length: Some(c.size),
            };
            waiting(request, p, Phase::ExtractProbe(c), action)
        },
        Err(e) => {
            let reached: bool = p.reached || e.answered();
            let e = nothing_played(
                request.video_id.as_str(),
                request.logged_in,
                p.login_wanted,
                reached,
            );
            waiting(request, p, Phase::Finished, Action::Done(Err(e)))
        },
    }
}

fn on_extract_probed(
    request: ResolveRequest,
    p: Progress,
    c: StreamCandidate,
    served: bool,
) -> (r: (Resolver, Action))
    ensures
        r.0.request() == request,
        turn_of(r) == chain::on_extract_probed(request, p@, c, served),
{
    if served {
        let data = build_extracted(request.video_id.as_str(), c);
        waiting(request, p, Phase::Finished, Action::Done(Ok(data)))
    } else {
        let e = nothing_played(
            request.video_id.as_str(),
            request.logged_in,
            p.login_wanted,
            true,
        );
        waiting(request, p, Phase::Finished, Action::Done(Err(e)))
    }
}

impl Resolver {
    /// Starts the resolution of a track.
    pub fn start(request: ResolveRequest) -> (r: (Resolver, Action))
        ensures
            r.0.request() == request,
            turn_of(r) == chain::first_turn(),
    {
        let progress = Progress {
            sts: None,
            session_pot: None,
            main: None,
            from_creator: false,
            best: None,
            upload_fallback: None,
            loudness: None,
            reached: false,
            login_wanted: false,
            leg: 0,
        };
        waiting(request, progress, Phase::Timestamp, Action::SignatureTimestamp)
    }

    /// Is this an answer to the call that is awaited?
    pub fn accepts(&self, event: &Event) -> (r: bool)
        ensures
            r == chain::fits(self.phase(), *event),
    {
        match (&self.phase, event) {
            (Phase::Timestamp, Event::Timestamp(_)) => true,
            (Phase::SessionToken, Event::Token(_)) => true,
            (Phase::Main, Event::Answer(_)) => true,
            (Phase::Creator, Event::Answer(_)) => true,
            (Phase::Bar, Event::Barred(_)) => true,
            (Phase::Answer, Event::Answer(_)) => true,
            (Phase::Decipher(_), Event::Deciphered(_)) => true,
            (Phase::Transform(_), Event::Transformed(_)) => true,
            (Phase::StreamToken(_), Event::Token(_)) => true,
            (Phase::ProbeCookie(_), Event::Cookie(_)) => true,
            (Phase::Probe { .. }, Event::Probed(_)) => true,
            (Phase::Heal, Event::Healed) => true,
            (Phase::LastHeal(_), Event::Healed) => true,
            (Phase::LastCookie(_), Event::Cookie(_)) => true,
            (Phase::Extract, Event::Extracted(_)) => true,
            (Phase::ExtractProbe(_), Event::Probed(_)) => true,
            _ => false,
        }
    }

    /// Takes the answer to the call that is awaited, and says what to do next.
    pub fn advance(self, clients: &Clients, event: Event) -> (r: (Resolver, Action))
        requires
            chain::fits(self.phase(), event),
        ensures
            r.0.request() == self.request(),
            turn_of(r) == chain::turn(
                clients@,
                self.request(),
                self.progress(),
                self.phase(),
                event,
            ),
    {
        proof {
            use_type_invariant(&self);
        }
        let Resolver { request, progress: p, phase } = self;
        match (phase, event) {
            (Phase::Timestamp, Event::Timestamp(sts)) => on_timestamp(clients, request, p, sts),
            (Phase::SessionToken, Event::Token(token)) => ask_main(
                clients,
                request,
                Progress { session_pot: token, ..p },
            ),
            (Phase::Main, Event::Answer(answer)) => on_main(clients, request, p, answer),
            (Phase::Creator, Event::Answer(answer)) => on_creator(clients, request, p, answer),
            (Phase::Bar, Event::Barred(barred)) => on_bar(clients, request, p, barred),
            (Phase::Answer, Event::Answer(answer)) => on_answer(clients, request, p, answer),
            (Phase::Decipher(stream), Event::Deciphered(found)) => match found {
                Some(url) => located(clients, request, p, Candidate { url, ..stream }),
                None => next_leg(clients, request, p),
            },
            (Phase::Transform(stream), Event::Transformed(url)) => on_transformed(
                clients,
                request,
                p,
                Candidate { url, ..stream },
            ),
            (Phase::StreamToken(stream), Event::Token(token)) => match token {
                Some(token) => {
                    let url: String = append_token(stream.url.as_str(), token.as_str());
                    settled(clients, request, p, Candidate { url, ..stream })
                },
                None => settled(clients, request, p, stream),
            },
            (Phase::ProbeCookie(stream), Event::Cookie(cookie)) => on_probe_cookie(
                clients,
                request,
                p,
                stream,
                cookie,
            ),
            (Phase::Probe { stream, headers }, Event::Probed(served)) => on_probed(
                clients,
                request,
                p,
                stream,
                headers,
                served,
            ),
            (Phase::Heal, Event::Healed) => next_leg(clients, request, p),
            (Phase::LastHeal(stream), Event::Healed) => waiting(
                request,
                p,
                Phase::LastCookie(stream),
                Action::ReadCookie,
            ),
            (Phase::LastCookie(stream), Event::Cookie(cookie)) => on_last_cookie(
                clients,
                request,
                p,
                stream,
                cookie,
            ),
            (Phase::Extract, Event::Extracted(found)) => on_extracted(request, p, found),
            (Phase::ExtractProbe(c), Event::Probed(served)) => on_extract_probed(
                request,
                p,
                c,
                served,
            ),
            _ => vstd::pervasive::unreached(),
        }
    }
}

} // verus!
