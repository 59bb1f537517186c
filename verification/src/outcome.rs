//! What a resolution comes to, as a function of what the calls were answered.
//!
//! [`outcome`] says it leg by leg, without the machine's states;
//! [`resolution_comes_to_its_outcome`] shows that the machine arrives there.
use vstd::prelude::*;

use crate::chain::{self, Event, PhaseText, ProgressText, Registry, ResolveRequest, Turn};
use crate::clients::{FALLBACKS, MAIN_CLIENT};
use crate::model::{Loudness, PlayerResponse};
use crate::playback::{self, Failure, PlaybackText, StreamText};
use crate::rustypipe_fallback::{FallbackError, StreamCandidate};
use crate::stream_url;
use crate::text;

verus! {

/// What the calls of one leg are answered.
pub struct LegReplies {
    pub answer: Option<PlayerResponse>,
    pub deciphered: Option<String>,
    pub transformed: String,
    pub stream_token: Option<String>,
    pub cookie: Option<String>,
    pub served: bool,
}

/// What every call of a resolution is answered, if it is made.
pub struct Replies {
    pub sts: Option<i64>,
    pub session_token: Option<String>,
    pub main: Option<PlayerResponse>,
    pub creator: Option<PlayerResponse>,
    pub barred: bool,
    pub legs: Seq<LegReplies>,
    /// The cookie that the probe of the stream that was set aside goes by.
    pub best_cookie: Option<String>,
    /// That stream is served.
    pub best_served: bool,
    /// The cookie that an upload's refused stream is handed out with.
    pub last_cookie: Option<String>,
    pub extracted: Result<StreamCandidate, FallbackError>,
    pub extract_served: bool,
}

/// The session token that the resolution works with.
pub open spec fn session_token(clients: Registry, req: ResolveRequest, w: Replies) -> Option<
    Seq<char>,
> {
    if req.visitor is Some && chain::wants_token(clients, req) {
        text::opt_text(w.session_token)
    } else {
        None
    }
}

/// The main client's answer, where it is asked.
pub open spec fn first_answer(clients: Registry, req: ResolveRequest, w: Replies) -> Option<
    PlayerResponse,
> {
    if clients.contains_key(MAIN_CLIENT@) && !req.disabled@.contains(MAIN_CLIENT@) {
        w.main
    } else {
        None
    }
}

/// The retry as `WEB_CREATOR` was made and answered.
pub open spec fn replaced(clients: Registry, req: ResolveRequest, w: Replies) -> bool {
    chain::retried(clients, req, first_answer(clients, req, w)) && w.creator is Some
}

/// The answer that metadata is taken from.
pub open spec fn metadata(clients: Registry, req: ResolveRequest, w: Replies) -> Option<
    PlayerResponse,
> {
    if replaced(clients, req, w) {
        w.creator
    } else {
        first_answer(clients, req, w)
    }
}

/// The answer that a leg has to go by. Leg 0 goes by the main answer unless the main client is off
/// or barred for the track; the others by their client's, where it is asked.
pub open spec fn leg_answer(
    clients: Registry,
    req: ResolveRequest,
    w: Replies,
    leg: int,
) -> Option<PlayerResponse> {
    if leg == 0 {
        if !req.disabled@.contains(MAIN_CLIENT@) && !w.barred {
            metadata(clients, req, w)
        } else {
            None
        }
    } else if chain::askable(
        clients,
        req,
        session_token(clients, req, w),
        chain::leg_key(req.is_upload, leg),
    ) {
        w.legs[leg].answer
    } else {
        None
    }
}

/// The client whose answer a leg goes by.
pub open spec fn leg_client(
    clients: Registry,
    req: ResolveRequest,
    w: Replies,
    leg: int,
) -> Seq<char> {
    chain::leg_client(req.is_upload, replaced(clients, req, w), leg)
}

/// What a leg offers, its URL aside.
pub open spec fn leg_offer(
    clients: Registry,
    req: ResolveRequest,
    w: Replies,
    leg: int,
) -> Option<StreamText> {
    match leg_answer(clients, req, w, leg) {
        Some(resp) if resp.playability_status.ok => chain::offer(
            metadata(clients, req, w),
            replaced(clients, req, w),
            resp,
            leg_client(clients, req, w, leg),
        ),
        _ => None,
    }
}

/// The URL that a leg's format has, plain or deciphered.
pub open spec fn raw_url(
    clients: Registry,
    req: ResolveRequest,
    w: Replies,
    leg: int,
) -> Option<Seq<char>> {
    match leg_offer(clients, req, w, leg) {
        Some(stream) => match (stream.format.direct_url, stream.format.cipher_string) {
            (Some(url), _) => Some(url@),
            (None, Some(_)) => text::opt_text(w.legs[leg].deciphered),
            (None, None) => None,
        },
        None => None,
    }
}

/// The URL that a leg's stream is requested at: a web client's URL on the stream CDN is
/// transformed, and carries a token where the leg's own client uses them and one could be had.
pub open spec fn final_url(
    clients: Registry,
    req: ResolveRequest,
    w: Replies,
    leg: int,
    url: Seq<char>,
) -> Seq<char> {
    let key = leg_client(clients, req, w, leg);
    if !chain::needs_transform(clients, key, url) {
        url
    } else if chain::uses_tokens(clients, chain::leg_key(req.is_upload, leg)) && req.visitor is Some {
        match w.legs[leg].stream_token {
            Some(token) => stream_url::with_token(w.legs[leg].transformed@, token@),
            None => w.legs[leg].transformed@,
        }
    } else {
        w.legs[leg].transformed@
    }
}

/// The stream that a leg comes up with.
pub open spec fn leg_stream(
    clients: Registry,
    req: ResolveRequest,
    w: Replies,
    leg: int,
) -> Option<StreamText> {
    match (leg_offer(clients, req, w, leg), raw_url(clients, req, w, leg)) {
        (Some(stream), Some(url)) => Some(
            StreamText {
                url: final_url(clients, req, w, leg, url),
                web: chain::needs_transform(clients, leg_client(clients, req, w, leg), url),
                ..stream
            },
        ),
        _ => None,
    }
}

/// A leg's stream is set aside for its quality.
pub open spec fn leg_set_aside(
    clients: Registry,
    req: ResolveRequest,
    w: Replies,
    leg: int,
) -> bool {
    leg_stream(clients, req, w, leg) matches Some(stream) && chain::set_aside(
        req.quality,
        metadata(clients, req, w),
        stream.format,
    )
}

/// A leg's stream is probed.
pub open spec fn leg_probed(clients: Registry, req: ResolveRequest, w: Replies, leg: int) -> bool {
    leg_stream(clients, req, w, leg) is Some && !leg_set_aside(clients, req, w, leg)
}

/// A leg's stream is probed, and served.
pub open spec fn leg_wins(clients: Registry, req: ResolveRequest, w: Replies, leg: int) -> bool {
    leg_probed(clients, req, w, leg) && w.legs[leg].served
}

/// The best stream that the legs before `leg` set aside; the earliest of several equals.
pub open spec fn best_before(
    clients: Registry,
    req: ResolveRequest,
    w: Replies,
    leg: int,
) -> Option<StreamText>
    decreases leg,
{
    if leg <= 0 {
        None
    } else if leg_set_aside(clients, req, w, leg - 1) {
        chain::better_of(
            best_before(clients, req, w, leg - 1),
            leg_stream(clients, req, w, leg - 1)->0,
        )
    } else {
        best_before(clients, req, w, leg - 1)
    }
}

/// The first upload stream of the legs before `leg` that was probed and refused.
pub open spec fn refused_before(
    clients: Registry,
    req: ResolveRequest,
    w: Replies,
    leg: int,
) -> Option<StreamText>
    decreases leg,
{
    if leg <= 0 {
        None
    } else if refused_before(clients, req, w, leg - 1) is None && req.is_upload && leg_probed(
        clients,
        req,
        w,
        leg - 1,
    ) && !w.legs[leg - 1].served {
        leg_stream(clients, req, w, leg - 1)
    } else {
        refused_before(clients, req, w, leg - 1)
    }
}

/// The loudness known before `leg`: the main answer's, or else that of the first answer that
/// offered anything and gave one.
pub open spec fn loudness_before(
    clients: Registry,
    req: ResolveRequest,
    w: Replies,
    leg: int,
) -> Option<Loudness>
    decreases leg,
{
    if leg <= 0 {
        match metadata(clients, req, w) {
            Some(resp) => playback::track_loudness(resp),
            None => None,
        }
    } else if loudness_before(clients, req, w, leg - 1) is None && leg_offer(
        clients,
        req,
        w,
        leg - 1,
    ) is Some {
        playback::track_loudness(leg_answer(clients, req, w, leg - 1)->0)
    } else {
        loudness_before(clients, req, w, leg - 1)
    }
}

/// Something answered before `leg`.
pub open spec fn reached_before(
    clients: Registry,
    req: ResolveRequest,
    w: Replies,
    leg: int,
) -> bool {
    ||| metadata(clients, req, w) is Some
    ||| exists|l: int| 1 <= l < leg && #[trigger] leg_answer(clients, req, w, l) is Some
}

/// Some client answered before `leg`, and every answer asked for an account.
pub open spec fn login_before(
    clients: Registry,
    req: ResolveRequest,
    w: Replies,
    leg: int,
) -> bool {
    &&& reached_before(clients, req, w, leg)
    &&& metadata(clients, req, w) is Some ==> chain::asks_login(metadata(clients, req, w))
    &&& forall|l: int|
        1 <= l < leg && #[trigger] leg_answer(clients, req, w, l) is Some ==> chain::asks_login(
            leg_answer(clients, req, w, l),
        )
}

/// The playback data for a stream of the chain, with the loudness that was known before `leg`.
pub open spec fn played(
    clients: Registry,
    req: ResolveRequest,
    w: Replies,
    stream: StreamText,
    leg: int,
    cookie: Option<String>,
) -> PlaybackText {
    playback::assembled(
        req.video_id@,
        stream,
        loudness_before(clients, req, w, leg),
        metadata(clients, req, w),
        playback::header_map(
            chain::user_agent(clients, stream.client),
            text::opt_text(cookie),
            req.is_upload,
        ),
    )
}

/// The best stream that was set aside is probed in the end, and served.
pub open spec fn best_wins(clients: Registry, req: ResolveRequest, w: Replies) -> bool {
    best_before(clients, req, w, FALLBACKS + 1) is Some && w.best_served
}

/// The upload stream that is used when no probe passed: the one that was set aside or, where there is
/// none, the first refused one of the legs.
pub open spec fn demoted(clients: Registry, req: ResolveRequest, w: Replies) -> Option<
    StreamText,
> {
    if req.is_upload {
        match best_before(clients, req, w, FALLBACKS + 1) {
            Some(best) => Some(best),
            None => refused_before(clients, req, w, FALLBACKS + 1),
        }
    } else {
        None
    }
}

/// What is left when no leg wins: the best stream that was set aside, if it is served; then an
/// upload's demoted one; then, for an ordinary track, what the extractor found, if it is served.
pub open spec fn last_resort(clients: Registry, req: ResolveRequest, w: Replies) -> Result<
    PlaybackText,
    Failure,
> {
    let end = FALLBACKS + 1;
    if best_wins(clients, req, w) {
        Ok(played(clients, req, w, best_before(clients, req, w, end)->0, end, w.best_cookie))
    } else {
        match demoted(clients, req, w) {
            Some(stream) => Ok(played(clients, req, w, stream, end, w.last_cookie)),
            None => unstreamed(clients, req, w),
        }
    }
}

/// What is left when no client came up with a stream that is used.
pub open spec fn unstreamed(clients: Registry, req: ResolveRequest, w: Replies) -> Result<
    PlaybackText,
    Failure,
> {
    let end = FALLBACKS + 1;
    if req.is_upload {
        Err(Failure::UploadUnavailable(req.video_id@))
    } else {
        match w.extracted {
            Ok(c) if w.extract_served => Ok(chain::extracted_data(req.video_id@, c)),
            _ => Err(
                playback::verdict(
                    req.video_id@,
                    req.logged_in,
                    login_before(clients, req, w, end),
                    reached_before(clients, req, w, end) || (w.extracted matches Err(e)
                        ==> e.is_verdict()),
                ),
            ),
        }
    }
}

/// The first leg from `leg` on that wins is played; without one, the last resort.
pub open spec fn outcome_from(
    clients: Registry,
    req: ResolveRequest,
    w: Replies,
    leg: int,
) -> Result<PlaybackText, Failure>
    decreases FALLBACKS + 1 - leg,
{
    if leg > FALLBACKS {
        last_resort(clients, req, w)
    } else if leg_wins(clients, req, w, leg) {
        Ok(
            played(
                clients,
                req,
                w,
                leg_stream(clients, req, w, leg)->0,
                leg + 1,
                w.legs[leg].cookie,
            ),
        )
    } else {
        outcome_from(clients, req, w, leg + 1)
    }
}

/// What a resolution comes to.
pub open spec fn outcome(clients: Registry, req: ResolveRequest, w: Replies) -> Result<
    PlaybackText,
    Failure,
> {
    outcome_from(clients, req, w, 0)
}

/// The answer to the call that is awaited.
pub open spec fn reply(w: Replies, p: ProgressText, phase: PhaseText) -> Event {
    match phase {
        PhaseText::Timestamp => Event::Timestamp(w.sts),
        PhaseText::SessionToken => Event::Token(w.session_token),
        PhaseText::Main => Event::Answer(w.main),
        PhaseText::Creator => Event::Answer(w.creator),
        PhaseText::Bar => Event::Barred(w.barred),
        PhaseText::Answer => Event::Answer(w.legs[p.leg].answer),
        PhaseText::Decipher(_) => Event::Deciphered(w.legs[p.leg].deciphered),
        PhaseText::Transform(_) => Event::Transformed(w.legs[p.leg].transformed),
        PhaseText::StreamToken(_) => Event::Token(w.legs[p.leg].stream_token),
        PhaseText::ProbeCookie(_) => Event::Cookie(
            if p.leg <= FALLBACKS {
                w.legs[p.leg].cookie
            } else {
                w.best_cookie
            },
        ),
        PhaseText::Probe { .. } => Event::Probed(
            if p.leg <= FALLBACKS {
                w.legs[p.leg].served
            } else {
                w.best_served
            },
        ),
        PhaseText::Heal => Event::Healed,
        PhaseText::LastHeal(_) => Event::Healed,
        PhaseText::LastCookie(_) => Event::Cookie(w.last_cookie),
        PhaseText::Extract => Event::Extracted(w.extracted),
        PhaseText::ExtractProbe(_) => Event::Probed(w.extract_served),
        PhaseText::Finished => Event::Healed,
    }
}

/// The turn after `t`.
pub open spec fn after(clients: Registry, req: ResolveRequest, w: Replies, t: Turn) -> Turn {
    chain::turn(clients, req, t.progress, t.phase, reply(w, t.progress, t.phase))
}

/// The result that the machine arrives at from a turn within `calls` calls, if it does.
pub open spec fn run(
    clients: Registry,
    req: ResolveRequest,
    w: Replies,
    t: Turn,
    calls: nat,
) -> Option<Result<PlaybackText, Failure>>
    decreases calls,
{
    match t.action {
        chain::ActionText::Done(result) => Some(result),
        _ => if calls == 0 {
            None
        } else {
            run(clients, req, w, after(clients, req, w, t), (calls - 1) as nat)
        },
    }
}

/// The turn that a resolution reaches with its first `n` calls answered; the last one stays.
pub open spec fn nth_turn(clients: Registry, req: ResolveRequest, w: Replies, n: nat) -> Turn
    decreases n,
{
    if n == 0 {
        chain::first_turn()
    } else {
        let t = nth_turn(clients, req, w, (n - 1) as nat);
        if t.action is Done {
            t
        } else {
            after(clients, req, w, t)
        }
    }
}

/// More calls than needed change nothing.
proof fn run_is_stable(
    clients: Registry,
    req: ResolveRequest,
    w: Replies,
    t: Turn,
    few: nat,
    many: nat,
)
    requires
        few <= many,
        run(clients, req, w, t, few) is Some,
    ensures
        run(clients, req, w, t, many) == run(clients, req, w, t, few),
    decreases few,
{
    if !(t.action is Done) {
        run_is_stable(
            clients,
            req,
            w,
            after(clients, req, w, t),
            (few - 1) as nat,
            (many - 1) as nat,
        );
    }
}

/// The turns that a resolution reaches end where its run from any of them does.
proof fn run_is_reached(
    clients: Registry,
    req: ResolveRequest,
    w: Replies,
    n: nat,
    calls: nat,
    result: Result<PlaybackText, Failure>,
)
    requires
        run(clients, req, w, nth_turn(clients, req, w, n), calls) == Some(result),
    ensures
        nth_turn(clients, req, w, n + calls).action == chain::ActionText::Done(result),
    decreases calls,
{
    if calls > 0 {
        let t = nth_turn(clients, req, w, n);
        let next = nth_turn(clients, req, w, n + 1);
        assert(run(clients, req, w, next, (calls - 1) as nat) == Some(result));
        run_is_reached(clients, req, w, n + 1, (calls - 1) as nat, result);
    }
}

/// What is known when the chain arrives at `leg`.
spec fn tally(clients: Registry, req: ResolveRequest, w: Replies, leg: int) -> ProgressText {
    ProgressText {
        sts: w.sts,
        session_pot: session_token(clients, req, w),
        main: metadata(clients, req, w),
        from_creator: replaced(clients, req, w),
        best: best_before(clients, req, w, leg),
        upload_fallback: refused_before(clients, req, w, leg),
        loudness: loudness_before(clients, req, w, leg),
        reached: reached_before(clients, req, w, leg),
        login_wanted: login_before(clients, req, w, leg),
        leg,
    }
}

/// The most calls that one leg makes.
pub const LEG_CALLS: usize = 7;

/// The most calls that a resolution makes.
pub const MOST_CALLS: usize = 30;

spec fn budget(leg: int) -> nat {
    (LEG_CALLS * (FALLBACKS + 1 - leg) + 5) as nat
}

/// Behind the stream that was set aside, the chain comes to what is left.
proof fn behind_the_best(
    clients: Registry,
    req: ResolveRequest,
    w: Replies,
    p: ProgressText,
    calls: nat,
)
    requires
        p == (ProgressText {
            best: None,
            upload_fallback: demoted(clients, req, w),
            leg: p.leg,
            ..tally(clients, req, w, FALLBACKS + 1)
        }),
        p.leg > FALLBACKS,
        !best_wins(clients, req, w),
        calls >= 2,
    ensures
        run(clients, req, w, chain::seek(clients, req, p), calls) == Some(
            last_resort(clients, req, w),
        ),
{
    let t = chain::seek(clients, req, p);
    let t1 = after(clients, req, w, t);
    let t2 = after(clients, req, w, t1);
    reveal_with_fuel(run, 3);
}

/// The chain comes to what the last resort says once its legs are used up.
proof fn end_of_chain(clients: Registry, req: ResolveRequest, w: Replies)
    ensures
        run(
            clients,
            req,
            w,
            chain::seek(clients, req, tally(clients, req, w, FALLBACKS + 1)),
            5,
        ) == Some(last_resort(clients, req, w)),
{
    let p = tally(clients, req, w, FALLBACKS + 1);
    let t = chain::seek(clients, req, p);
    match p.best {
        Some(best) => {
            let t1 = after(clients, req, w, t);
            let t2 = after(clients, req, w, t1);
            assert(run(clients, req, w, t, 5) == run(clients, req, w, t1, 4));
            assert(run(clients, req, w, t1, 4) == run(clients, req, w, t2, 3));
            if w.best_served {
                assert(t2.action is Done);
            } else {
                let rest = ProgressText {
                    best: None,
                    upload_fallback: demoted(clients, req, w),
                    leg: FALLBACKS + 2,
                    ..p
                };
                let next = chain::seek(clients, req, rest);
                if !req.is_upload && best.web {
                    let t3 = after(clients, req, w, t2);
                    assert(run(clients, req, w, t2, 3) == run(clients, req, w, t3, 2));
                    refused_is_an_uploads(clients, req, w, FALLBACKS + 1);
                    assert(t3 == next);
                    behind_the_best(clients, req, w, rest, 2);
                } else {
                    refused_is_an_uploads(clients, req, w, FALLBACKS + 1);
                    assert(t2 == next);
                    behind_the_best(clients, req, w, rest, 3);
                }
            }
        },
        None => {
            refused_is_an_uploads(clients, req, w, FALLBACKS + 1);
            behind_the_best(clients, req, w, p, 5);
        },
    }
}

/// Only an upload has refused streams.
proof fn refused_is_an_uploads(clients: Registry, req: ResolveRequest, w: Replies, leg: int)
    ensures
        refused_before(clients, req, w, leg) is Some ==> req.is_upload,
    decreases leg,
{
    if leg > 0 {
        refused_is_an_uploads(clients, req, w, leg - 1);
    }
}

/// Leaving a leg that does not win brings the next one's tally.
proof fn tally_grows(clients: Registry, req: ResolveRequest, w: Replies, leg: int)
    requires
        0 <= leg <= FALLBACKS,
    ensures
        reached_before(clients, req, w, leg + 1) == (reached_before(clients, req, w, leg) || (leg
            >= 1 && leg_answer(clients, req, w, leg) is Some)),
        login_before(clients, req, w, leg + 1) == (if leg >= 1 && leg_answer(
            clients,
            req,
            w,
            leg,
        ) is Some {
            chain::asks_login(leg_answer(clients, req, w, leg)) && (reached_before(
                clients,
                req,
                w,
                leg,
            ) ==> login_before(clients, req, w, leg))
        } else {
            login_before(clients, req, w, leg)
        }),
{
    if leg >= 1 && leg_answer(clients, req, w, leg) is Some {
        assert(1 <= leg < leg + 1 && leg_answer(clients, req, w, leg) is Some);
    }
    if login_before(clients, req, w, leg + 1) && reached_before(clients, req, w, leg) {
        assert(login_before(clients, req, w, leg));
    }
}

/// From a turn at which a leg's URL is final, the chain goes on as the leg's stream says.
proof fn from_settled(
    clients: Registry,
    req: ResolveRequest,
    w: Replies,
    leg: int,
    p: ProgressText,
    calls: nat,
)
    requires
        0 <= leg <= FALLBACKS,
        leg_stream(clients, req, w, leg) is Some,
        p == (ProgressText {
            best: best_before(clients, req, w, leg),
            upload_fallback: refused_before(clients, req, w, leg),
            leg,
            ..tally(clients, req, w, leg + 1)
        }),
        calls >= budget(leg + 1) + 3,
        run(
            clients,
            req,
            w,
            chain::seek(clients, req, tally(clients, req, w, leg + 1)),
            budget(leg + 1),
        ) == Some(outcome_from(clients, req, w, leg + 1)),
    ensures
        run(
            clients,
            req,
            w,
            chain::settled(clients, req, p, leg_stream(clients, req, w, leg)->0),
            calls,
        ) == Some(outcome_from(clients, req, w, leg)),
{
    let t = chain::settled(clients, req, p, leg_stream(clients, req, w, leg)->0);
    let next = chain::seek(clients, req, tally(clients, req, w, leg + 1));
    let n = budget(leg + 1);
    if leg_set_aside(clients, req, w, leg) {
        assert(t == next);
        run_is_stable(clients, req, w, next, n, calls);
    } else {
        let t1 = after(clients, req, w, t);
        let t2 = after(clients, req, w, t1);
        assert(run(clients, req, w, t, calls) == run(clients, req, w, t1, (calls - 1) as nat));
        assert(run(clients, req, w, t1, (calls - 1) as nat) == run(
            clients,
            req,
            w,
            t2,
            (calls - 2) as nat,
        ));
        if leg_wins(clients, req, w, leg) {
            assert(t2.action is Done);
        } else if req.is_upload {
            assert(t2 == next);
            run_is_stable(clients, req, w, next, n, (calls - 2) as nat);
        } else if leg_stream(clients, req, w, leg)->0.web {
            let t3 = after(clients, req, w, t2);
            assert(t3 == next);
            assert(run(clients, req, w, t2, (calls - 2) as nat) == run(
                clients,
                req,
                w,
                t3,
                (calls - 3) as nat,
            ));
            run_is_stable(clients, req, w, next, n, (calls - 3) as nat);
        } else {
            assert(t2 == next);
            run_is_stable(clients, req, w, next, n, (calls - 2) as nat);
        }
    }
}

/// From a turn at which a leg's URL is known, the chain goes on as the leg's stream says.
proof fn from_located(
    clients: Registry,
    req: ResolveRequest,
    w: Replies,
    leg: int,
    p: ProgressText,
    calls: nat,
)
    requires
        0 <= leg <= FALLBACKS,
        raw_url(clients, req, w, leg) is Some,
        p == (ProgressText {
            best: best_before(clients, req, w, leg),
            upload_fallback: refused_before(clients, req, w, leg),
            leg,
            ..tally(clients, req, w, leg + 1)
        }),
        calls >= budget(leg + 1) + 5,
        run(
            clients,
            req,
            w,
            chain::seek(clients, req, tally(clients, req, w, leg + 1)),
            budget(leg + 1),
        ) == Some(outcome_from(clients, req, w, leg + 1)),
    ensures
        run(
            clients,
            req,
            w,
            chain::located(
                clients,
                req,
                p,
                chain::at_url(
                    leg_offer(clients, req, w, leg)->0,
                    raw_url(clients, req, w, leg)->0,
                ),
            ),
            calls,
        ) == Some(outcome_from(clients, req, w, leg)),
{
    let stream = chain::at_url(
        leg_offer(clients, req, w, leg)->0,
        raw_url(clients, req, w, leg)->0,
    );
    let t = chain::located(clients, req, p, stream);
    let key = leg_client(clients, req, w, leg);
    let last = leg_stream(clients, req, w, leg)->0;
    if !chain::needs_transform(clients, key, stream.url) {
        assert(last == stream);
        from_settled(clients, req, w, leg, p, calls);
    } else {
        let t1 = after(clients, req, w, t);
        assert(run(clients, req, w, t, calls) == run(clients, req, w, t1, (calls - 1) as nat));
        let moved = StreamText { url: w.legs[leg].transformed@, web: true, ..stream };
        if chain::uses_tokens(clients, chain::leg_key(req.is_upload, leg)) && req.visitor is Some {
            let t2 = after(clients, req, w, t1);
            assert(run(clients, req, w, t1, (calls - 1) as nat) == run(
                clients,
                req,
                w,
                t2,
                (calls - 2) as nat,
            ));
            assert(t2 == chain::settled(clients, req, p, last));
            from_settled(clients, req, w, leg, p, (calls - 2) as nat);
        } else {
            assert(last == moved);
            from_settled(clients, req, w, leg, p, (calls - 1) as nat);
        }
    }
}

/// From a turn at which a leg's answer is looked at, the chain goes on as that answer says.
proof fn from_considered(
    clients: Registry,
    req: ResolveRequest,
    w: Replies,
    leg: int,
    p: ProgressText,
    resp: PlayerResponse,
    calls: nat,
)
    requires
        0 <= leg <= FALLBACKS,
        leg_answer(clients, req, w, leg) == Some(resp),
        resp.playability_status.ok,
        p == (ProgressText {
            reached: reached_before(clients, req, w, leg + 1),
            login_wanted: login_before(clients, req, w, leg + 1),
            ..tally(clients, req, w, leg)
        }),
        calls >= budget(leg + 1) + 6,
        run(
            clients,
            req,
            w,
            chain::seek(clients, req, tally(clients, req, w, leg + 1)),
            budget(leg + 1),
        ) == Some(outcome_from(clients, req, w, leg + 1)),
    ensures
        run(clients, req, w, chain::consider(clients, req, p, resp), calls) == Some(
            outcome_from(clients, req, w, leg),
        ),
{
    let t = chain::consider(clients, req, p, resp);
    let next = chain::seek(clients, req, tally(clients, req, w, leg + 1));
    let n = budget(leg + 1);
    match leg_offer(clients, req, w, leg) {
        Some(stream) => {
            let louder = ProgressText { loudness: loudness_before(clients, req, w, leg + 1), ..p };
            match (stream.format.direct_url, stream.format.cipher_string) {
                (Some(url), _) => {
                    from_located(clients, req, w, leg, louder, calls);
                },
                (None, Some(cipher)) => {
                    let t1 = after(clients, req, w, t);
                    assert(run(clients, req, w, t, calls) == run(
                        clients,
                        req,
                        w,
                        t1,
                        (calls - 1) as nat,
                    ));
                    match w.legs[leg].deciphered {
                        Some(url) => {
                            from_located(clients, req, w, leg, louder, (calls - 1) as nat);
                        },
                        None => {
                            assert(t1 == next);
                            run_is_stable(clients, req, w, next, n, (calls - 1) as nat);
                        },
                    }
                },
                (None, None) => {
                    assert(t == next);
                    run_is_stable(clients, req, w, next, n, calls);
                },
            }
        },
        None => {
            assert(t == next);
            run_is_stable(clients, req, w, next, n, calls);
        },
    }
}

/// From any leg on, the chain comes to its outcome.
proof fn from_leg(clients: Registry, req: ResolveRequest, w: Replies, leg: int)
    requires
        0 <= leg <= FALLBACKS + 1,
    ensures
        run(
            clients,
            req,
            w,
            chain::seek(clients, req, tally(clients, req, w, leg)),
            budget(leg),
        ) == Some(outcome_from(clients, req, w, leg)),
    decreases FALLBACKS + 1 - leg,
{
    if leg == FALLBACKS + 1 {
        end_of_chain(clients, req, w);
    } else {
        from_leg(clients, req, w, leg + 1);
        tally_grows(clients, req, w, leg);
        let p = tally(clients, req, w, leg);
        let t = chain::seek(clients, req, p);
        let next = chain::seek(clients, req, tally(clients, req, w, leg + 1));
        let n = budget(leg + 1);
        let calls = budget(leg);
        assert(calls == n + 7);
        let key = chain::leg_key(req.is_upload, leg);
        let grown = ProgressText {
            reached: reached_before(clients, req, w, leg + 1),
            login_wanted: login_before(clients, req, w, leg + 1),
            ..p
        };
        if leg == 0 {
            if chain::is_ok(p.main) && !req.disabled@.contains(MAIN_CLIENT@) {
                let t1 = after(clients, req, w, t);
                assert(run(clients, req, w, t, calls) == run(
                    clients,
                    req,
                    w,
                    t1,
                    (calls - 1) as nat,
                ));
                if w.barred {
                    assert(t1 == next);
                    run_is_stable(clients, req, w, next, n, (calls - 1) as nat);
                } else {
                    assert(grown == p);
                    from_considered(clients, req, w, leg, p, p.main->0, (calls - 1) as nat);
                }
            } else {
                assert(t == next);
                run_is_stable(clients, req, w, next, n, calls);
            }
        } else if chain::askable(clients, req, p.session_pot, key) {
            let t1 = after(clients, req, w, t);
            assert(run(clients, req, w, t, calls) == run(clients, req, w, t1, (calls - 1) as nat));
            match w.legs[leg].answer {
                Some(resp) if resp.playability_status.ok => {
                    from_considered(clients, req, w, leg, grown, resp, (calls - 1) as nat);
                },
                _ => {
                    assert(t1 == next);
                    run_is_stable(clients, req, w, next, n, (calls - 1) as nat);
                },
            }
        } else {
            assert(t == next);
            run_is_stable(clients, req, w, next, n, calls);
        }
    }
}

/// However its calls are answered, a resolution makes at most [`MOST_CALLS`] of them and then comes
/// to its outcome.
pub proof fn resolution_comes_to_its_outcome(clients: Registry, req: ResolveRequest, w: Replies)
    ensures
        run(clients, req, w, chain::first_turn(), MOST_CALLS as nat) == Some(
            outcome(clients, req, w),
        ),
        nth_turn(clients, req, w, MOST_CALLS as nat).action == chain::ActionText::Done(
            outcome(clients, req, w),
        ),
{
    let start = chain::seek(clients, req, tally(clients, req, w, 0));
    from_leg(clients, req, w, 0);
    let n = budget(0);
    let calls = MOST_CALLS as nat;
    assert(calls == n + 4);
    let t0 = chain::first_turn();
    let t1 = after(clients, req, w, t0);
    assert(run(clients, req, w, t0, calls) == run(clients, req, w, t1, (calls - 1) as nat));
    let minted = req.visitor is Some && chain::wants_token(clients, req);
    let ready = ProgressText {
        sts: w.sts,
        session_pot: session_token(clients, req, w),
        ..chain::blank()
    };
    let ask = chain::ask_main(clients, req, ready);
    let left = if minted {
        (calls - 2) as nat
    } else {
        (calls - 1) as nat
    };
    if minted {
        assert(after(clients, req, w, t1) == ask);
    } else {
        assert(t1 == ask);
    }
    assert(run(clients, req, w, t0, calls) == run(clients, req, w, ask, left));
    if clients.contains_key(MAIN_CLIENT@) && !req.disabled@.contains(MAIN_CLIENT@) {
        let t2 = after(clients, req, w, ask);
        assert(run(clients, req, w, ask, left) == run(clients, req, w, t2, (left - 1) as nat));
        if chain::retried(clients, req, w.main) {
            let t3 = after(clients, req, w, t2);
            assert(run(clients, req, w, t2, (left - 1) as nat) == run(
                clients,
                req,
                w,
                t3,
                (left - 2) as nat,
            ));
            assert(t3 == start);
            run_is_stable(clients, req, w, start, n, (left - 2) as nat);
        } else {
            assert(t2 == start);
            run_is_stable(clients, req, w, start, n, (left - 1) as nat);
        }
    } else {
        assert(ask == start);
        run_is_stable(clients, req, w, start, n, left);
    }
    run_is_reached(clients, req, w, 0, calls, outcome(clients, req, w));
}

} // verus!
