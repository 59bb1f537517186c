//! What holds of every resolution, however its calls are answered.
use vstd::prelude::*;

use crate::chain::{self, Event, PhaseText, ProgressText, Registry, ResolveRequest};
use crate::clients::{self, FALLBACKS, MAIN_CLIENT};
use crate::failures::{self, HealGate, HEAL_COOLDOWN, WEB_REMIX_BLACKLIST_TTL};
use crate::model::{Format, PlayerResponse};
use crate::outcome::{self, Replies};
use crate::playback::{self, Failure, PingText, PlaybackText, StreamText};
use crate::stream_url;
use crate::text;

verus! {

/// The first leg that wins is played, with the headers its probe carried.
pub proof fn first_winner_is_played(clients: Registry, req: ResolveRequest, w: Replies, leg: int)
    requires
        0 <= leg <= FALLBACKS,
        outcome::leg_wins(clients, req, w, leg),
        forall|l: int| 0 <= l < leg ==> !#[trigger] outcome::leg_wins(clients, req, w, l),
    ensures
        outcome::outcome(clients, req, w) == Ok::<PlaybackText, Failure>(
            outcome::played(
                clients,
                req,
                w,
                outcome::leg_stream(clients, req, w, leg)->0,
                leg + 1,
                w.legs[leg].cookie,
            ),
        ),
{
    skip_losers(clients, req, w, 0, leg);
}

/// Without a leg that wins, a resolution comes to its last resort.
pub proof fn no_winner_leaves_the_last_resort(clients: Registry, req: ResolveRequest, w: Replies)
    requires
        forall|l: int|
            0 <= l <= FALLBACKS ==> !#[trigger] outcome::leg_wins(clients, req, w, l),
    ensures
        outcome::outcome(clients, req, w) == outcome::last_resort(clients, req, w),
{
    skip_losers(clients, req, w, 0, FALLBACKS + 1);
}

proof fn skip_losers(clients: Registry, req: ResolveRequest, w: Replies, from: int, to: int)
    requires
        0 <= from <= to <= FALLBACKS + 1,
        forall|l: int| from <= l < to ==> !#[trigger] outcome::leg_wins(clients, req, w, l),
    ensures
        outcome::outcome_from(clients, req, w, from) == outcome::outcome_from(
            clients,
            req,
            w,
            to,
        ),
    decreases to - from,
{
    if from < to {
        assert(!outcome::leg_wins(clients, req, w, from));
        skip_losers(clients, req, w, from + 1, to);
    }
}

/// The leg at which a resolution ends: the first that wins, or the one behind the chain.
spec fn winner(clients: Registry, req: ResolveRequest, w: Replies, leg: int) -> int
    decreases FALLBACKS + 1 - leg,
{
    if leg > FALLBACKS || outcome::leg_wins(clients, req, w, leg) {
        leg
    } else {
        winner(clients, req, w, leg + 1)
    }
}

proof fn winner_is_first(clients: Registry, req: ResolveRequest, w: Replies, leg: int)
    requires
        0 <= leg <= FALLBACKS + 1,
    ensures
        leg <= winner(clients, req, w, leg) <= FALLBACKS + 1,
        winner(clients, req, w, leg) <= FALLBACKS ==> outcome::leg_wins(
            clients,
            req,
            w,
            winner(clients, req, w, leg),
        ),
        forall|l: int|
            leg <= l < winner(clients, req, w, leg) ==> !#[trigger] outcome::leg_wins(
                clients,
                req,
                w,
                l,
            ),
    decreases FALLBACKS + 1 - leg,
{
    if !(leg > FALLBACKS || outcome::leg_wins(clients, req, w, leg)) {
        winner_is_first(clients, req, w, leg + 1);
    }
}

/// Playback data that was put together from this leg's stream.
pub open spec fn plays_leg(
    clients: Registry,
    req: ResolveRequest,
    w: Replies,
    d: PlaybackText,
    leg: int,
) -> bool {
    &&& 0 <= leg <= FALLBACKS
    &&& outcome::leg_stream(clients, req, w, leg) matches Some(stream)
    &&& exists|upto: int, cookie: Option<String>|
        d == #[trigger] outcome::played(clients, req, w, stream, upto, cookie)
}

/// Playback data that the extractor of last resort supplied.
pub open spec fn plays_extracted(req: ResolveRequest, w: Replies, d: PlaybackText) -> bool {
    &&& !req.is_upload
    &&& w.extract_served
    &&& w.extracted matches Ok(c) && d == chain::extracted_data(req.video_id@, c)
}

/// The best stream that was set aside is one that a leg came up with, and none that was set aside
/// stands above it.
pub proof fn best_is_the_best(clients: Registry, req: ResolveRequest, w: Replies, leg: int)
    requires
        0 <= leg,
    ensures
        match outcome::best_before(clients, req, w, leg) {
            Some(best) => {
                &&& exists|l: int|
                    0 <= l < leg && outcome::leg_set_aside(clients, req, w, l)
                        && #[trigger] outcome::leg_stream(clients, req, w, l) == Some(best)
                &&& forall|l: int|
                    0 <= l < leg && #[trigger] outcome::leg_set_aside(clients, req, w, l)
                        ==> !playback::above(
                        playback::standing(
                            outcome::leg_stream(clients, req, w, l)->0.format,
                        ),
                        playback::standing(best.format),
                    )
            },
            None => forall|l: int|
                0 <= l < leg ==> !#[trigger] outcome::leg_set_aside(clients, req, w, l),
        },
    decreases leg,
{
    if leg > 0 {
        best_is_the_best(clients, req, w, leg - 1);
        let old_best = outcome::best_before(clients, req, w, leg - 1);
        if outcome::leg_set_aside(clients, req, w, leg - 1) {
            let new = outcome::leg_stream(clients, req, w, leg - 1)->0;
            assert(outcome::leg_stream(clients, req, w, leg - 1) == Some(new));
            if let Some(old) = old_best {
                let l = choose|l: int|
                    0 <= l < leg - 1 && outcome::leg_set_aside(clients, req, w, l)
                        && #[trigger] outcome::leg_stream(clients, req, w, l) == Some(old);
                assert(0 <= l < leg);
            }
        } else if let Some(old) = old_best {
            let l = choose|l: int|
                0 <= l < leg - 1 && outcome::leg_set_aside(clients, req, w, l)
                    && #[trigger] outcome::leg_stream(clients, req, w, l) == Some(old);
            assert(0 <= l < leg);
        }
    }
}

/// A refused upload stream is one that a leg came up with; there is one as soon as some leg's probe
/// of an upload failed.
proof fn refused_is_a_leg(clients: Registry, req: ResolveRequest, w: Replies, leg: int)
    requires
        0 <= leg,
    ensures
        match outcome::refused_before(clients, req, w, leg) {
            Some(first) => req.is_upload && exists|l: int|
                0 <= l < leg && outcome::leg_probed(clients, req, w, l)
                    && #[trigger] outcome::leg_stream(clients, req, w, l) == Some(first),
            None => req.is_upload ==> forall|l: int|
                0 <= l < leg && #[trigger] outcome::leg_probed(clients, req, w, l)
                    ==> w.legs[l].served,
        },
    decreases leg,
{
    if leg > 0 {
        refused_is_a_leg(clients, req, w, leg - 1);
        match outcome::refused_before(clients, req, w, leg - 1) {
            Some(old) => {
                let l = choose|l: int|
                    0 <= l < leg - 1 && outcome::leg_probed(clients, req, w, l)
                        && #[trigger] outcome::leg_stream(clients, req, w, l) == Some(old);
                assert(0 <= l < leg);
            },
            None => {
                assert(outcome::leg_stream(clients, req, w, leg - 1)
                    == outcome::leg_stream(clients, req, w, leg - 1));
            },
        }
    }
}

/// Whatever is played came from a leg of the chain or, for an ordinary track, from the extractor's
/// served URL. An upload never leaves the clients of its own chain.
pub proof fn played_streams_have_a_source(
    clients: Registry,
    req: ResolveRequest,
    w: Replies,
    d: PlaybackText,
)
    requires
        outcome::outcome(clients, req, w) == Ok::<PlaybackText, Failure>(d),
    ensures
        plays_extracted(req, w, d) || exists|leg: int| plays_leg(clients, req, w, d, leg),
        req.is_upload ==> exists|leg: int| plays_leg(clients, req, w, d, leg),
{
    winner_is_first(clients, req, w, 0);
    let leg = winner(clients, req, w, 0);
    if leg <= FALLBACKS {
        first_winner_is_played(clients, req, w, leg);
        assert(plays_leg(clients, req, w, d, leg));
    } else {
        no_winner_leaves_the_last_resort(clients, req, w);
        let end = FALLBACKS + 1;
        best_is_the_best(clients, req, w, end);
        refused_is_a_leg(clients, req, w, end);
        if outcome::best_wins(clients, req, w) {
            let best = outcome::best_before(clients, req, w, end)->0;
            let l = choose|l: int|
                0 <= l < end && outcome::leg_set_aside(clients, req, w, l)
                    && #[trigger] outcome::leg_stream(clients, req, w, l) == Some(best);
            assert(d == outcome::played(clients, req, w, best, end, w.best_cookie));
            assert(plays_leg(clients, req, w, d, l));
        } else if let Some(stream) = outcome::demoted(clients, req, w) {
            let l = choose|l: int|
                0 <= l < end && #[trigger] outcome::leg_stream(clients, req, w, l) == Some(stream);
            assert(0 <= l < end && outcome::leg_stream(clients, req, w, l) == Some(stream));
            assert(d == outcome::played(clients, req, w, stream, end, w.last_cookie));
            assert(plays_leg(clients, req, w, d, l));
        }
    }
}

/// The metadata of a stream of the chain is the main answer's, whichever client the stream came
/// from.
pub proof fn metadata_comes_from_the_main_answer(
    clients: Registry,
    req: ResolveRequest,
    w: Replies,
    d: PlaybackText,
    main: PlayerResponse,
)
    requires
        outcome::outcome(clients, req, w) == Ok::<PlaybackText, Failure>(d),
        !plays_extracted(req, w, d),
        outcome::metadata(clients, req, w) == Some(main),
    ensures
        d.thumbnail == playback::largest_thumbnail(main),
        match main.video_details {
            Some(v) => {
                &&& d.title == text::opt_text(v.title)
                &&& d.artists == text::opt_text(v.author)
                &&& d.duration == text::opt_text(v.length_seconds)
                &&& d.is_video == v.is_music_video
            },
            None => {
                &&& d.title is None
                &&& d.artists is None
                &&& d.duration is None
                &&& d.is_video is None
            },
        },
{
    played_streams_have_a_source(clients, req, w, d);
    let leg = choose|leg: int| plays_leg(clients, req, w, d, leg);
}

/// A stream goes by the name of the client whose answer it came from; the extractor's by its own.
pub proof fn a_stream_names_its_client(
    clients: Registry,
    req: ResolveRequest,
    w: Replies,
    d: PlaybackText,
)
    requires
        outcome::outcome(clients, req, w) == Ok::<PlaybackText, Failure>(d),
    ensures
        (plays_extracted(req, w, d) && d.stream_client == "rustypipe"@) || exists|leg: int|
            plays_leg(clients, req, w, d, leg) && d.stream_client == outcome::leg_client(
                clients,
                req,
                w,
                leg,
            ),
{
    played_streams_have_a_source(clients, req, w, d);
    if !plays_extracted(req, w, d) {
        let leg = choose|leg: int| plays_leg(clients, req, w, d, leg);
        assert(d.stream_client == outcome::leg_client(clients, req, w, leg));
    }
}

/// A client that the user switched off never plays. Left out is the retry of a gated track, which is
/// made as `WEB_CREATOR` even where that one is switched off.
pub proof fn switched_off_clients_do_not_play(
    clients: Registry,
    req: ResolveRequest,
    w: Replies,
    d: PlaybackText,
)
    requires
        outcome::outcome(clients, req, w) == Ok::<PlaybackText, Failure>(d),
        !plays_extracted(req, w, d),
        outcome::replaced(clients, req, w) ==> !req.disabled@.contains("WEB_CREATOR"@),
    ensures
        !req.disabled@.contains(d.stream_client),
{
    played_streams_have_a_source(clients, req, w, d);
    let leg = choose|leg: int| plays_leg(clients, req, w, d, leg);
    assert(d.stream_client == outcome::leg_client(clients, req, w, leg));
}

/// No fallback client is the main client.
proof fn fallbacks_are_not_main(is_upload: bool, leg: int)
    requires
        1 <= leg <= FALLBACKS,
    ensures
        chain::leg_key(is_upload, leg) != MAIN_CLIENT@,
{
    reveal_strlit("WEB_REMIX");
    reveal_strlit("VISIONOS");
    reveal_strlit("TVHTML5_SIMPLY");
    reveal_strlit("TVHTML5");
    reveal_strlit("WEB_CREATOR");
    let key = chain::leg_key(is_upload, leg);
    assert(key == "VISIONOS"@ || key == "TVHTML5_SIMPLY"@ || key == "TVHTML5"@ || key
        == "WEB_CREATOR"@);
    assert("WEB_CREATOR"@.len() != "WEB_REMIX"@.len());
}

/// While the main client is barred for a track, its stream is not played.
pub proof fn a_barred_main_client_does_not_play(
    clients: Registry,
    req: ResolveRequest,
    w: Replies,
    d: PlaybackText,
)
    requires
        w.barred,
        outcome::outcome(clients, req, w) == Ok::<PlaybackText, Failure>(d),
    ensures
        d.stream_client != MAIN_CLIENT@,
{
    played_streams_have_a_source(clients, req, w, d);
    if plays_extracted(req, w, d) {
        reveal_strlit("rustypipe");
        reveal_strlit("WEB_REMIX");
        assert("rustypipe"@[0] != "WEB_REMIX"@[0]);
    } else {
        let leg = choose|leg: int| plays_leg(clients, req, w, d, leg);
        assert(leg != 0);
        fallbacks_are_not_main(req.is_upload, leg);
    }
}

/// An upload that does not play fails as an upload, never as an outage, a missing account or a
/// track that is gone; so a mixed queue skips past it.
pub proof fn uploads_fail_as_uploads(
    clients: Registry,
    req: ResolveRequest,
    w: Replies,
    f: Failure,
)
    requires
        req.is_upload,
        outcome::outcome(clients, req, w) == Err::<PlaybackText, Failure>(f),
    ensures
        f == Failure::UploadUnavailable(req.video_id@),
        !f.systemic(),
{
    winner_is_first(clients, req, w, 0);
    let leg = winner(clients, req, w, 0);
    if leg <= FALLBACKS {
        first_winner_is_played(clients, req, w, leg);
    } else {
        no_winner_leaves_the_last_resort(clients, req, w);
    }
}

/// A failed probe demotes an upload's stream and never rejects it: as soon as one of its clients
/// comes up with a URL, the upload plays.
pub proof fn an_upload_with_a_stream_plays(
    clients: Registry,
    req: ResolveRequest,
    w: Replies,
    leg: int,
)
    requires
        req.is_upload,
        0 <= leg <= FALLBACKS,
        outcome::leg_stream(clients, req, w, leg) is Some,
    ensures
        outcome::outcome(clients, req, w) is Ok,
{
    winner_is_first(clients, req, w, 0);
    let first = winner(clients, req, w, 0);
    if first <= FALLBACKS {
        first_winner_is_played(clients, req, w, first);
    } else {
        no_winner_leaves_the_last_resort(clients, req, w);
        let end = FALLBACKS + 1;
        best_is_the_best(clients, req, w, end);
        refused_is_a_leg(clients, req, w, end);
        assert(!outcome::leg_wins(clients, req, w, leg));
        assert(outcome::leg_set_aside(clients, req, w, leg) || outcome::leg_probed(
            clients,
            req,
            w,
            leg,
        ));
    }
}

/// An upload's stream that was set aside comes before its refused ones: without a leg that wins, it
/// is what plays, whatever its own probe says.
pub proof fn an_upload_plays_its_best_other(
    clients: Registry,
    req: ResolveRequest,
    w: Replies,
    best: StreamText,
)
    requires
        req.is_upload,
        forall|l: int|
            0 <= l <= FALLBACKS ==> !#[trigger] outcome::leg_wins(clients, req, w, l),
        outcome::best_before(clients, req, w, FALLBACKS + 1) == Some(best),
    ensures
        outcome::outcome(clients, req, w) matches Ok(d) && d.stream_url == best.url
            && d.stream_client == best.client,
{
    no_winner_leaves_the_last_resort(clients, req, w);
}

/// A stream request carries the session's cookie for an upload and for nothing else.
pub proof fn only_an_upload_sends_the_cookie(
    clients: Registry,
    req: ResolveRequest,
    w: Replies,
    d: PlaybackText,
)
    requires
        !req.is_upload,
        outcome::outcome(clients, req, w) == Ok::<PlaybackText, Failure>(d),
    ensures
        !d.headers.contains_key("Cookie"@),
{
    played_streams_have_a_source(clients, req, w, d);
    reveal_strlit("Cookie");
    reveal_strlit("User-Agent");
    assert("Cookie"@[0] != "User-Agent"@[0]);
    if !plays_extracted(req, w, d) {
        let leg = choose|leg: int| plays_leg(clients, req, w, d, leg);
    }
}

/// An upload's stream request carries the session's cookie.
pub proof fn an_upload_sends_the_cookie(
    clients: Registry,
    req: ResolveRequest,
    w: Replies,
    d: PlaybackText,
)
    requires
        req.is_upload,
        outcome::outcome(clients, req, w) == Ok::<PlaybackText, Failure>(d),
        w.best_cookie is Some,
        w.last_cookie is Some,
        forall|leg: int| 0 <= leg <= FALLBACKS ==> (#[trigger] w.legs[leg]).cookie is Some,
    ensures
        d.headers.contains_key("Cookie"@),
{
    winner_is_first(clients, req, w, 0);
    let first = winner(clients, req, w, 0);
    if first <= FALLBACKS {
        first_winner_is_played(clients, req, w, first);
        assert(w.legs[first].cookie is Some);
    } else {
        no_winner_leaves_the_last_resort(clients, req, w);
    }
}

/// A ping names the client whose answer carried its URL: the main answer's, or else that of the
/// client that the stream came from.
pub proof fn a_ping_goes_with_its_client(
    clients: Registry,
    req: ResolveRequest,
    w: Replies,
    d: PlaybackText,
)
    requires
        outcome::outcome(clients, req, w) == Ok::<PlaybackText, Failure>(d),
        d.playback_ping is Some,
    ensures
        ({
            let ping = d.playback_ping->0;
            ||| {
                &&& ping.client == chain::main_key(outcome::replaced(clients, req, w))
                &&& outcome::metadata(clients, req, w) matches Some(main)
                    && playback::tracking_url(main) == Some(ping.url)
            }
            ||| {
                &&& ping.client == d.stream_client
                &&& exists|leg: int|
                    1 <= leg <= FALLBACKS && ping.client == chain::leg_key(
                        req.is_upload,
                        leg,
                    ) && (#[trigger] outcome::leg_answer(clients, req, w, leg) matches Some(
                        resp,
                    ) && playback::tracking_url(resp) == Some(ping.url))
            }
        }),
{
    played_streams_have_a_source(clients, req, w, d);
    let leg = choose|leg: int| plays_leg(clients, req, w, d, leg);
    let resp = outcome::leg_answer(clients, req, w, leg)->0;
    assert(outcome::leg_answer(clients, req, w, leg) == Some(resp));
}

/// A tracking URL of the main answer is what a stream of the chain is pinged at, whichever client
/// it came from.
pub proof fn the_main_ping_comes_first(
    clients: Registry,
    req: ResolveRequest,
    w: Replies,
    d: PlaybackText,
    main: PlayerResponse,
    url: Seq<char>,
)
    requires
        outcome::outcome(clients, req, w) == Ok::<PlaybackText, Failure>(d),
        !plays_extracted(req, w, d),
        outcome::metadata(clients, req, w) == Some(main),
        playback::tracking_url(main) == Some(url),
    ensures
        d.playback_ping == Some(
            PingText { url, client: chain::main_key(outcome::replaced(clients, req, w)) },
        ),
{
    played_streams_have_a_source(clients, req, w, d);
    let leg = choose|leg: int| plays_leg(clients, req, w, d, leg);
}

/// Nothing answered: neither the main client, nor any other of the chain, nor the extractor.
pub open spec fn silence(clients: Registry, req: ResolveRequest, w: Replies) -> bool {
    &&& outcome::metadata(clients, req, w) is None
    &&& forall|leg: int|
        1 <= leg <= FALLBACKS ==> #[trigger] outcome::leg_answer(clients, req, w, leg) is None
    &&& w.extracted matches Err(e) && !e.is_verdict()
}

/// An ordinary track is reported as an outage exactly when nothing answered.
pub proof fn an_outage_is_silence(clients: Registry, req: ResolveRequest, w: Replies)
    requires
        !req.is_upload,
    ensures
        silence(clients, req, w) <==> outcome::outcome(clients, req, w) == Err::<
            PlaybackText,
            Failure,
        >(Failure::Unreachable(req.video_id@)),
{
    winner_is_first(clients, req, w, 0);
    let first = winner(clients, req, w, 0);
    let end = FALLBACKS + 1;
    best_is_the_best(clients, req, w, end);
    refused_is_a_leg(clients, req, w, end);
    if first <= FALLBACKS {
        first_winner_is_played(clients, req, w, first);
        if first == 0 {
            assert(outcome::metadata(clients, req, w) is Some);
        } else {
            assert(outcome::leg_answer(clients, req, w, first) is Some);
        }
    } else {
        no_winner_leaves_the_last_resort(clients, req, w);
        if silence(clients, req, w) {
            if let Some(best) = outcome::best_before(clients, req, w, end) {
                let l = choose|l: int|
                    0 <= l < end && outcome::leg_set_aside(clients, req, w, l)
                        && #[trigger] outcome::leg_stream(clients, req, w, l) == Some(best);
                assert(outcome::leg_answer(clients, req, w, l) is Some);
            }
        } else if outcome::metadata(clients, req, w) is None && (w.extracted matches Err(e)
            && !e.is_verdict()) {
            let leg = choose|leg: int|
                1 <= leg <= FALLBACKS && !(#[trigger] outcome::leg_answer(
                    clients,
                    req,
                    w,
                    leg,
                ) is None);
            assert(outcome::reached_before(clients, req, w, end));
        }
    }
}

/// Signing in is asked for exactly when an ordinary track fails without a session, some client
/// answered and every answer asked for an account.
pub proof fn signing_in_is_asked_for_when_every_answer_asks(
    clients: Registry,
    req: ResolveRequest,
    w: Replies,
    f: Failure,
)
    requires
        outcome::outcome(clients, req, w) == Err::<PlaybackText, Failure>(f),
    ensures
        f == Failure::SignInRequired(req.video_id@) <==> !req.is_upload && !req.logged_in
            && outcome::login_before(clients, req, w, FALLBACKS + 1),
        f is SignInRequired ==> f == Failure::SignInRequired(req.video_id@),
{
    winner_is_first(clients, req, w, 0);
    let first = winner(clients, req, w, 0);
    if first <= FALLBACKS {
        first_winner_is_played(clients, req, w, first);
    } else {
        no_winner_leaves_the_last_resort(clients, req, w);
    }
}

/// An answer that refuses an ordinary track for another reason than a missing account keeps signing
/// in from being asked for.
pub proof fn another_refusal_is_not_about_the_account(
    clients: Registry,
    req: ResolveRequest,
    w: Replies,
    f: Failure,
    leg: int,
)
    requires
        outcome::outcome(clients, req, w) == Err::<PlaybackText, Failure>(f),
        1 <= leg <= FALLBACKS,
        outcome::leg_answer(clients, req, w, leg) is Some,
        !chain::asks_login(outcome::leg_answer(clients, req, w, leg)),
        !req.is_upload,
    ensures
        f == Failure::AllClientsFailed(req.video_id@),
{
    signing_in_is_asked_for_when_every_answer_asks(clients, req, w, f);
    winner_is_first(clients, req, w, 0);
    let first = winner(clients, req, w, 0);
    if first <= FALLBACKS {
        first_winner_is_played(clients, req, w, first);
    } else {
        no_winner_leaves_the_last_resort(clients, req, w);
        assert(outcome::reached_before(clients, req, w, FALLBACKS + 1));
    }
}

/// A failure that would hit every other track too is reported for an outage or a missing session
/// only.
pub proof fn a_refused_track_is_not_an_outage(
    clients: Registry,
    req: ResolveRequest,
    w: Replies,
    f: Failure,
)
    requires
        outcome::outcome(clients, req, w) == Err::<PlaybackText, Failure>(f),
        req.logged_in,
        !silence(clients, req, w),
    ensures
        !f.systemic(),
{
    if req.is_upload {
        uploads_fail_as_uploads(clients, req, w, f);
    } else {
        an_outage_is_silence(clients, req, w);
        winner_is_first(clients, req, w, 0);
        let first = winner(clients, req, w, 0);
        if first <= FALLBACKS {
            first_winner_is_played(clients, req, w, first);
        } else {
            no_winner_leaves_the_last_resort(clients, req, w);
        }
    }
}

/// What plays was probed and found served, and is requested with the very headers that its probe
/// carried. Left out is an upload none of whose probes passed.
pub proof fn what_plays_was_probed(
    clients: Registry,
    req: ResolveRequest,
    w: Replies,
    d: PlaybackText,
)
    requires
        outcome::outcome(clients, req, w) == Ok::<PlaybackText, Failure>(d),
        !req.is_upload || outcome::best_wins(clients, req, w) || exists|leg: int|
            0 <= leg <= FALLBACKS && #[trigger] outcome::leg_wins(clients, req, w, leg),
    ensures
        ({
            ||| plays_extracted(req, w, d)
            ||| exists|leg: int|
                0 <= leg <= FALLBACKS && #[trigger] outcome::leg_wins(clients, req, w, leg)
                    && d.stream_url == outcome::leg_stream(clients, req, w, leg)->0.url
                    && d.headers == playback::header_map(
                    chain::user_agent(clients, d.stream_client),
                    text::opt_text(w.legs[leg].cookie),
                    req.is_upload,
                )
            ||| {
                &&& outcome::best_wins(clients, req, w)
                &&& d.stream_url == outcome::best_before(clients, req, w, FALLBACKS + 1)->0.url
                &&& d.headers == playback::header_map(
                    chain::user_agent(clients, d.stream_client),
                    text::opt_text(w.best_cookie),
                    req.is_upload,
                )
            }
        }),
{
    winner_is_first(clients, req, w, 0);
    let first = winner(clients, req, w, 0);
    if first <= FALLBACKS {
        first_winner_is_played(clients, req, w, first);
        assert(outcome::leg_wins(clients, req, w, first));
    } else {
        no_winner_leaves_the_last_resort(clients, req, w);
        refused_is_a_leg(clients, req, w, FALLBACKS + 1);
    }
}

/// The headers of whatever plays can be had again from the stream's client alone, as long as the
/// session's cookie stays what it was. Left out is a registry that knows a client under the
/// extractor's name.
pub proof fn headers_follow_from_the_client(
    clients: Registry,
    req: ResolveRequest,
    w: Replies,
    d: PlaybackText,
    cookie: Option<String>,
)
    requires
        outcome::outcome(clients, req, w) == Ok::<PlaybackText, Failure>(d),
        !clients.contains_key("rustypipe"@),
        forall|leg: int| 0 <= leg <= FALLBACKS ==> (#[trigger] w.legs[leg]).cookie == cookie,
        w.best_cookie == cookie,
        w.last_cookie == cookie,
    ensures
        d.headers == playback::header_map(
            chain::user_agent(clients, d.stream_client),
            text::opt_text(cookie),
            req.is_upload,
        ),
{
    winner_is_first(clients, req, w, 0);
    let first = winner(clients, req, w, 0);
    if first <= FALLBACKS {
        first_winner_is_played(clients, req, w, first);
        assert(w.legs[first].cookie == cookie);
    } else {
        no_winner_leaves_the_last_resort(clients, req, w);
    }
}

/// A probe predicts the stream request: when it passes, what plays has the probed URL and the
/// probe's headers.
pub proof fn a_probe_predicts_the_request(
    clients: Registry,
    req: ResolveRequest,
    p: ProgressText,
    stream: StreamText,
    headers: Map<Seq<char>, Seq<char>>,
)
    ensures
        chain::turn(
            clients,
            req,
            p,
            PhaseText::Probe { stream, headers },
            Event::Probed(true),
        ).action matches chain::ActionText::Done(Ok(d)) && d.stream_url == stream.url && d.headers
            == headers,
{
}

/// A web client's refused stream sets off a self-heal, and the chain goes on as if it had not: the
/// heal has no say in what the resolution comes to.
pub proof fn a_self_heal_does_not_hold_up_the_chain(
    clients: Registry,
    req: ResolveRequest,
    p: ProgressText,
    stream: StreamText,
    headers: Map<Seq<char>, Seq<char>>,
)
    requires
        !req.is_upload,
    ensures
        ({
            let refused = |web: bool|
                chain::turn(
                    clients,
                    req,
                    p,
                    PhaseText::Probe { stream: StreamText { web, ..stream }, headers },
                    Event::Probed(false),
                );
            let healing = refused(true);
            &&& healing.action is SelfHeal
            &&& chain::turn(clients, req, healing.progress, healing.phase, Event::Healed)
                == refused(false)
        }),
{
}

/// Where the best quality is asked for and the main answer says that it exists, any leg that wins
/// makes a stream of that quality play.
pub proof fn the_best_quality_wins(clients: Registry, req: ResolveRequest, w: Replies, leg: int)
    requires
        chain::prefers_high(req.quality),
        chain::offers_high(outcome::metadata(clients, req, w)),
        0 <= leg <= FALLBACKS,
        outcome::leg_wins(clients, req, w, leg),
    ensures
        exists|first: int|
            0 <= first <= leg && #[trigger] outcome::leg_stream(clients, req, w, first) is Some
                && playback::high(outcome::leg_stream(clients, req, w, first)->0.format)
                && outcome::outcome(clients, req, w) == Ok::<PlaybackText, Failure>(
                outcome::played(
                    clients,
                    req,
                    w,
                    outcome::leg_stream(clients, req, w, first)->0,
                    first + 1,
                    w.legs[first].cookie,
                ),
            ),
{
    winner_is_first(clients, req, w, 0);
    let first = winner(clients, req, w, 0);
    assert(first <= leg);
    first_winner_is_played(clients, req, w, first);
    assert(outcome::leg_stream(clients, req, w, first) is Some);
}

/// The comparison of formats is a strict order: none is above itself, and of two at most one is
/// above the other; it is transitive; and two of which neither is above the other compare alike
/// with every third.
pub proof fn formats_are_strictly_ordered(a: Format, b: Format, c: Format)
    ensures
        !playback::above(playback::standing(a), playback::standing(a)),
        playback::above(playback::standing(a), playback::standing(b))
            ==> !playback::above(
            playback::standing(b),
            playback::standing(a),
        ),
        playback::above(playback::standing(a), playback::standing(b))
            && playback::above(playback::standing(b), playback::standing(c))
            ==> playback::above(playback::standing(a), playback::standing(c)),
        !playback::above(playback::standing(a), playback::standing(b))
            && !playback::above(playback::standing(b), playback::standing(a))
            ==> playback::standing(a) == playback::standing(b),
{
}

/// A format of the highest quality is above every other.
pub proof fn high_formats_stand_above(a: Format, b: Format)
    requires
        playback::high(a),
        !playback::high(b),
    ensures
        playback::above(playback::standing(a), playback::standing(b)),
{
}

/// A URL off the stream CDN is requested as it came: no transform, and no token handed to a
/// stranger.
pub proof fn other_hosts_get_no_token(
    clients: Registry,
    req: ResolveRequest,
    w: Replies,
    leg: int,
    url: Seq<char>,
)
    requires
        outcome::raw_url(clients, req, w, leg) == Some(url),
        !stream_url::youtube_stream(url),
    ensures
        outcome::leg_stream(clients, req, w, leg) matches Some(stream) && stream.url == url,
{
}

/// The stream of a gated track's retry is transformed and carries a token as the main client's own
/// would, though it goes by `WEB_CREATOR`'s name.
pub proof fn a_retried_stream_carries_its_token(
    clients: Registry,
    req: ResolveRequest,
    w: Replies,
    url: Seq<char>,
    token: String,
)
    requires
        outcome::replaced(clients, req, w),
        outcome::raw_url(clients, req, w, 0) == Some(url),
        stream_url::youtube_stream(url),
        chain::uses_tokens(clients, MAIN_CLIENT@),
        req.visitor is Some,
        w.legs[0].stream_token == Some(token),
    ensures
        outcome::leg_stream(clients, req, w, 0) matches Some(stream) && stream.client
            == "WEB_CREATOR"@ && stream.url == stream_url::with_token(
            w.legs[0].transformed@,
            token@,
        ),
{
    assert(chain::NEEDS_N_TRANSFORM@[2]@ == "WEB_CREATOR"@);
    assert(chain::always_transformed("WEB_CREATOR"@));
}

/// A client that needs neither token nor session plays whatever became of the tokens, the cipher
/// and the other clients: if it serves the track at a plain URL that is found served, the track
/// plays. Where that stream is set aside for its quality, the best one set aside is what has to be
/// served.
pub proof fn a_direct_client_needs_nothing(
    clients: Registry,
    req: ResolveRequest,
    w: Replies,
    leg: int,
    resp: PlayerResponse,
)
    requires
        1 <= leg <= FALLBACKS,
        ({
            let key = chain::leg_key(req.is_upload, leg);
            &&& clients.contains_key(key)
            &&& !req.disabled@.contains(key)
            &&& !clients[key].login_required
            &&& !clients[key].use_web_po_tokens
        }),
        w.legs[leg].answer == Some(resp),
        resp.playability_status.ok,
        resp.streaming_data matches Some(s) && s.expires_in_seconds is Some && (s.picked matches Some(
            format,
        ) && format.direct_url is Some),
        if outcome::leg_set_aside(clients, req, w, leg) {
            w.best_served
        } else {
            w.legs[leg].served
        },
    ensures
        outcome::leg_stream(clients, req, w, leg) is Some,
        outcome::outcome(clients, req, w) is Ok,
{
    winner_is_first(clients, req, w, 0);
    let first = winner(clients, req, w, 0);
    assert(outcome::leg_stream(clients, req, w, leg) is Some);
    if first <= FALLBACKS {
        first_winner_is_played(clients, req, w, first);
    } else {
        no_winner_leaves_the_last_resort(clients, req, w);
        best_is_the_best(clients, req, w, FALLBACKS + 1);
        assert(!outcome::leg_wins(clients, req, w, leg));
        assert(outcome::leg_set_aside(clients, req, w, leg));
    }
}

/// The session token is minted for any client that is left on and uses one: switching the main
/// client off does not switch the token off with it.
pub proof fn the_token_does_not_hang_on_the_main_client(
    clients: Registry,
    req: ResolveRequest,
    p: ProgressText,
    sts: Option<i64>,
    leg: int,
)
    requires
        0 <= leg <= FALLBACKS,
        req.visitor is Some,
        !req.disabled@.contains(chain::leg_key(req.is_upload, leg)),
        chain::uses_tokens(clients, chain::leg_key(req.is_upload, leg)),
    ensures
        chain::turn(
            clients,
            req,
            p,
            PhaseText::Timestamp,
            Event::Timestamp(sts),
        ).action is SessionToken,
{
}

/// What a turn asks for is what its phase waits for.
pub open spec fn awaits(t: chain::Turn) -> bool {
    match t.phase {
        PhaseText::Timestamp => t.action is SignatureTimestamp,
        PhaseText::SessionToken => t.action is SessionToken,
        PhaseText::Main => t.action is Player,
        PhaseText::Creator => t.action is Player,
        PhaseText::Bar => t.action is CheckBar,
        PhaseText::Answer => t.action is Player,
        PhaseText::Decipher(_) => t.action is Decipher,
        PhaseText::Transform(_) => t.action is TransformN,
        PhaseText::StreamToken(_) => t.action is StreamToken,
        PhaseText::ProbeCookie(_) => t.action is ReadCookie,
        PhaseText::Probe { stream, headers } => t.action
            == (chain::ActionText::Probe {
            url: stream.url,
            headers,
            content_length: playback::reported_length(stream.format),
        }),
        PhaseText::Heal => t.action is SelfHeal,
        PhaseText::LastHeal(_) => t.action is SelfHeal,
        PhaseText::LastCookie(_) => t.action is ReadCookie,
        PhaseText::Extract => t.action is Extract,
        PhaseText::ExtractProbe(c) => t.action == (chain::ActionText::Probe {
            url: c.url@,
            headers: Map::empty(),
            content_length: Some(c.size),
        }),
        PhaseText::Finished => t.action is Done,
    }
}

/// Which calls a turn may make. A client that is asked is left on, registered, and given the
/// session and the token it needs; past the main answer it is the current leg's of the track's own
/// order; the retry of a gated track is made in a session only; an upload never reaches the
/// extractor.
pub open spec fn permitted(clients: Registry, req: ResolveRequest, t: chain::Turn) -> bool {
    &&& t.action is Extract ==> !req.is_upload
    &&& t.action matches chain::ActionText::Player(call) ==> {
        &&& clients.contains_key(call.client)
        &&& call.playlist_id == chain::playlist_of(req.is_upload)
        &&& t.phase is Main ==> call.client == MAIN_CLIENT@ && !req.disabled@.contains(MAIN_CLIENT@)
        &&& t.phase is Creator ==> call.client == "WEB_CREATOR"@ && req.logged_in
        &&& t.phase is Answer ==> {
            &&& 1 <= t.progress.leg <= FALLBACKS
            &&& call.client == chain::leg_key(req.is_upload, t.progress.leg)
            &&& !req.disabled@.contains(call.client)
            &&& clients[call.client].login_required ==> req.logged_in
            &&& clients[call.client].use_web_po_tokens <==> call.pot is Some
        }
        &&& call.pot is Some ==> call.pot == t.progress.session_pot
        &&& !(t.phase is Main) && !clients[call.client].use_web_po_tokens ==> call.pot is None
        &&& !(t.phase is Main) && !clients[call.client].use_signature_timestamp ==> call.sts is None
    }
}

/// A turn that goes on from `p` past the session token: the token stays, without an upload's refused
/// stream there is none to be used, and nothing is handed out yet.
spec fn goes_on(p: ProgressText, t: chain::Turn) -> bool {
    &&& t.progress.leg >= 0
    &&& t.progress.session_pot == p.session_pot
    &&& !(t.phase is Timestamp) && !(t.phase is SessionToken)
    &&& p.upload_fallback is None ==> t.progress.upload_fallback is None && !(t.phase is LastHeal)
        && !(t.phase is LastCookie)
    &&& !(t.action matches chain::ActionText::Done(Ok(_)))
}

proof fn seek_is_permitted(clients: Registry, req: ResolveRequest, p: ProgressText)
    requires
        0 <= p.leg,
    ensures
        goes_on(p, chain::seek(clients, req, p)),
        awaits(chain::seek(clients, req, p)),
        permitted(clients, req, chain::seek(clients, req, p)),
    decreases FALLBACKS + 1 - p.leg,
{
    if p.leg > FALLBACKS {
    } else if p.leg == 0 {
        if !(chain::is_ok(p.main) && !req.disabled@.contains(MAIN_CLIENT@)) {
            seek_is_permitted(clients, req, ProgressText { leg: 1, ..p });
        }
    } else if !chain::askable(
        clients,
        req,
        p.session_pot,
        chain::leg_key(req.is_upload, p.leg),
    ) {
        seek_is_permitted(clients, req, ProgressText { leg: p.leg + 1, ..p });
    }
}

proof fn settled_is_permitted(
    clients: Registry,
    req: ResolveRequest,
    p: ProgressText,
    stream: StreamText,
)
    requires
        0 <= p.leg,
    ensures
        goes_on(p, chain::settled(clients, req, p, stream)),
        awaits(chain::settled(clients, req, p, stream)),
        permitted(clients, req, chain::settled(clients, req, p, stream)),
{
    seek_is_permitted(
        clients,
        req,
        ProgressText {
            best: chain::better_of(p.best, stream),
            leg: p.leg + 1,
            ..p
        },
    );
}

proof fn considered_is_permitted(
    clients: Registry,
    req: ResolveRequest,
    p: ProgressText,
    resp: PlayerResponse,
)
    requires
        0 <= p.leg,
    ensures
        goes_on(p, chain::consider(clients, req, p, resp)),
        awaits(chain::consider(clients, req, p, resp)),
        permitted(clients, req, chain::consider(clients, req, p, resp)),
{
    seek_is_permitted(clients, req, ProgressText { leg: p.leg + 1, ..p });
    if let Some(stream) = chain::offer(
        p.main,
        p.from_creator,
        resp,
        chain::leg_client(req.is_upload, p.from_creator, p.leg),
    ) {
        let q = ProgressText {
            loudness: match p.loudness {
                Some(l) => Some(l),
                None => playback::track_loudness(resp),
            },
            ..p
        };
        seek_is_permitted(clients, req, ProgressText { leg: q.leg + 1, ..q });
        if let Some(url) = stream.format.direct_url {
            settled_is_permitted(clients, req, q, chain::at_url(stream, url@));
        }
    }
}

proof fn main_settled_is_permitted(clients: Registry, req: ResolveRequest, p: ProgressText)
    ensures
        goes_on(p, chain::main_settled(clients, req, p)),
        awaits(chain::main_settled(clients, req, p)),
        permitted(clients, req, chain::main_settled(clients, req, p)),
{
    seek_is_permitted(
        clients,
        req,
        ProgressText {
            loudness: match p.main {
                Some(resp) => playback::track_loudness(resp),
                None => None,
            },
            reached: p.main is Some,
            login_wanted: chain::asks_login(p.main),
            leg: 0,
            ..p
        },
    );
}

/// Whatever is answered, the machine asks for what it then waits for, and makes no call that it may
/// not make.
pub proof fn every_call_is_permitted(
    clients: Registry,
    req: ResolveRequest,
    p: ProgressText,
    phase: PhaseText,
    event: Event,
)
    requires
        0 <= p.leg,
        chain::fits(phase, event),
    ensures
        0 <= chain::turn(clients, req, p, phase, event).progress.leg,
        awaits(chain::turn(clients, req, p, phase, event)),
        permitted(clients, req, chain::turn(clients, req, p, phase, event)),
{
    every_answer_leads_on(clients, req, p, phase, event);
}

/// What an answer leads to is a permitted turn. It goes on from what was known, unless it answers
/// one of the first two calls or settles the resolution.
proof fn every_answer_leads_on(
    clients: Registry,
    req: ResolveRequest,
    p: ProgressText,
    phase: PhaseText,
    event: Event,
)
    requires
        0 <= p.leg,
        chain::fits(phase, event),
    ensures
        ({
            let t = chain::turn(clients, req, p, phase, event);
            &&& 0 <= t.progress.leg
            &&& awaits(t)
            &&& permitted(clients, req, t)
            &&& !(phase is Timestamp) && !(phase is SessionToken) ==> t.progress.session_pot
                == p.session_pot
            &&& !(t.phase is Timestamp)
            &&& t.phase is SessionToken ==> phase is Timestamp && req.visitor is Some
                && chain::wants_token(clients, req) && t.progress.session_pot == p.session_pot
            &&& !req.is_upload && p.upload_fallback is None && !(phase is LastHeal)
                ==> t.progress.upload_fallback is None && !(t.phase is LastHeal)
                && !(t.phase is LastCookie)
            &&& t.action matches chain::ActionText::Done(Ok(_)) ==> event == Event::Probed(true)
                || phase is LastCookie
        }),
{
    let next = ProgressText { leg: p.leg + 1, ..p };
    match (phase, event) {
        (PhaseText::Timestamp, Event::Timestamp(sts)) => {
            main_settled_is_permitted(clients, req, ProgressText { sts, ..p });
        },
        (PhaseText::SessionToken, Event::Token(token)) => {
            main_settled_is_permitted(
                clients,
                req,
                ProgressText { session_pot: text::opt_text(token), ..p },
            );
        },
        (PhaseText::Main, Event::Answer(answer)) => {
            main_settled_is_permitted(clients, req, ProgressText { main: answer, ..p });
        },
        (PhaseText::Creator, Event::Answer(answer)) => {
            main_settled_is_permitted(clients, req, p);
            main_settled_is_permitted(
                clients,
                req,
                ProgressText { main: answer, from_creator: true, ..p },
            );
        },
        (PhaseText::Bar, Event::Barred(barred)) => {
            seek_is_permitted(clients, req, next);
            if let Some(resp) = p.main {
                considered_is_permitted(clients, req, p, resp);
            }
        },
        (PhaseText::Answer, Event::Answer(answer)) => {
            let q = ProgressText {
                reached: p.reached || answer is Some,
                login_wanted: if answer is Some {
                    chain::asks_login(answer) && (p.reached ==> p.login_wanted)
                } else {
                    p.login_wanted
                },
                ..p
            };
            seek_is_permitted(clients, req, ProgressText { leg: q.leg + 1, ..q });
            if let Some(resp) = answer {
                considered_is_permitted(clients, req, q, resp);
            }
        },
        (PhaseText::Decipher(stream), Event::Deciphered(found)) => {
            seek_is_permitted(clients, req, next);
            if let Some(url) = found {
                settled_is_permitted(clients, req, p, chain::at_url(stream, url@));
            }
        },
        (PhaseText::Transform(stream), Event::Transformed(url)) => {
            settled_is_permitted(clients, req, p, chain::at_url(stream, url@));
        },
        (PhaseText::StreamToken(stream), Event::Token(token)) => {
            settled_is_permitted(clients, req, p, stream);
            if let Some(token) = token {
                settled_is_permitted(
                    clients,
                    req,
                    p,
                    chain::at_url(stream, stream_url::with_token(stream.url, token@)),
                );
            }
        },
        (PhaseText::Probe { stream, headers }, Event::Probed(served)) => {
            seek_is_permitted(clients, req, next);
            seek_is_permitted(
                clients,
                req,
                ProgressText {
                    upload_fallback: chain::demotion(p, stream),
                    leg: p.leg + 1,
                    ..p
                },
            );
        },
        (PhaseText::Heal, Event::Healed) => {
            seek_is_permitted(clients, req, next);
        },
        _ => {},
    }
}

/// What holds of every turn that a resolution reaches: it asks for what it then waits for, makes no
/// call that it may not make, knows the token that was minted, and has no stream to hand out
/// unprobed unless the track is an upload.
pub open spec fn sound(clients: Registry, req: ResolveRequest, w: Replies, t: chain::Turn) -> bool {
    &&& 0 <= t.progress.leg
    &&& awaits(t)
    &&& permitted(clients, req, t)
    &&& t.phase is Timestamp || t.phase is SessionToken ==> t.progress.session_pot is None
    &&& t.phase is SessionToken ==> req.visitor is Some && chain::wants_token(clients, req)
    &&& !(t.phase is Timestamp) && !(t.phase is SessionToken) ==> t.progress.session_pot
        == outcome::session_token(clients, req, w)
    &&& !req.is_upload ==> t.progress.upload_fallback is None && !(t.phase is LastHeal)
        && !(t.phase is LastCookie)
}

/// However the calls are answered, every turn that a resolution reaches is sound.
pub proof fn every_turn_is_sound(clients: Registry, req: ResolveRequest, w: Replies, n: nat)
    ensures
        sound(clients, req, w, outcome::nth_turn(clients, req, w, n)),
    decreases n,
{
    if n > 0 {
        every_turn_is_sound(clients, req, w, (n - 1) as nat);
        let t = outcome::nth_turn(clients, req, w, (n - 1) as nat);
        if !(t.action is Done) {
            every_answer_leads_on(
                clients,
                req,
                t.progress,
                t.phase,
                outcome::reply(w, t.progress, t.phase),
            );
            if t.phase is Timestamp {
                main_settled_is_permitted(
                    clients,
                    req,
                    ProgressText { sts: w.sts, ..t.progress },
                );
            } else if t.phase is SessionToken {
                main_settled_is_permitted(
                    clients,
                    req,
                    ProgressText { session_pot: text::opt_text(w.session_token), ..t.progress },
                );
            }
        }
    }
}

/// Behind the main answer, a resolution asks the clients of the track's own order and no others;
/// the call carries the minted token where the client uses one. `IOS`, which plays nothing, is
/// never asked.
pub proof fn the_chain_asks_its_own_clients(
    clients: Registry,
    req: ResolveRequest,
    w: Replies,
    n: nat,
)
    ensures
        ({
            let t = outcome::nth_turn(clients, req, w, n);
            t.action matches chain::ActionText::Player(call) ==> {
                &&& call.client != "IOS"@
                &&& call.client == MAIN_CLIENT@ || call.client == "WEB_CREATOR"@
                    || clients::fallback_order(req.is_upload).contains(call.client)
                &&& t.phase is Answer ==> {
                    &&& 1 <= t.progress.leg <= FALLBACKS
                    &&& call.client == clients::fallback_order(req.is_upload)[t.progress.leg - 1]
                    &&& clients::fallback_order(req.is_upload).contains(call.client)
                    &&& call.pot == (if clients[call.client].use_web_po_tokens {
                        outcome::session_token(clients, req, w)
                    } else {
                        None
                    })
                }
            }
        }),
{
    every_turn_is_sound(clients, req, w, n);
    let t = outcome::nth_turn(clients, req, w, n);
    if let chain::ActionText::Player(call) = t.action {
        reveal_strlit("IOS");
        reveal_strlit("WEB_REMIX");
        reveal_strlit("WEB_CREATOR");
        assert("IOS"@.len() == 3);
        if t.phase is Answer {
            fallbacks_are_not_ios(req.is_upload, t.progress.leg);
            let order = clients::fallback_order(req.is_upload);
            assert(order.len() == FALLBACKS);
            assert(order[t.progress.leg - 1] == call.client);
        } else {
            assert(call.client == MAIN_CLIENT@ || call.client == "WEB_CREATOR"@);
        }
    }
}

/// No fallback client is `IOS`.
proof fn fallbacks_are_not_ios(is_upload: bool, leg: int)
    requires
        1 <= leg <= FALLBACKS,
    ensures
        chain::leg_key(is_upload, leg) != "IOS"@,
{
    reveal_strlit("IOS");
    reveal_strlit("VISIONOS");
    reveal_strlit("TVHTML5_SIMPLY");
    reveal_strlit("TVHTML5");
    reveal_strlit("WEB_CREATOR");
    let key = chain::leg_key(is_upload, leg);
    assert(key == "VISIONOS"@ || key == "TVHTML5_SIMPLY"@ || key == "TVHTML5"@ || key
        == "WEB_CREATOR"@);
    assert("IOS"@.len() == 3 && key.len() != 3);
}

/// An ordinary track is handed out right behind a probe that passed, at the very URL and with the
/// very headers that were probed.
pub proof fn a_stream_is_handed_out_behind_its_probe(
    clients: Registry,
    req: ResolveRequest,
    w: Replies,
    n: nat,
    d: PlaybackText,
)
    requires
        !req.is_upload,
        !(outcome::nth_turn(clients, req, w, n).action is Done),
        outcome::nth_turn(clients, req, w, n + 1).action == chain::ActionText::Done(
            Ok::<PlaybackText, Failure>(d),
        ),
    ensures
        ({
            let t = outcome::nth_turn(clients, req, w, n);
            &&& t.action matches chain::ActionText::Probe { url, headers, .. } && url
                == d.stream_url && headers == d.headers
            &&& outcome::reply(w, t.progress, t.phase) == Event::Probed(true)
        }),
{
    every_turn_is_sound(clients, req, w, n);
    let t = outcome::nth_turn(clients, req, w, n);
    every_answer_leads_on(
        clients,
        req,
        t.progress,
        t.phase,
        outcome::reply(w, t.progress, t.phase),
    );
}

/// A failed main-client stream bars that client for its track from then on and for the memory's
/// whole time, and no longer.
pub proof fn a_bar_lasts_its_time(map: Map<Seq<char>, u64>, id: Seq<char>, now: u64, later: u64)
    requires
        now <= later,
    ensures
        failures::unexpired(
            failures::unexpired(map, now).insert(id, now),
            later,
        ).contains_key(id) <==> later - now < WEB_REMIX_BLACKLIST_TTL,
{
}

/// Recording a failure leaves the other tracks' bars as they were.
pub proof fn a_bar_is_for_its_track_only(
    map: Map<Seq<char>, u64>,
    id: Seq<char>,
    other: Seq<char>,
    now: u64,
    later: u64,
)
    requires
        id != other,
        now <= later,
    ensures
        failures::unexpired(
            failures::unexpired(map, now).insert(id, now),
            later,
        ).contains_key(other) <==> failures::unexpired(map, later).contains_key(other),
{
}

/// The memory cannot grow: after a failure is recorded, nothing in it is expired.
pub proof fn the_memory_holds_fresh_failures_only(
    map: Map<Seq<char>, u64>,
    id: Seq<char>,
    now: u64,
)
    ensures
        failures::unexpired(failures::unexpired(map, now).insert(id, now), now)
            == failures::unexpired(map, now).insert(id, now),
{
    let m = failures::unexpired(map, now).insert(id, now);
    assert(failures::unexpired(m, now) =~= m);
}

/// Once a self-heal was let through, others are kept out for its whole cooldown and no longer.
pub proof fn self_heals_are_kept_apart(gate: HealGate, now: u64, later: u64)
    ensures
        !gate.held(now) ==> (gate.claimed(now).held(later) <==> later - now < HEAL_COOLDOWN),
{
}

/// However many claims are made, and in whatever order their times come, any two that are let
/// through lie at least the cooldown apart.
pub proof fn any_two_self_heals_are_kept_apart(gate: HealGate, times: Seq<u64>, i: int, j: int)
    requires
        0 <= i < j < times.len(),
        gate.lets_through(times, i),
        gate.lets_through(times, j),
    ensures
        times[j] - times[i] >= HEAL_COOLDOWN,
{
    last_claim_is_no_earlier(gate, times, i, j);
}

/// Behind a claim that was let through, the last one let through is no earlier.
proof fn last_claim_is_no_earlier(gate: HealGate, times: Seq<u64>, i: int, n: int)
    requires
        0 <= i < n <= times.len(),
        gate.lets_through(times, i),
    ensures
        gate.after_claims(times.take(n)).last matches Some(t) && t >= times[i],
    decreases n,
{
    assert(times.take(n).drop_last() =~= times.take(n - 1));
    if n - 1 > i {
        last_claim_is_no_earlier(gate, times, i, n - 1);
    }
}

/// An appended token cannot add anything else to the URL: its text is made of unreserved
/// characters and percent signs.
pub proof fn a_token_stays_one_parameter(bytes: Seq<u8>, i: int)
    requires
        0 <= i < stream_url::percent_encoded(bytes).len(),
    ensures
        ({
            let c = stream_url::percent_encoded(bytes)[i];
            c == '%' || exists|b: u8| #[trigger] stream_url::unreserved(b) && c == b as char
        }),
    decreases bytes.len(),
{
    let front = stream_url::percent_encoded(bytes.drop_last());
    if i < front.len() {
        a_token_stays_one_parameter(bytes.drop_last(), i);
    } else {
        let b = bytes.last();
        if stream_url::unreserved(b) {
            assert(stream_url::unreserved(b));
        } else {
            let high = b as int / 16;
            let low = b as int % 16;
            assert(stream_url::unreserved((if high < 10 {
                0x30 + high
            } else {
                0x41 - 10 + high
            }) as u8));
            assert(stream_url::unreserved((if low < 10 {
                0x30 + low
            } else {
                0x41 - 10 + low
            }) as u8));
        }
    }
}

} // verus!
