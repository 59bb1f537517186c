//! What the legs of a chain come to, said of the request and of what the calls were answered.
use vstd::prelude::*;

use crate::chain::{self, Registry, ResolveRequest};
use crate::clients::FALLBACKS;
use crate::laws;
use crate::model::{AudioQuality, Format, PlayerResponse};
use crate::outcome::{self, Replies};
use crate::playback::{self, Failure, PingText, PlaybackText, StreamText};
use crate::rules;
use crate::stream_url;
use crate::text;

verus! {

/// The answer that describes the track is the main client's, where it is left on and registered; a
/// gated one is replaced by `WEB_CREATOR`'s, where that could be asked in a session and answered.
pub proof fn the_main_answer_describes_the_track(
    clients: Registry,
    req: ResolveRequest,
    w: Replies,
)
    ensures
        ({
            let asked = clients.contains_key("WEB_REMIX"@) && !req.disabled@.contains(
                "WEB_REMIX"@,
            );
            let gated = asked && w.main is Some && w.main->0.playability_status.age_gated;
            let retried = gated && req.logged_in && clients.contains_key("WEB_CREATOR"@);
            &&& outcome::replaced(clients, req, w) <==> retried && w.creator is Some
            &&& retried && w.creator is Some ==> outcome::metadata(clients, req, w) == w.creator
            &&& asked && !(retried && w.creator is Some) ==> outcome::metadata(clients, req, w)
                == w.main
            &&& !asked ==> outcome::metadata(clients, req, w) is None
        }),
{
}

/// The session token is the one that was minted, where there is a visitor to mint it for and some
/// client of the track that is left on uses tokens; otherwise there is none.
pub proof fn the_token_is_minted_for_a_visitor(clients: Registry, req: ResolveRequest, w: Replies)
    ensures
        ({
            let wants = |key: Seq<char>|
                !req.disabled@.contains(key) && clients.contains_key(key)
                    && clients[key].use_web_po_tokens;
            let wanted = wants("WEB_REMIX"@) || (if req.is_upload {
                wants("TVHTML5"@) || wants("WEB_CREATOR"@)
            } else {
                wants("VISIONOS"@) || wants("TVHTML5_SIMPLY"@)
            });
            let pot = outcome::session_token(clients, req, w);
            &&& req.visitor is Some && wanted && w.session_token is Some ==> pot == Some(
                w.session_token->0@,
            )
            &&& pot is Some ==> req.visitor is Some && wanted && w.session_token is Some
        }),
{
    rules::a_token_is_wanted_by_any_client_of_the_track(clients, req);
}

/// Leg 0 goes by the answer that describes the track, unless the main client is switched off or
/// barred for it.
pub proof fn the_first_leg_goes_by_the_main_answer(
    clients: Registry,
    req: ResolveRequest,
    w: Replies,
)
    ensures
        req.disabled@.contains("WEB_REMIX"@) || w.barred ==> outcome::leg_answer(
            clients,
            req,
            w,
            0,
        ) is None,
        !req.disabled@.contains("WEB_REMIX"@) && !w.barred ==> outcome::leg_answer(
            clients,
            req,
            w,
            0,
        ) == outcome::metadata(clients, req, w),
        outcome::leg_client(clients, req, w, 0) == (if outcome::replaced(clients, req, w) {
            "WEB_CREATOR"@
        } else {
            "WEB_REMIX"@
        }),
{
}

/// The other legs go by what their clients answer, each of which is asked exactly if it is left on
/// and registered and has the session and the token that it needs.
pub proof fn the_other_legs_go_by_their_clients(
    clients: Registry,
    req: ResolveRequest,
    w: Replies,
    leg: int,
    key: Seq<char>,
)
    requires
        leg == 1 || leg == 2,
        req.is_upload && leg == 1 ==> key == "TVHTML5"@,
        req.is_upload && leg == 2 ==> key == "WEB_CREATOR"@,
        !req.is_upload && leg == 1 ==> key == "VISIONOS"@,
        !req.is_upload && leg == 2 ==> key == "TVHTML5_SIMPLY"@,
    ensures
        outcome::leg_client(clients, req, w, leg) == key,
        ({
            let asked = !req.disabled@.contains(key) && clients.contains_key(key) && (
            clients[key].login_required ==> req.logged_in) && (clients[key].use_web_po_tokens
                ==> outcome::session_token(clients, req, w) is Some);
            &&& asked ==> outcome::leg_answer(clients, req, w, leg) == w.legs[leg].answer
            &&& !asked ==> outcome::leg_answer(clients, req, w, leg) is None
        }),
{
    rules::each_kind_has_its_order();
}

/// A leg comes up with a stream exactly when its answer serves the track, says how long it lasts, and
/// has a picked format whose URL is plain or could be deciphered.
pub proof fn a_leg_comes_up_with_its_answers_stream(
    clients: Registry,
    req: ResolveRequest,
    w: Replies,
    leg: int,
)
    ensures
        outcome::leg_stream(clients, req, w, leg) is Some <==> {
            &&& outcome::leg_answer(clients, req, w, leg) matches Some(resp)
            &&& resp.playability_status.ok
            &&& resp.streaming_data matches Some(s)
            &&& s.expires_in_seconds is Some
            &&& s.picked matches Some(f)
            &&& f.direct_url is Some || (f.cipher_string is Some && w.legs[leg].deciphered is Some)
        },
        outcome::leg_offer(clients, req, w, leg) is Some <==> {
            &&& outcome::leg_answer(clients, req, w, leg) matches Some(resp)
            &&& resp.playability_status.ok
            &&& resp.streaming_data matches Some(s)
            &&& s.expires_in_seconds is Some
            &&& s.picked is Some
        },
{
}

/// A leg's stream has its answer's picked format and time to live, and the name of the client that
/// the leg goes by. It is pinged at the main answer's tracking URL in the name of the client that
/// gave that answer or, where that has none, at its own answer's in its own client's name.
pub proof fn a_leg_stream_has_its_answers_values(
    clients: Registry,
    req: ResolveRequest,
    w: Replies,
    leg: int,
    stream: StreamText,
    resp: PlayerResponse,
)
    requires
        outcome::leg_stream(clients, req, w, leg) == Some(stream),
        outcome::leg_answer(clients, req, w, leg) == Some(resp),
    ensures
        resp.streaming_data matches Some(s) && s.picked == Some(stream.format)
            && s.expires_in_seconds == Some(stream.expires),
        stream.client == outcome::leg_client(clients, req, w, leg),
        ({
            let main = outcome::metadata(clients, req, w);
            let from_main = main is Some && playback::tracking_url(main->0) is Some;
            &&& from_main ==> stream.ping == Some(
                PingText {
                    url: playback::tracking_url(main->0)->0,
                    client: if outcome::replaced(clients, req, w) {
                        "WEB_CREATOR"@
                    } else {
                        "WEB_REMIX"@
                    },
                },
            )
            &&& !from_main && playback::tracking_url(resp) is Some ==> stream.ping == Some(
                PingText {
                    url: playback::tracking_url(resp)->0,
                    client: outcome::leg_client(clients, req, w, leg),
                },
            )
            &&& !from_main && playback::tracking_url(resp) is None ==> stream.ping is None
        }),
{
}

/// The URL that a leg's stream comes with: the plain one, before any that has to be deciphered.
pub proof fn a_leg_prefers_the_plain_url(
    clients: Registry,
    req: ResolveRequest,
    w: Replies,
    leg: int,
    f: Format,
)
    requires
        outcome::leg_offer(clients, req, w, leg) matches Some(stream) && stream.format == f,
    ensures
        f.direct_url matches Some(url) ==> outcome::raw_url(clients, req, w, leg) == Some(url@),
        f.direct_url is None && f.cipher_string is Some && w.legs[leg].deciphered is Some
            ==> outcome::raw_url(clients, req, w, leg) == Some(w.legs[leg].deciphered->0@),
        f.direct_url is None && (f.cipher_string is None || w.legs[leg].deciphered is None)
            ==> outcome::raw_url(clients, req, w, leg) is None,
{
}

/// A stream CDN's URL of `WEB`, `WEB_REMIX`, `WEB_CREATOR`, `TVHTML5`, or any client that uses tokens
/// is requested as its `n`-transform left it, with a token appended where the leg's own client uses
/// them, there is a visitor and one could be minted. Any other URL is requested as it came.
pub proof fn a_web_clients_stream_is_transformed(
    clients: Registry,
    req: ResolveRequest,
    w: Replies,
    leg: int,
    url: Seq<char>,
)
    requires
        outcome::raw_url(clients, req, w, leg) == Some(url),
    ensures
        ({
            let key = outcome::leg_client(clients, req, w, leg);
            let on_cdn = stream_url::url_host(url) is Some && ({
                let host = stream_url::url_host(url)->0;
                ".googlevideo.com"@.is_suffix_of(host) || ".c.youtube.com"@.is_suffix_of(host)
            });
            let web = on_cdn && (key == "WEB"@ || key == "WEB_REMIX"@ || key == "WEB_CREATOR"@
                || key == "TVHTML5"@ || (clients.contains_key(key)
                && clients[key].use_web_po_tokens));
            let own = chain::leg_key(req.is_upload, leg);
            let carries = clients.contains_key(own) && clients[own].use_web_po_tokens && req.visitor
                is Some && w.legs[leg].stream_token is Some;
            let stream = outcome::leg_stream(clients, req, w, leg)->0;
            &&& outcome::leg_stream(clients, req, w, leg) is Some
            &&& web ==> stream.url == (if carries {
                stream_url::with_token(
                    w.legs[leg].transformed@,
                    w.legs[leg].stream_token->0@,
                )
            } else {
                w.legs[leg].transformed@
            })
            &&& !web ==> stream.url == url
            &&& stream.web == web
        }),
{
    rules::a_web_clients_cdn_url_is_transformed(
        clients,
        outcome::leg_client(clients, req, w, leg),
        url,
    );
}

/// An upload's `TVHTML5` stream on the stream CDN is requested at its transformed URL, where that
/// client uses no tokens.
pub proof fn an_uploads_television_stream_is_transformed(
    clients: Registry,
    req: ResolveRequest,
    w: Replies,
    url: Seq<char>,
)
    requires
        req.is_upload,
        outcome::raw_url(clients, req, w, 1) == Some(url),
        stream_url::url_host(url) matches Some(host) && (".googlevideo.com"@.is_suffix_of(host)
            || ".c.youtube.com"@.is_suffix_of(host)),
        !(clients.contains_key("TVHTML5"@) && clients["TVHTML5"@].use_web_po_tokens),
    ensures
        outcome::leg_stream(clients, req, w, 1) matches Some(stream) && stream.url
            == w.legs[1].transformed@,
{
    rules::each_kind_has_its_order();
    a_web_clients_stream_is_transformed(clients, req, w, 1, url);
}

/// A leg wins exactly when it comes up with a stream that is found served and that is not to be
/// passed over for one of the highest quality: that quality, or no choice, was asked for, the main
/// answer lists it, and this is not it.
pub proof fn a_leg_wins_with_a_served_stream(
    clients: Registry,
    req: ResolveRequest,
    w: Replies,
    leg: int,
)
    ensures
        ({
            let high = |f: Format|
                f.audio_quality is Some && f.audio_quality->0@ == "AUDIO_QUALITY_HIGH"@;
            let main = outcome::metadata(clients, req, w);
            let listed = main is Some && main->0.streaming_data is Some && exists|i: int|
                0 <= i < main->0.streaming_data->0.adaptive_formats@.len() && high(
                    #[trigger] main->0.streaming_data->0.adaptive_formats@[i],
                );
            let wanted = (req.quality == AudioQuality::High || req.quality == AudioQuality::Auto)
                && listed;
            let stream = outcome::leg_stream(clients, req, w, leg);
            &&& outcome::leg_wins(clients, req, w, leg) <==> stream is Some && w.legs[leg].served
                && (wanted ==> high(stream->0.format))
            &&& outcome::leg_set_aside(clients, req, w, leg) <==> stream is Some && wanted && !high(
                stream->0.format,
            )
            &&& outcome::leg_probed(clients, req, w, leg) <==> stream is Some && (wanted ==> high(
                stream->0.format,
            ))
        }),
{
    let main = outcome::metadata(clients, req, w);
    if let Some(stream) = outcome::leg_stream(clients, req, w, leg) {
        rules::a_stream_is_set_aside_for_a_better_one(req.quality, main, stream.format);
        if let Some(resp) = main {
            if let Some(s) = resp.streaming_data {
                if exists|i: int|
                    0 <= i < s.adaptive_formats@.len() && ({
                        let f = #[trigger] s.adaptive_formats@[i];
                        f.audio_quality is Some && f.audio_quality->0@ == "AUDIO_QUALITY_HIGH"@
                    }) {
                    let i = choose|i: int|
                        0 <= i < s.adaptive_formats@.len() && ({
                            let f = #[trigger] s.adaptive_formats@[i];
                            f.audio_quality is Some && f.audio_quality->0@ == "AUDIO_QUALITY_HIGH"@
                        });
                    assert(main->0.streaming_data->0.adaptive_formats@[i] == s.adaptive_formats@[i]);
                }
            }
        }
    }
}

/// Where the highest quality is asked for by name, or the choice is left open, and the main answer
/// lists a format of it: as soon as some leg comes up with a served stream that says it is of that
/// quality, the first such stream plays, whatever other streams stand before it.
pub proof fn the_first_high_stream_plays(
    clients: Registry,
    req: ResolveRequest,
    w: Replies,
    main: PlayerResponse,
    listed: int,
    leg: int,
)
    requires
        req.quality == AudioQuality::High || req.quality == AudioQuality::Auto,
        outcome::metadata(clients, req, w) == Some(main),
        main.streaming_data matches Some(s) && 0 <= listed < s.adaptive_formats@.len()
            && s.adaptive_formats@[listed].audio_quality is Some
            && s.adaptive_formats@[listed].audio_quality->0@ == "AUDIO_QUALITY_HIGH"@,
        0 <= leg <= FALLBACKS,
        outcome::leg_stream(clients, req, w, leg) matches Some(stream)
            && stream.format.audio_quality is Some && stream.format.audio_quality->0@
            == "AUDIO_QUALITY_HIGH"@,
        w.legs[leg].served,
        forall|l: int|
            0 <= l < leg ==> !w.legs[l].served || !(#[trigger] outcome::leg_stream(
                clients,
                req,
                w,
                l,
            ) matches Some(stream) && stream.format.audio_quality is Some
                && stream.format.audio_quality->0@ == "AUDIO_QUALITY_HIGH"@),
    ensures
        ({
            let stream = outcome::leg_stream(clients, req, w, leg)->0;
            outcome::outcome(clients, req, w) matches Ok(d) && d.stream_url == stream.url
                && d.stream_client == stream.client && d.itag == stream.format.itag
        }),
{
    let formats = main.streaming_data->0.adaptive_formats@;
    assert(formats[listed] == formats[listed]);
    a_leg_wins_with_a_served_stream(clients, req, w, leg);
    assert forall|l: int| 0 <= l < leg implies !#[trigger] outcome::leg_wins(clients, req, w, l) by {
        a_leg_wins_with_a_served_stream(clients, req, w, l);
        assert(outcome::leg_stream(clients, req, w, l) == outcome::leg_stream(clients, req, w, l));
    }
    laws::first_winner_is_played(clients, req, w, leg);
}

/// Where the low quality is asked for, or the main answer lists no format of the highest one, the
/// first served stream plays, whatever its quality.
pub proof fn the_first_served_stream_plays(
    clients: Registry,
    req: ResolveRequest,
    w: Replies,
    leg: int,
)
    requires
        req.quality == AudioQuality::Low || !(outcome::metadata(
            clients,
            req,
            w,
        ) matches Some(main) && main.streaming_data is Some && exists|i: int|
            0 <= i < main.streaming_data->0.adaptive_formats@.len() && ({
                let f = #[trigger] main.streaming_data->0.adaptive_formats@[i];
                f.audio_quality is Some && f.audio_quality->0@ == "AUDIO_QUALITY_HIGH"@
            })),
        0 <= leg <= FALLBACKS,
        outcome::leg_stream(clients, req, w, leg) is Some,
        w.legs[leg].served,
        forall|l: int|
            0 <= l < leg ==> !w.legs[l].served || #[trigger] outcome::leg_stream(
                clients,
                req,
                w,
                l,
            ) is None,
    ensures
        ({
            let stream = outcome::leg_stream(clients, req, w, leg)->0;
            outcome::outcome(clients, req, w) matches Ok(d) && d.stream_url == stream.url
                && d.stream_client == stream.client && d.itag == stream.format.itag
        }),
{
    a_leg_wins_with_a_served_stream(clients, req, w, leg);
    assert forall|l: int| 0 <= l < leg implies !#[trigger] outcome::leg_wins(clients, req, w, l) by {
        a_leg_wins_with_a_served_stream(clients, req, w, l);
        assert(outcome::leg_stream(clients, req, w, l) == outcome::leg_stream(clients, req, w, l));
    }
    laws::first_winner_is_played(clients, req, w, leg);
}

/// Of the streams that were set aside, the best one is kept: no other is better than it, and none of
/// its equals came before it.
pub proof fn the_earliest_of_the_best_is_kept(
    clients: Registry,
    req: ResolveRequest,
    w: Replies,
    leg: int,
)
    requires
        0 <= leg,
    ensures
        match outcome::best_before(clients, req, w, leg) {
            Some(best) => exists|l: int|
                0 <= l < leg && outcome::leg_set_aside(clients, req, w, l)
                    && #[trigger] outcome::leg_stream(clients, req, w, l) == Some(best) && (forall|
                    k: int,
                |
                    0 <= k < leg && #[trigger] outcome::leg_set_aside(clients, req, w, k) ==> {
                        let other = outcome::leg_stream(clients, req, w, k)->0.format;
                        &&& !playback::above(
                            playback::standing(other),
                            playback::standing(best.format),
                        )
                        &&& playback::standing(other) == playback::standing(best.format) ==> l <= k
                    }),
            None => forall|l: int|
                0 <= l < leg ==> !#[trigger] outcome::leg_set_aside(clients, req, w, l),
        },
    decreases leg,
{
    if leg > 0 {
        the_earliest_of_the_best_is_kept(clients, req, w, leg - 1);
        let old_best = outcome::best_before(clients, req, w, leg - 1);
        let new = outcome::leg_stream(clients, req, w, leg - 1);
        assert(new == outcome::leg_stream(clients, req, w, leg - 1));
        if let Some(old) = old_best {
            let l = choose|l: int|
                0 <= l < leg - 1 && outcome::leg_set_aside(clients, req, w, l)
                    && #[trigger] outcome::leg_stream(clients, req, w, l) == Some(old) && (forall|
                    k: int,
                |
                    0 <= k < leg - 1 && #[trigger] outcome::leg_set_aside(clients, req, w, k) ==> {
                        let other = outcome::leg_stream(clients, req, w, k)->0.format;
                        &&& !playback::above(
                            playback::standing(other),
                            playback::standing(old.format),
                        )
                        &&& playback::standing(other) == playback::standing(old.format) ==> l <= k
                    });
            assert(0 <= l < leg);
        }
    }
}

/// The refused stream that an upload falls back on is the first one that a leg probed in vain.
pub proof fn the_first_refused_stream_is_kept(
    clients: Registry,
    req: ResolveRequest,
    w: Replies,
    leg: int,
)
    requires
        0 <= leg,
    ensures
        !req.is_upload ==> outcome::refused_before(clients, req, w, leg) is None,
        req.is_upload ==> match outcome::refused_before(clients, req, w, leg) {
            Some(first) => exists|l: int|
                0 <= l < leg && outcome::leg_probed(clients, req, w, l) && !w.legs[l].served
                    && #[trigger] outcome::leg_stream(clients, req, w, l) == Some(first) && (forall|
                    k: int,
                |
                    0 <= k < l && #[trigger] outcome::leg_probed(clients, req, w, k)
                        ==> w.legs[k].served),
            None => forall|k: int|
                0 <= k < leg && #[trigger] outcome::leg_probed(clients, req, w, k)
                    ==> w.legs[k].served,
        },
    decreases leg,
{
    if leg > 0 {
        the_first_refused_stream_is_kept(clients, req, w, leg - 1);
        let new = outcome::leg_stream(clients, req, w, leg - 1);
        assert(new == outcome::leg_stream(clients, req, w, leg - 1));
        if let Some(first) = outcome::refused_before(clients, req, w, leg - 1) {
            let l = choose|l: int|
                0 <= l < leg - 1 && outcome::leg_probed(clients, req, w, l) && !w.legs[l].served
                    && #[trigger] outcome::leg_stream(clients, req, w, l) == Some(first) && (forall|
                    k: int,
                |
                    0 <= k < l && #[trigger] outcome::leg_probed(clients, req, w, k)
                        ==> w.legs[k].served);
            assert(0 <= l < leg);
        }
    }
}

/// The loudness that a track is known by is the main answer's or, where that gives none, that of the
/// first leg that offered anything and gave one.
pub proof fn the_first_loudness_given_counts(
    clients: Registry,
    req: ResolveRequest,
    w: Replies,
    leg: int,
)
    requires
        0 <= leg,
    ensures
        ({
            let main = outcome::metadata(clients, req, w);
            let known = outcome::loudness_before(clients, req, w, leg);
            if main is Some && playback::track_loudness(main->0) is Some {
                known == playback::track_loudness(main->0)
            } else {
                match known {
                    Some(l) => exists|k: int|
                        0 <= k < leg && #[trigger] outcome::leg_offer(clients, req, w, k) is Some
                            && playback::track_loudness(
                            outcome::leg_answer(clients, req, w, k)->0,
                        ) == Some(l) && (forall|j: int|
                            0 <= j < k && #[trigger] outcome::leg_offer(clients, req, w, j) is Some
                                ==> playback::track_loudness(
                                outcome::leg_answer(clients, req, w, j)->0,
                            ) is None),
                    None => forall|j: int|
                        0 <= j < leg && #[trigger] outcome::leg_offer(clients, req, w, j) is Some
                            ==> playback::track_loudness(
                            outcome::leg_answer(clients, req, w, j)->0,
                        ) is None,
                }
            }
        }),
    decreases leg,
{
    if leg > 0 {
        the_first_loudness_given_counts(clients, req, w, leg - 1);
        let main = outcome::metadata(clients, req, w);
        let offer = outcome::leg_offer(clients, req, w, leg - 1);
        assert(offer == outcome::leg_offer(clients, req, w, leg - 1));
        if !(main is Some && playback::track_loudness(main->0) is Some) {
            if let Some(l) = outcome::loudness_before(clients, req, w, leg - 1) {
                let k = choose|k: int|
                    0 <= k < leg - 1 && #[trigger] outcome::leg_offer(clients, req, w, k) is Some
                        && playback::track_loudness(outcome::leg_answer(clients, req, w, k)->0)
                        == Some(l) && (forall|j: int|
                        0 <= j < k && #[trigger] outcome::leg_offer(clients, req, w, j) is Some
                            ==> playback::track_loudness(
                            outcome::leg_answer(clients, req, w, j)->0,
                        ) is None);
                assert(0 <= k < leg);
            }
        }
    }
}

/// What is played of a leg's stream is the stream itself, requested as the leg's client with the
/// cookie where the track is an upload, under the track's own id; its loudness is the format's own or
/// else the one that is known by then.
pub proof fn what_is_played_is_the_stream(
    clients: Registry,
    req: ResolveRequest,
    w: Replies,
    stream: StreamText,
    leg: int,
    cookie: Option<String>,
)
    ensures
        ({
            let d = outcome::played(clients, req, w, stream, leg, cookie);
            let ua = clients.contains_key(stream.client);
            &&& d.video_id == req.video_id@
            &&& d.stream_url == stream.url
            &&& d.stream_client == stream.client
            &&& d.itag == stream.format.itag
            &&& d.expires_in_seconds == stream.expires
            &&& d.playback_ping == stream.ping
            &&& stream.format.loudness_db is Some ==> d.loudness_db == stream.format.loudness_db
            &&& stream.format.loudness_db is None ==> d.loudness_db == outcome::loudness_before(
                clients,
                req,
                w,
                leg,
            )
            &&& d.headers.contains_key("User-Agent"@) <==> ua
            &&& ua ==> d.headers["User-Agent"@] == clients[stream.client].user_agent@
            &&& d.headers.contains_key("Cookie"@) <==> req.is_upload && cookie is Some
            &&& req.is_upload && cookie is Some ==> d.headers["Cookie"@] == cookie->0@
            &&& forall|name: Seq<char>| #[trigger]
                d.headers.contains_key(name) ==> name == "User-Agent"@ || name == "Cookie"@
        }),
{
    let agent = chain::user_agent(clients, stream.client);
    let jar = text::opt_text(cookie);
    assert forall|name: Seq<char>| #[trigger]
        playback::header_map(agent, jar, req.is_upload).contains_key(name) implies name
        == "User-Agent"@ || name == "Cookie"@ by {
        rules::headers_are_agent_and_cookie(agent, jar, req.is_upload, name);
    }
    rules::headers_are_agent_and_cookie(agent, jar, req.is_upload, "User-Agent"@);
    rules::headers_are_agent_and_cookie(agent, jar, req.is_upload, "Cookie"@);
    reveal_strlit("User-Agent");
    reveal_strlit("Cookie");
    assert("User-Agent"@.len() != "Cookie"@.len());
}

/// What describes a track that plays from the chain is what its main answer says: title, author,
/// length and kind as they are, and the last of the listed thumbnails.
pub proof fn the_track_is_described_by_its_main_answer(
    clients: Registry,
    req: ResolveRequest,
    w: Replies,
    d: PlaybackText,
)
    requires
        outcome::outcome(clients, req, w) == Ok::<PlaybackText, Failure>(d),
        d.stream_client != "rustypipe"@,
    ensures
        d.video_id == req.video_id@,
        outcome::metadata(clients, req, w) matches Some(main) ==> (
        main.video_details matches Some(v) ==> {
            &&& v.title is Some ==> d.title == Some(v.title->0@)
            &&& v.title is None ==> d.title is None
            &&& v.author is Some ==> d.artists == Some(v.author->0@)
            &&& v.author is None ==> d.artists is None
            &&& v.length_seconds is Some ==> d.duration == Some(v.length_seconds->0@)
            &&& v.length_seconds is None ==> d.duration is None
            &&& d.is_video == v.is_music_video
            &&& v.thumbnail matches Some(t) ==> {
                let n = t.thumbnails@.len();
                &&& n > 0 ==> d.thumbnail == Some(t.thumbnails@[n - 1].url@)
                &&& n == 0 ==> d.thumbnail is None
            }
            &&& v.thumbnail is None ==> d.thumbnail is None
        }),
        !(outcome::metadata(clients, req, w) matches Some(main) && main.video_details is Some) ==> {
            &&& d.title is None
            &&& d.artists is None
            &&& d.duration is None
            &&& d.is_video is None
            &&& d.thumbnail is None
        },
{
    laws::played_streams_have_a_source(clients, req, w, d);
    if !laws::plays_extracted(req, w, d) {
        let leg = choose|leg: int| laws::plays_leg(clients, req, w, d, leg);
    }
}

/// Once no leg wins: the best stream that was set aside plays if it is served, and an upload's even
/// if it is not; then an upload's first refused one; an upload without any fails as one. An ordinary
/// track is left to the extractor: what that found plays at its own URL if it is served.
pub proof fn what_is_left_when_no_leg_wins(clients: Registry, req: ResolveRequest, w: Replies)
    requires
        forall|l: int|
            0 <= l <= FALLBACKS ==> !#[trigger] outcome::leg_wins(clients, req, w, l),
    ensures
        ({
            let end = FALLBACKS + 1;
            let best = outcome::best_before(clients, req, w, end);
            let refused = outcome::refused_before(clients, req, w, end);
            let result = outcome::outcome(clients, req, w);
            let failed = |f: Failure| result == Err::<PlaybackText, Failure>(f);
            &&& best is Some && w.best_served ==> result == Ok::<PlaybackText, Failure>(
                outcome::played(clients, req, w, best->0, end, w.best_cookie),
            )
            &&& req.is_upload && best is Some && !w.best_served ==> result == Ok::<
                PlaybackText,
                Failure,
            >(outcome::played(clients, req, w, best->0, end, w.last_cookie))
            &&& req.is_upload && best is None && refused is Some ==> result == Ok::<
                PlaybackText,
                Failure,
            >(outcome::played(clients, req, w, refused->0, end, w.last_cookie))
            &&& req.is_upload && best is None && refused is None ==> failed(
                Failure::UploadUnavailable(req.video_id@),
            )
            &&& !req.is_upload && !(best is Some && w.best_served) ==> {
                &&& w.extracted matches Ok(c) ==> {
                    &&& w.extract_served ==> result == Ok::<PlaybackText, Failure>(
                        chain::extracted_data(req.video_id@, c),
                    )
                    &&& !w.extract_served ==> if !req.logged_in && outcome::login_before(
                        clients,
                        req,
                        w,
                        end,
                    ) {
                        failed(Failure::SignInRequired(req.video_id@))
                    } else {
                        failed(Failure::AllClientsFailed(req.video_id@))
                    }
                }
                &&& w.extracted matches Err(e) ==> if !outcome::reached_before(clients, req, w, end)
                    && e is RustyPipe {
                    failed(Failure::Unreachable(req.video_id@))
                } else if !req.logged_in && outcome::login_before(clients, req, w, end) {
                    failed(Failure::SignInRequired(req.video_id@))
                } else {
                    failed(Failure::AllClientsFailed(req.video_id@))
                }
            }
        }),
{
    laws::no_winner_leaves_the_last_resort(clients, req, w);
    the_first_refused_stream_is_kept(clients, req, w, FALLBACKS + 1);
}

/// The service was reached as soon as some answer came: the one that describes the track, or that of
/// a leg behind it. An account was asked for when it was reached and no answer said anything else.
pub proof fn what_was_learned_of_the_service(clients: Registry, req: ResolveRequest, w: Replies)
    ensures
        ({
            let answer = |l: int|
                if l == 0 {
                    outcome::metadata(clients, req, w)
                } else {
                    outcome::leg_answer(clients, req, w, l)
                };
            let asks = |a: Option<PlayerResponse>|
                a is Some && !a->0.playability_status.ok && a->0.playability_status.status@
                    == "LOGIN_REQUIRED"@;
            let reached = answer(0) is Some || answer(1) is Some || answer(2) is Some;
            &&& outcome::reached_before(clients, req, w, FALLBACKS + 1) <==> reached
            &&& outcome::login_before(clients, req, w, FALLBACKS + 1) <==> {
                &&& reached
                &&& answer(0) is Some ==> asks(answer(0))
                &&& answer(1) is Some ==> asks(answer(1))
                &&& answer(2) is Some ==> asks(answer(2))
            }
        }),
{
    let one = outcome::leg_answer(clients, req, w, 1);
    let two = outcome::leg_answer(clients, req, w, 2);
    if outcome::reached_before(clients, req, w, FALLBACKS + 1) && outcome::metadata(
        clients,
        req,
        w,
    ) is None {
        let l = choose|l: int|
            1 <= l < FALLBACKS + 1 && #[trigger] outcome::leg_answer(clients, req, w, l) is Some;
        assert(l == 1 || l == 2);
    }
    assert forall|l: int|
        1 <= l < FALLBACKS + 1 && #[trigger] outcome::leg_answer(clients, req, w, l) is Some
            && (one is Some ==> chain::asks_login(one)) && (two is Some ==> chain::asks_login(
            two,
        )) implies chain::asks_login(outcome::leg_answer(clients, req, w, l)) by {
        assert(l == 1 || l == 2);
    }
}

} // verus!
