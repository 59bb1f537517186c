//! What each call of a resolution carries, whatever the calls before it were answered.
use vstd::prelude::*;

use crate::chain::{self, ActionText, Event, PhaseText, ProgressText, Registry, ResolveRequest, Turn};
use crate::clients::{FALLBACKS, MAIN_CLIENT};
use crate::legs;
use crate::model::{AudioQuality, PlayerResponse};
use crate::outcome::{self, Replies};
use crate::playback::{self, StreamText};
use crate::rules;
use crate::rustypipe_fallback::{FallbackError, StreamCandidate};
use crate::stream_url;
use crate::text;

verus! {

/// The main answer is settled, and so is what the calls before it brought.
spec fn informed(clients: Registry, req: ResolveRequest, w: Replies, p: ProgressText) -> bool {
    &&& p.sts == w.sts
    &&& p.session_pot == outcome::session_token(clients, req, w)
    &&& p.main == outcome::metadata(clients, req, w)
    &&& p.from_creator == outcome::replaced(clients, req, w)
}

/// A leg of a client is being tried, and the streams kept so far are those of the legs before it.
spec fn on_client(clients: Registry, req: ResolveRequest, w: Replies, p: ProgressText) -> bool {
    &&& informed(clients, req, w, p)
    &&& 0 <= p.leg <= FALLBACKS
    &&& p.best == outcome::best_before(clients, req, w, p.leg)
    &&& p.upload_fallback == outcome::refused_before(clients, req, w, p.leg)
}

/// The leg that is tried next, or what comes behind the last one.
spec fn heading(clients: Registry, req: ResolveRequest, w: Replies, p: ProgressText) -> bool {
    ||| on_client(clients, req, w, p)
    ||| {
        &&& informed(clients, req, w, p)
        &&& p.leg == FALLBACKS + 1
        &&& p.best == outcome::best_before(clients, req, w, p.leg)
        &&& p.upload_fallback == outcome::refused_before(clients, req, w, p.leg)
    }
    ||| {
        &&& informed(clients, req, w, p)
        &&& p.leg == FALLBACKS + 2
        &&& p.best is None
        &&& p.upload_fallback == outcome::demoted(clients, req, w)
    }
}

/// The stream that is probed at a leg.
spec fn probes(
    clients: Registry,
    req: ResolveRequest,
    w: Replies,
    p: ProgressText,
    stream: StreamText,
) -> bool {
    if p.leg <= FALLBACKS {
        &&& on_client(clients, req, w, p)
        &&& outcome::leg_stream(clients, req, w, p.leg) == Some(stream)
        &&& !outcome::leg_set_aside(clients, req, w, p.leg)
    } else {
        &&& informed(clients, req, w, p)
        &&& p.leg == FALLBACKS + 1
        &&& p.best is None
        &&& p.upload_fallback == outcome::refused_before(clients, req, w, p.leg)
        &&& outcome::best_before(clients, req, w, p.leg) == Some(stream)
    }
}

/// The cookie that the probe of a leg goes by.
pub open spec fn probe_cookie(w: Replies, leg: int) -> Option<String> {
    if leg <= FALLBACKS {
        w.legs[leg].cookie
    } else {
        w.best_cookie
    }
}

/// A turn that follows from what the calls before it were answered.
spec fn follows(clients: Registry, req: ResolveRequest, w: Replies, t: Turn) -> bool {
    let p = t.progress;
    let first = ProgressText {
        sts: w.sts,
        session_pot: outcome::session_token(clients, req, w),
        ..chain::blank()
    };
    let main_on = clients.contains_key(MAIN_CLIENT@) && !req.disabled@.contains(MAIN_CLIENT@);
    match t.phase {
        PhaseText::Timestamp => p == chain::blank() && t.action is SignatureTimestamp,
        PhaseText::SessionToken => {
            &&& p == (ProgressText { sts: w.sts, ..chain::blank() })
            &&& chain::wants_token(clients, req)
            &&& req.visitor matches Some(v) && t.action == (ActionText::SessionToken {
                visitor: v@,
            })
        },
        PhaseText::Main => {
            &&& p == first
            &&& main_on
            &&& t.action matches ActionText::Player(call)
            &&& call.client == MAIN_CLIENT@
            &&& call.playlist_id == chain::playlist_of(req.is_upload)
            &&& call.sts == w.sts
            &&& call.pot == p.session_pot
        },
        PhaseText::Creator => {
            &&& p == (ProgressText { main: w.main, ..first })
            &&& main_on
            &&& chain::retried(clients, req, w.main)
            &&& t.action == ActionText::Player(chain::call_to(clients, req, p, "WEB_CREATOR"@))
        },
        PhaseText::Bar => {
            &&& on_client(clients, req, w, p)
            &&& p.leg == 0
            &&& chain::is_ok(p.main)
            &&& !req.disabled@.contains(MAIN_CLIENT@)
            &&& t.action is CheckBar
        },
        PhaseText::Answer => {
            let key = chain::leg_key(req.is_upload, p.leg);
            &&& on_client(clients, req, w, p)
            &&& p.leg >= 1
            &&& chain::askable(clients, req, p.session_pot, key)
            &&& t.action == ActionText::Player(chain::call_to(clients, req, p, key))
        },
        PhaseText::Decipher(s) => {
            &&& on_client(clients, req, w, p)
            &&& outcome::leg_offer(clients, req, w, p.leg) == Some(s)
            &&& s.format.direct_url is None
            &&& s.format.cipher_string matches Some(cipher) && t.action == (ActionText::Decipher {
                cipher: cipher@,
            })
        },
        PhaseText::Transform(s) => {
            &&& on_client(clients, req, w, p)
            &&& outcome::raw_url(clients, req, w, p.leg) == Some(s.url)
            &&& chain::needs_transform(clients, outcome::leg_client(clients, req, w, p.leg), s.url)
            &&& s == (StreamText {
                url: s.url,
                web: true,
                ..outcome::leg_offer(clients, req, w, p.leg)->0
            })
            &&& t.action == (ActionText::TransformN { url: s.url })
        },
        PhaseText::StreamToken(s) => {
            &&& on_client(clients, req, w, p)
            &&& outcome::raw_url(clients, req, w, p.leg) is Some
            &&& chain::needs_transform(
                clients,
                outcome::leg_client(clients, req, w, p.leg),
                outcome::raw_url(clients, req, w, p.leg)->0,
            )
            &&& chain::uses_tokens(clients, chain::leg_key(req.is_upload, p.leg))
            &&& s == (StreamText {
                url: w.legs[p.leg].transformed@,
                web: true,
                ..outcome::leg_offer(clients, req, w, p.leg)->0
            })
            &&& req.visitor matches Some(v) && t.action == (ActionText::StreamToken {
                visitor: v@,
            })
        },
        PhaseText::ProbeCookie(s) => probes(clients, req, w, p, s) && t.action is ReadCookie,
        PhaseText::Probe { stream, headers } => {
            &&& probes(clients, req, w, p, stream)
            &&& headers == playback::header_map(
                chain::user_agent(clients, stream.client),
                text::opt_text(probe_cookie(w, p.leg)),
                req.is_upload,
            )
            &&& t.action == (ActionText::Probe {
                url: stream.url,
                headers,
                content_length: playback::reported_length(stream.format),
            })
        },
        PhaseText::Heal => {
            &&& !req.is_upload
            &&& t.action is SelfHeal
            &&& exists|stream: StreamText| #[trigger]
                probes(clients, req, w, p, stream) && stream.web
            &&& !(if p.leg <= FALLBACKS {
                w.legs[p.leg].served
            } else {
                w.best_served
            })
        },
        PhaseText::LastHeal(s) => {
            &&& req.is_upload
            &&& outcome::demoted(clients, req, w) == Some(s)
            &&& t.action is SelfHeal
        },
        PhaseText::LastCookie(s) => {
            &&& req.is_upload
            &&& outcome::demoted(clients, req, w) == Some(s)
            &&& t.action is ReadCookie
        },
        PhaseText::Extract => {
            &&& !req.is_upload
            &&& t.action == (ActionText::Extract { prefer_high: chain::prefers_high(req.quality) })
        },
        PhaseText::ExtractProbe(c) => {
            &&& !req.is_upload
            &&& w.extracted == Ok::<StreamCandidate, FallbackError>(c)
            &&& t.action == (ActionText::Probe {
                url: c.url@,
                headers: Map::empty(),
                content_length: Some(c.size),
            })
        },
        PhaseText::Finished => t.action is Done,
    }
}

/// A turn that follows, and that a leg which is left can lead to.
spec fn goes_on(clients: Registry, req: ResolveRequest, w: Replies, t: Turn) -> bool {
    follows(clients, req, w, t) && !(t.phase is LastCookie) && !(t.phase is Heal)
}

proof fn seek_follows(clients: Registry, req: ResolveRequest, w: Replies, p: ProgressText)
    requires
        heading(clients, req, w, p),
    ensures
        goes_on(clients, req, w, chain::seek(clients, req, p)),
    decreases FALLBACKS + 2 - p.leg,
{
    if p.leg > FALLBACKS {
        legs::the_first_refused_stream_is_kept(clients, req, w, FALLBACKS + 1);
    } else {
        let next = ProgressText { leg: p.leg + 1, ..p };
        if p.leg == 0 {
            if !(chain::is_ok(p.main) && !req.disabled@.contains(MAIN_CLIENT@)) {
                assert(outcome::leg_stream(clients, req, w, 0) is None);
                seek_follows(clients, req, w, next);
            }
        } else if !chain::askable(
            clients,
            req,
            p.session_pot,
            chain::leg_key(req.is_upload, p.leg),
        ) {
            assert(outcome::leg_stream(clients, req, w, p.leg) is None);
            seek_follows(clients, req, w, next);
        }
    }
}

proof fn settled_follows(
    clients: Registry,
    req: ResolveRequest,
    w: Replies,
    p: ProgressText,
    stream: StreamText,
)
    requires
        on_client(clients, req, w, p),
        outcome::leg_stream(clients, req, w, p.leg) == Some(stream),
    ensures
        goes_on(clients, req, w, chain::settled(clients, req, p, stream)),
{
    if chain::set_aside(req.quality, p.main, stream.format) {
        seek_follows(
            clients,
            req,
            w,
            ProgressText { best: chain::better_of(p.best, stream), leg: p.leg + 1, ..p },
        );
    }
}

proof fn located_follows(
    clients: Registry,
    req: ResolveRequest,
    w: Replies,
    p: ProgressText,
    url: Seq<char>,
)
    requires
        on_client(clients, req, w, p),
        outcome::raw_url(clients, req, w, p.leg) == Some(url),
    ensures
        goes_on(
            clients,
            req,
            w,
            chain::located(
                clients,
                req,
                p,
                chain::at_url(outcome::leg_offer(clients, req, w, p.leg)->0, url),
            ),
        ),
{
    let stream = chain::at_url(outcome::leg_offer(clients, req, w, p.leg)->0, url);
    if !chain::needs_transform(clients, stream.client, url) {
        assert(outcome::leg_stream(clients, req, w, p.leg) == Some(stream));
        settled_follows(clients, req, w, p, stream);
    }
}

proof fn considered_follows(
    clients: Registry,
    req: ResolveRequest,
    w: Replies,
    p: ProgressText,
    resp: PlayerResponse,
)
    requires
        on_client(clients, req, w, p),
        outcome::leg_answer(clients, req, w, p.leg) == Some(resp),
        resp.playability_status.ok,
    ensures
        goes_on(clients, req, w, chain::consider(clients, req, p, resp)),
{
    match outcome::leg_offer(clients, req, w, p.leg) {
        Some(stream) => {
            let q = ProgressText {
                loudness: match p.loudness {
                    Some(l) => Some(l),
                    None => playback::track_loudness(resp),
                },
                ..p
            };
            match (stream.format.direct_url, stream.format.cipher_string) {
                (Some(url), _) => {
                    located_follows(clients, req, w, q, url@);
                },
                (None, Some(_)) => {},
                (None, None) => {
                    assert(outcome::leg_stream(clients, req, w, p.leg) is None);
                    seek_follows(clients, req, w, ProgressText { leg: q.leg + 1, ..q });
                },
            }
        },
        None => {
            assert(outcome::leg_stream(clients, req, w, p.leg) is None);
            seek_follows(clients, req, w, ProgressText { leg: p.leg + 1, ..p });
        },
    }
}

proof fn main_settled_follows(clients: Registry, req: ResolveRequest, w: Replies, p: ProgressText)
    requires
        informed(clients, req, w, p),
        p.best is None,
        p.upload_fallback is None,
    ensures
        goes_on(clients, req, w, chain::main_settled(clients, req, p)),
{
    seek_follows(
        clients,
        req,
        w,
        ProgressText {
            loudness: match p.main {
                Some(resp) => playback::track_loudness(resp),
                None => None,
            },
            reached: p.main is Some,
            login_wanted: chain::asks_login(p.main),
            leg: 0,
            ..p
        },
    );
}

proof fn ask_main_follows(clients: Registry, req: ResolveRequest, w: Replies)
    ensures
        ({
            let first = ProgressText {
                sts: w.sts,
                session_pot: outcome::session_token(clients, req, w),
                ..chain::blank()
            };
            goes_on(clients, req, w, chain::ask_main(clients, req, first))
        }),
{
    let first = ProgressText {
        sts: w.sts,
        session_pot: outcome::session_token(clients, req, w),
        ..chain::blank()
    };
    if !(clients.contains_key(MAIN_CLIENT@) && !req.disabled@.contains(MAIN_CLIENT@)) {
        main_settled_follows(clients, req, w, first);
    }
}

/// What a call is answered leads to a turn that follows.
proof fn an_answer_follows(clients: Registry, req: ResolveRequest, w: Replies, t: Turn)
    requires
        follows(clients, req, w, t),
        !(t.action is Done),
    ensures
        ({
            let next = outcome::after(clients, req, w, t);
            &&& follows(clients, req, w, next)
            &&& next.phase is LastCookie ==> t.phase is LastHeal
            &&& next.phase is Heal ==> t.phase is Probe
        }),
{
    let p = t.progress;
    let leg = p.leg;
    let next = ProgressText { leg: leg + 1, ..p };
    match t.phase {
        PhaseText::Timestamp => {
            if !(req.visitor is Some && chain::wants_token(clients, req)) {
                ask_main_follows(clients, req, w);
            }
        },
        PhaseText::SessionToken => {
            ask_main_follows(clients, req, w);
        },
        PhaseText::Main => {
            if !chain::retried(clients, req, w.main) {
                main_settled_follows(clients, req, w, ProgressText { main: w.main, ..p });
            }
        },
        PhaseText::Creator => {
            match w.creator {
                Some(resp) => {
                    main_settled_follows(
                        clients,
                        req,
                        w,
                        ProgressText { main: Some(resp), from_creator: true, ..p },
                    );
                },
                None => {
                    main_settled_follows(clients, req, w, p);
                },
            }
        },
        PhaseText::Bar => {
            if w.barred {
                assert(outcome::leg_stream(clients, req, w, leg) is None);
                seek_follows(clients, req, w, next);
            } else {
                considered_follows(clients, req, w, p, p.main->0);
            }
        },
        PhaseText::Answer => {
            let answer = w.legs[leg].answer;
            let q = ProgressText {
                reached: p.reached || answer is Some,
                login_wanted: if answer is Some {
                    chain::asks_login(answer) && (p.reached ==> p.login_wanted)
                } else {
                    p.login_wanted
                },
                ..p
            };
            assert(outcome::leg_answer(clients, req, w, leg) == answer);
            if chain::is_ok(answer) {
                considered_follows(clients, req, w, q, answer->0);
            } else {
                assert(outcome::leg_stream(clients, req, w, leg) is None);
                seek_follows(clients, req, w, ProgressText { leg: leg + 1, ..q });
            }
        },
        PhaseText::Decipher(s) => {
            match w.legs[leg].deciphered {
                Some(url) => {
                    located_follows(clients, req, w, p, url@);
                },
                None => {
                    assert(outcome::leg_stream(clients, req, w, leg) is None);
                    seek_follows(clients, req, w, next);
                },
            }
        },
        PhaseText::Transform(s) => {
            let moved = chain::at_url(s, w.legs[leg].transformed@);
            if !(req.visitor is Some && chain::uses_tokens(
                clients,
                chain::leg_key(req.is_upload, leg),
            )) {
                assert(outcome::leg_stream(clients, req, w, leg) == Some(moved));
                settled_follows(clients, req, w, p, moved);
            }
        },
        PhaseText::StreamToken(s) => {
            let last = match w.legs[leg].stream_token {
                Some(token) => chain::at_url(s, stream_url::with_token(s.url, token@)),
                None => s,
            };
            assert(outcome::leg_stream(clients, req, w, leg) == Some(last));
            settled_follows(clients, req, w, p, last);
        },
        PhaseText::Probe { stream, headers } => {
            let served = if leg <= FALLBACKS {
                w.legs[leg].served
            } else {
                w.best_served
            };
            if !served {
                legs::the_first_refused_stream_is_kept(clients, req, w, FALLBACKS + 1);
                if req.is_upload {
                    seek_follows(
                        clients,
                        req,
                        w,
                        ProgressText {
                            upload_fallback: chain::demotion(p, stream),
                            leg: leg + 1,
                            ..p
                        },
                    );
                } else if stream.web {
                    assert(probes(clients, req, w, p, stream));
                } else {
                    refused_is_passed_over(clients, req, w, p, stream);
                    seek_follows(clients, req, w, next);
                }
            }
        },
        PhaseText::Heal => {
            let stream = choose|stream: StreamText| #[trigger]
                probes(clients, req, w, p, stream) && stream.web;
            refused_is_passed_over(clients, req, w, p, stream);
            seek_follows(clients, req, w, next);
        },
        _ => {},
    }
}

/// Behind an ordinary track's refused stream the chain goes on with what it had.
proof fn refused_is_passed_over(
    clients: Registry,
    req: ResolveRequest,
    w: Replies,
    p: ProgressText,
    stream: StreamText,
)
    requires
        !req.is_upload,
        probes(clients, req, w, p, stream),
    ensures
        heading(clients, req, w, ProgressText { leg: p.leg + 1, ..p }),
{
    legs::the_first_refused_stream_is_kept(clients, req, w, FALLBACKS + 1);
}

proof fn every_turn_follows(clients: Registry, req: ResolveRequest, w: Replies, n: nat)
    ensures
        follows(clients, req, w, outcome::nth_turn(clients, req, w, n)),
    decreases n,
{
    if n > 0 {
        every_turn_follows(clients, req, w, (n - 1) as nat);
        let t = outcome::nth_turn(clients, req, w, (n - 1) as nat);
        if !(t.action is Done) {
            an_answer_follows(clients, req, w, t);
        }
    }
}

/// What a resolution accepts next is an answer of the kind that it asked for, and any such answer;
/// once it is done it accepts nothing.
pub proof fn a_call_is_answered_in_kind(
    clients: Registry,
    req: ResolveRequest,
    w: Replies,
    n: nat,
    event: Event,
)
    ensures
        ({
            let t = outcome::nth_turn(clients, req, w, n);
            chain::fits(t.phase, event) <==> match t.action {
                ActionText::SignatureTimestamp => event is Timestamp,
                ActionText::SessionToken { .. } => event is Token,
                ActionText::Player(_) => event is Answer,
                ActionText::CheckBar => event is Barred,
                ActionText::Decipher { .. } => event is Deciphered,
                ActionText::TransformN { .. } => event is Transformed,
                ActionText::StreamToken { .. } => event is Token,
                ActionText::ReadCookie => event is Cookie,
                ActionText::Probe { .. } => event is Probed,
                ActionText::SelfHeal => event is Healed,
                ActionText::Extract { .. } => event is Extracted,
                ActionText::Done(_) => false,
            }
        }),
{
    every_turn_follows(clients, req, w, n);
}

/// A session token is minted, and a streaming token, for the visitor of the request.
pub proof fn tokens_are_minted_for_the_visitor(
    clients: Registry,
    req: ResolveRequest,
    w: Replies,
    n: nat,
)
    ensures
        ({
            let action = outcome::nth_turn(clients, req, w, n).action;
            &&& action matches ActionText::SessionToken { visitor } ==> req.visitor is Some
                && visitor == req.visitor->0@
            &&& action matches ActionText::StreamToken { visitor } ==> req.visitor is Some
                && visitor == req.visitor->0@
        }),
{
    every_turn_follows(clients, req, w, n);
}

/// Every `/player` call names the uploads playlist for an upload and none otherwise. The main
/// client's carries the timestamp and the session token; any other client's carries each of them
/// exactly where the registry says that the client uses it. No call goes to a client that is not
/// registered.
pub proof fn a_player_call_carries_what_its_client_needs(
    clients: Registry,
    req: ResolveRequest,
    w: Replies,
    n: nat,
)
    ensures
        ({
            let t = outcome::nth_turn(clients, req, w, n);
            let pot = outcome::session_token(clients, req, w);
            t.action matches ActionText::Player(call) ==> {
                &&& clients.contains_key(call.client)
                &&& req.is_upload ==> call.playlist_id == Some("MLPT"@)
                &&& !req.is_upload ==> call.playlist_id is None
                &&& t.phase is Main ==> call.client == "WEB_REMIX"@ && !req.disabled@.contains(
                    "WEB_REMIX"@,
                ) && call.sts == w.sts && call.pot == pot
                &&& t.phase is Creator ==> call.client == "WEB_CREATOR"@ && req.logged_in && w.main
                    is Some && w.main->0.playability_status.age_gated
                &&& !(t.phase is Main) ==> {
                    &&& call.sts == (if clients[call.client].use_signature_timestamp {
                        w.sts
                    } else {
                        None
                    })
                    &&& call.pot == (if clients[call.client].use_web_po_tokens {
                        pot
                    } else {
                        None
                    })
                }
                &&& t.phase is Answer ==> {
                    &&& 1 <= t.progress.leg <= 2
                    &&& call.client == (if req.is_upload {
                        if t.progress.leg == 1 {
                            "TVHTML5"@
                        } else {
                            "WEB_CREATOR"@
                        }
                    } else {
                        if t.progress.leg == 1 {
                            "VISIONOS"@
                        } else {
                            "TVHTML5_SIMPLY"@
                        }
                    })
                    &&& !req.disabled@.contains(call.client)
                    &&& clients[call.client].login_required ==> req.logged_in
                    &&& clients[call.client].use_web_po_tokens ==> pot is Some
                }
            }
        }),
{
    every_turn_follows(clients, req, w, n);
    rules::each_kind_has_its_order();
}

/// What is deciphered is the cipher of the current leg's picked format, and only where that has no
/// plain URL; what is transformed is the URL that the leg's stream came with.
pub proof fn a_url_is_worked_on_as_it_came(
    clients: Registry,
    req: ResolveRequest,
    w: Replies,
    n: nat,
)
    ensures
        ({
            let t = outcome::nth_turn(clients, req, w, n);
            let leg = t.progress.leg;
            &&& t.action matches ActionText::Decipher { cipher } ==> {
                &&& 0 <= leg <= FALLBACKS
                &&& outcome::leg_answer(clients, req, w, leg) matches Some(resp)
                &&& resp.streaming_data matches Some(s)
                &&& s.picked matches Some(f)
                &&& f.direct_url is None
                &&& f.cipher_string is Some
                &&& f.cipher_string->0@ == cipher
            }
            &&& t.action matches ActionText::TransformN { url } ==> 0 <= leg <= FALLBACKS
                && outcome::raw_url(clients, req, w, leg) == Some(url)
        }),
{
    every_turn_follows(clients, req, w, n);
}

/// Every probe is of a stream that a leg came up with, of the best one that was set aside, or of what
/// the extractor found. It goes to that stream's URL and aims at the length that its format reported.
/// It carries the user agent of the stream's client, where that is registered, and an upload's the
/// cookie; the extractor's carries nothing.
pub proof fn a_probe_is_of_a_stream_at_hand(
    clients: Registry,
    req: ResolveRequest,
    w: Replies,
    n: nat,
)
    ensures
        ({
            let t = outcome::nth_turn(clients, req, w, n);
            let leg = t.progress.leg;
            t.action matches ActionText::Probe { url, headers, content_length } ==> {
                ||| {
                    &&& w.extracted matches Ok(c)
                    &&& !req.is_upload
                    &&& url == c.url@
                    &&& content_length == Some(c.size)
                    &&& forall|name: Seq<char>| !headers.contains_key(name)
                }
                ||| {
                    let stream = (if leg <= FALLBACKS {
                        outcome::leg_stream(clients, req, w, leg)
                    } else {
                        outcome::best_before(clients, req, w, FALLBACKS + 1)
                    });
                    &&& stream matches Some(s)
                    &&& url == s.url
                    &&& content_length == playback::reported_length(s.format)
                    &&& headers.contains_key("User-Agent"@) <==> clients.contains_key(s.client)
                    &&& clients.contains_key(s.client) ==> headers["User-Agent"@]
                        == clients[s.client].user_agent@
                    &&& headers.contains_key("Cookie"@) <==> req.is_upload && probe_cookie(w, leg)
                        is Some
                    &&& req.is_upload && probe_cookie(w, leg) is Some ==> headers["Cookie"@]
                        == probe_cookie(w, leg)->0@
                }
            }
        }),
{
    every_turn_follows(clients, req, w, n);
    let t = outcome::nth_turn(clients, req, w, n);
    if let PhaseText::Probe { stream, headers } = t.phase {
        let agent = chain::user_agent(clients, stream.client);
        let jar = text::opt_text(probe_cookie(w, t.progress.leg));
        rules::headers_are_agent_and_cookie(agent, jar, req.is_upload, "User-Agent"@);
        rules::headers_are_agent_and_cookie(agent, jar, req.is_upload, "Cookie"@);
        reveal_strlit("User-Agent");
        reveal_strlit("Cookie");
        assert("User-Agent"@.len() != "Cookie"@.len());
    }
}

/// The extractor is asked for ordinary tracks only, and for high quality exactly where that was asked
/// for by name or the choice was left open.
pub proof fn the_extractor_is_asked_for_the_wanted_quality(
    clients: Registry,
    req: ResolveRequest,
    w: Replies,
    n: nat,
)
    ensures
        outcome::nth_turn(clients, req, w, n).action matches ActionText::Extract { prefer_high }
            ==> {
            &&& !req.is_upload
            &&& req.quality == AudioQuality::High ==> prefer_high
            &&& req.quality == AudioQuality::Auto ==> prefer_high
            &&& req.quality == AudioQuality::Low ==> !prefer_high
        },
{
    every_turn_follows(clients, req, w, n);
}

/// Right behind a refused probe of an ordinary track a self-heal is set off, exactly if the stream is
/// a web client's on the stream CDN.
pub proof fn a_refused_web_stream_sets_off_a_self_heal(
    clients: Registry,
    req: ResolveRequest,
    w: Replies,
    n: nat,
    stream: StreamText,
)
    requires
        !req.is_upload,
        outcome::nth_turn(clients, req, w, n).phase matches PhaseText::Probe { stream: s, .. } && s
            == stream,
        outcome::reply(
            w,
            outcome::nth_turn(clients, req, w, n).progress,
            outcome::nth_turn(clients, req, w, n).phase,
        ) == Event::Probed(false),
    ensures
        outcome::nth_turn(clients, req, w, n + 1).action is SelfHeal <==> stream.web,
        outcome::nth_turn(clients, req, w, n).progress.leg <= FALLBACKS ==> outcome::leg_stream(
            clients,
            req,
            w,
            outcome::nth_turn(clients, req, w, n).progress.leg,
        ) == Some(stream),
{
    every_turn_follows(clients, req, w, n);
    every_turn_follows(clients, req, w, n + 1);
    let t = outcome::nth_turn(clients, req, w, n);
    if !stream.web {
        refused_is_passed_over(clients, req, w, t.progress, stream);
        seek_follows(
            clients,
            req,
            w,
            ProgressText { leg: t.progress.leg + 1, ..t.progress },
        );
    }
}

/// An upload's stream that no probe passed is handed out behind a self-heal only.
pub proof fn an_unprobed_upload_sets_off_a_self_heal(
    clients: Registry,
    req: ResolveRequest,
    w: Replies,
    n: nat,
)
    requires
        outcome::nth_turn(clients, req, w, n + 1).phase is LastCookie,
    ensures
        outcome::nth_turn(clients, req, w, n).action is SelfHeal,
        req.is_upload,
{
    every_turn_follows(clients, req, w, n);
    every_turn_follows(clients, req, w, n + 1);
    let t = outcome::nth_turn(clients, req, w, n);
    if !(t.action is Done) {
        an_answer_follows(clients, req, w, t);
    }
}

} // verus!
