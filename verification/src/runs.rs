//! That no call of a resolution is made twice, so that whatever its calls are answered, one after the
//! other, can be given all at once as [`Replies`].
use vstd::prelude::*;

use crate::chain::{self, Event, PhaseText, ProgressText, Registry, ResolveRequest, Turn};
use crate::clients::FALLBACKS;
use crate::model::PlayerResponse;
use crate::outcome::{self, LegReplies, Replies};
use crate::playback::{self, Failure, PlaybackText, StreamText};
use crate::stream_url;
use crate::text;

verus! {

/// What kind of call a phase waits for, in the order in which they come.
pub open spec fn kind(phase: PhaseText) -> int {
    match phase {
        PhaseText::Timestamp => 0,
        PhaseText::SessionToken => 1,
        PhaseText::Main => 2,
        PhaseText::Creator => 3,
        PhaseText::Bar => 4,
        PhaseText::Answer => 5,
        PhaseText::Decipher(_) => 6,
        PhaseText::Transform(_) => 7,
        PhaseText::StreamToken(_) => 8,
        PhaseText::ProbeCookie(_) => 9,
        PhaseText::Probe { .. } => 10,
        PhaseText::Heal => 11,
        PhaseText::LastHeal(_) => 12,
        PhaseText::LastCookie(_) => 13,
        PhaseText::Extract => 14,
        PhaseText::ExtractProbe(_) => 15,
        PhaseText::Finished => 16,
    }
}

/// The place of the first call of a leg.
pub open spec fn leg_place(leg: int) -> int {
    4 + 8 * leg
}

/// The place of a call among all that a resolution can make: four before the chain, eight for each
/// leg (the stream that was set aside has one too), and those behind the chain.
pub open spec fn place(p: ProgressText, phase: PhaseText) -> int {
    if kind(phase) < 4 {
        kind(phase)
    } else if kind(phase) < 12 {
        leg_place(p.leg) + kind(phase) - 4
    } else {
        leg_place(FALLBACKS + 2) + kind(phase) - 12
    }
}

/// The phase and the progress of a turn belong together.
spec fn placed(t: Turn) -> bool {
    let k = kind(t.phase);
    &&& t.progress.leg >= 0
    &&& t.phase is Finished <==> t.action is Done
    &&& k < 4 ==> t.progress.leg == 0 && t.progress.best is None
    &&& t.phase is Bar ==> t.progress.leg == 0
    &&& 4 <= k < 9 ==> t.progress.leg <= FALLBACKS
    &&& 9 <= k < 12 ==> t.progress.leg <= FALLBACKS || (t.progress.leg == FALLBACKS + 1
        && t.progress.best is None)
}

/// A turn that belongs together, at this place or behind it.
spec fn from_place(t: Turn, at: int) -> bool {
    placed(t) && (t.action is Done || place(t.progress, t.phase) >= at)
}

proof fn seek_goes_on(clients: Registry, req: ResolveRequest, p: ProgressText)
    requires
        0 <= p.leg <= FALLBACKS + 2,
        p.best is Some ==> p.leg <= FALLBACKS + 1,
    ensures
        from_place(chain::seek(clients, req, p), leg_place(p.leg)),
    decreases FALLBACKS + 2 - p.leg,
{
    if p.leg <= FALLBACKS {
        seek_goes_on(clients, req, ProgressText { leg: p.leg + 1, ..p });
    }
}

proof fn settled_goes_on(
    clients: Registry,
    req: ResolveRequest,
    p: ProgressText,
    stream: StreamText,
)
    requires
        0 <= p.leg <= FALLBACKS,
    ensures
        from_place(chain::settled(clients, req, p, stream), leg_place(p.leg) + 5),
{
    seek_goes_on(
        clients,
        req,
        ProgressText { best: chain::better_of(p.best, stream), leg: p.leg + 1, ..p },
    );
}

proof fn located_goes_on(
    clients: Registry,
    req: ResolveRequest,
    p: ProgressText,
    stream: StreamText,
)
    requires
        0 <= p.leg <= FALLBACKS,
    ensures
        from_place(chain::located(clients, req, p, stream), leg_place(p.leg) + 3),
{
    settled_goes_on(clients, req, p, stream);
}

proof fn considered_goes_on(
    clients: Registry,
    req: ResolveRequest,
    p: ProgressText,
    resp: PlayerResponse,
)
    requires
        0 <= p.leg <= FALLBACKS,
    ensures
        from_place(chain::consider(clients, req, p, resp), leg_place(p.leg) + 2),
{
    seek_goes_on(clients, req, ProgressText { leg: p.leg + 1, ..p });
    if let Some(stream) = chain::offer(
        p.main,
        p.from_creator,
        resp,
        chain::leg_client(req.is_upload, p.from_creator, p.leg),
    ) {
        let q = ProgressText {
            loudness: match p.loudness {
                Some(l) => Some(l),
                None => playback::track_loudness(resp),
            },
            ..p
        };
        seek_goes_on(clients, req, ProgressText { leg: q.leg + 1, ..q });
        if let Some(url) = stream.format.direct_url {
            located_goes_on(clients, req, q, chain::at_url(stream, url@));
        }
    }
}

proof fn main_settled_goes_on(clients: Registry, req: ResolveRequest, p: ProgressText)
    requires
        p.best is None,
    ensures
        from_place(chain::main_settled(clients, req, p), leg_place(0)),
{
    seek_goes_on(
        clients,
        req,
        ProgressText {
            loudness: match p.main {
                Some(resp) => playback::track_loudness(resp),
                None => None,
            },
            reached: p.main is Some,
            login_wanted: chain::asks_login(p.main),
            leg: 0,
            ..p
        },
    );
}

/// Every answer leads to a call at a later place.
proof fn an_answer_leads_on(clients: Registry, req: ResolveRequest, t: Turn, event: Event)
    requires
        placed(t),
        chain::fits(t.phase, event),
    ensures
        from_place(
            chain::turn(clients, req, t.progress, t.phase, event),
            place(t.progress, t.phase) + 1,
        ),
{
    let p = t.progress;
    let next = ProgressText { leg: p.leg + 1, ..p };
    match (t.phase, event) {
        (PhaseText::Timestamp, Event::Timestamp(sts)) => {
            main_settled_goes_on(clients, req, ProgressText { sts, ..p });
        },
        (PhaseText::SessionToken, Event::Token(token)) => {
            main_settled_goes_on(
                clients,
                req,
                ProgressText { session_pot: text::opt_text(token), ..p },
            );
        },
        (PhaseText::Main, Event::Answer(answer)) => {
            main_settled_goes_on(clients, req, ProgressText { main: answer, ..p });
        },
        (PhaseText::Creator, Event::Answer(answer)) => {
            main_settled_goes_on(clients, req, p);
            main_settled_goes_on(
                clients,
                req,
                ProgressText { main: answer, from_creator: true, ..p },
            );
        },
        (PhaseText::Bar, Event::Barred(barred)) => {
            seek_goes_on(clients, req, next);
            if let Some(resp) = p.main {
                considered_goes_on(clients, req, p, resp);
            }
        },
        (PhaseText::Answer, Event::Answer(answer)) => {
            let q = ProgressText {
                reached: p.reached || answer is Some,
                login_wanted: if answer is Some {
                    chain::asks_login(answer) && (p.reached ==> p.login_wanted)
                } else {
                    p.login_wanted
                },
                ..p
            };
            seek_goes_on(clients, req, ProgressText { leg: q.leg + 1, ..q });
            if let Some(resp) = answer {
                considered_goes_on(clients, req, q, resp);
            }
        },
        (PhaseText::Decipher(stream), Event::Deciphered(found)) => {
            seek_goes_on(clients, req, next);
            if let Some(url) = found {
                located_goes_on(clients, req, p, chain::at_url(stream, url@));
            }
        },
        (PhaseText::Transform(stream), Event::Transformed(url)) => {
            settled_goes_on(clients, req, p, chain::at_url(stream, url@));
        },
        (PhaseText::StreamToken(stream), Event::Token(token)) => {
            settled_goes_on(clients, req, p, stream);
            if let Some(token) = token {
                settled_goes_on(
                    clients,
                    req,
                    p,
                    chain::at_url(stream, stream_url::with_token(stream.url, token@)),
                );
            }
        },
        (PhaseText::Probe { stream, headers }, Event::Probed(served)) => {
            seek_goes_on(clients, req, next);
            seek_goes_on(
                clients,
                req,
                ProgressText {
                    upload_fallback: chain::demotion(p, stream),
                    leg: p.leg + 1,
                    ..p
                },
            );
        },
        (PhaseText::Heal, Event::Healed) => {
            seek_goes_on(clients, req, next);
        },
        _ => {},
    }
}

/// A call that is awaited is answered in kind.
proof fn a_reply_fits(w: Replies, t: Turn)
    requires
        placed(t),
        !(t.action is Done),
    ensures
        chain::fits(t.phase, outcome::reply(w, t.progress, t.phase)),
{
}

proof fn every_turn_is_placed(clients: Registry, req: ResolveRequest, w: Replies, n: nat)
    ensures
        placed(outcome::nth_turn(clients, req, w, n)),
    decreases n,
{
    if n > 0 {
        every_turn_is_placed(clients, req, w, (n - 1) as nat);
        let t = outcome::nth_turn(clients, req, w, (n - 1) as nat);
        if !(t.action is Done) {
            a_reply_fits(w, t);
            an_answer_leads_on(clients, req, t, outcome::reply(w, t.progress, t.phase));
        }
    }
}

/// Calls come in the order of their places: none is made twice, so no two turns of a resolution wait
/// for the same kind of call at the same leg.
pub proof fn no_call_is_made_twice(
    clients: Registry,
    req: ResolveRequest,
    w: Replies,
    i: nat,
    j: nat,
)
    requires
        i < j,
        !(outcome::nth_turn(clients, req, w, j).action is Done),
    ensures
        ({
            let s = outcome::nth_turn(clients, req, w, i);
            let t = outcome::nth_turn(clients, req, w, j);
            &&& !(s.action is Done)
            &&& place(s.progress, s.phase) < place(t.progress, t.phase)
            &&& !(kind(s.phase) == kind(t.phase) && s.progress.leg == t.progress.leg)
        }),
    decreases j,
{
    let last = (j - 1) as nat;
    let t = outcome::nth_turn(clients, req, w, last);
    every_turn_is_placed(clients, req, w, last);
    a_reply_fits(w, t);
    an_answer_leads_on(clients, req, t, outcome::reply(w, t.progress, t.phase));
    if i < last {
        no_call_is_made_twice(clients, req, w, i, last);
    }
}

/// The turn that these answers lead to, one after the other.
pub open spec fn turn_along(clients: Registry, req: ResolveRequest, events: Seq<Event>) -> Turn
    decreases events.len(),
{
    if events.len() == 0 {
        chain::first_turn()
    } else {
        let t = turn_along(clients, req, events.drop_last());
        chain::turn(clients, req, t.progress, t.phase, events.last())
    }
}

/// Each of these answers is one to the call that is awaited when it comes.
pub open spec fn fitting(clients: Registry, req: ResolveRequest, events: Seq<Event>) -> bool {
    forall|i: int|
        0 <= i < events.len() ==> chain::fits(
            turn_along(clients, req, #[trigger] events.take(i)).phase,
            events[i],
        )
}

/// These replies lead along the same turns as the answers, one after the other.
pub open spec fn agree(
    clients: Registry,
    req: ResolveRequest,
    w: Replies,
    events: Seq<Event>,
) -> bool {
    forall|i: int|
        0 <= i <= events.len() ==> turn_along(clients, req, #[trigger] events.take(i))
            == outcome::nth_turn(clients, req, w, i as nat)
}

/// A leg's replies with the answer to one of its calls put in.
spec fn leg_with(l: LegReplies, phase: PhaseText, event: Event) -> LegReplies {
    match (phase, event) {
        (PhaseText::Answer, Event::Answer(answer)) => LegReplies { answer, ..l },
        (PhaseText::Decipher(_), Event::Deciphered(deciphered)) => LegReplies { deciphered, ..l },
        (PhaseText::Transform(_), Event::Transformed(transformed)) => LegReplies {
            transformed,
            ..l
        },
        (PhaseText::StreamToken(_), Event::Token(stream_token)) => LegReplies {
            stream_token,
            ..l
        },
        (PhaseText::ProbeCookie(_), Event::Cookie(cookie)) => LegReplies { cookie, ..l },
        (PhaseText::Probe { .. }, Event::Probed(served)) => LegReplies { served, ..l },
        _ => l,
    }
}

/// The replies with the answer to one call put in.
spec fn with_reply(w: Replies, p: ProgressText, phase: PhaseText, event: Event) -> Replies {
    match (phase, event) {
        (PhaseText::Timestamp, Event::Timestamp(sts)) => Replies { sts, ..w },
        (PhaseText::SessionToken, Event::Token(session_token)) => Replies { session_token, ..w },
        (PhaseText::Main, Event::Answer(main)) => Replies { main, ..w },
        (PhaseText::Creator, Event::Answer(creator)) => Replies { creator, ..w },
        (PhaseText::Bar, Event::Barred(barred)) => Replies { barred, ..w },
        (PhaseText::LastCookie(_), Event::Cookie(last_cookie)) => Replies { last_cookie, ..w },
        (PhaseText::Extract, Event::Extracted(extracted)) => Replies { extracted, ..w },
        (PhaseText::ExtractProbe(_), Event::Probed(extract_served)) => Replies {
            extract_served,
            ..w
        },
        _ => if p.leg <= FALLBACKS {
            Replies { legs: w.legs.update(p.leg, leg_with(w.legs[p.leg], phase, event)), ..w }
        } else {
            match (phase, event) {
                (PhaseText::ProbeCookie(_), Event::Cookie(best_cookie)) => Replies {
                    best_cookie,
                    ..w
                },
                (PhaseText::Probe { .. }, Event::Probed(best_served)) => Replies {
                    best_served,
                    ..w
                },
                _ => w,
            }
        },
    }
}

/// The answer that was put in is the one that comes back.
proof fn an_answer_is_given_back(w: Replies, t: Turn, event: Event)
    requires
        placed(t),
        chain::fits(t.phase, event),
        w.legs.len() == FALLBACKS + 1,
    ensures
        outcome::reply(with_reply(w, t.progress, t.phase, event), t.progress, t.phase) == event,
        with_reply(w, t.progress, t.phase, event).legs.len() == FALLBACKS + 1,
{
}

/// The answers to the calls at other places stay what they were.
proof fn other_answers_stay(w: Replies, t: Turn, event: Event, other: Turn)
    requires
        placed(t),
        placed(other),
        !(other.action is Done),
        chain::fits(t.phase, event),
        w.legs.len() == FALLBACKS + 1,
        place(t.progress, t.phase) != place(other.progress, other.phase),
    ensures
        outcome::reply(
            with_reply(w, t.progress, t.phase, event),
            other.progress,
            other.phase,
        ) == outcome::reply(w, other.progress, other.phase),
{
    let x = with_reply(w, t.progress, t.phase, event);
    let leg = other.progress.leg;
    if 4 <= kind(t.phase) < 12 && 4 <= kind(other.phase) < 12 && t.progress.leg == leg {
        assert(kind(t.phase) != kind(other.phase));
    }
    if 0 <= leg <= FALLBACKS && leg != t.progress.leg {
        assert(x.legs[leg] == w.legs[leg]);
    }
}

/// Putting in the answer to the call at turn `n` leaves the turns up to it as they were.
proof fn earlier_turns_stay(
    clients: Registry,
    req: ResolveRequest,
    w: Replies,
    n: nat,
    event: Event,
    i: nat,
)
    requires
        i <= n,
        chain::fits(outcome::nth_turn(clients, req, w, n).phase, event),
        w.legs.len() == FALLBACKS + 1,
    ensures
        ({
            let t = outcome::nth_turn(clients, req, w, n);
            outcome::nth_turn(
                clients,
                req,
                with_reply(w, t.progress, t.phase, event),
                i,
            ) == outcome::nth_turn(clients, req, w, i)
        }),
    decreases i,
{
    if i > 0 {
        let before = (i - 1) as nat;
        earlier_turns_stay(clients, req, w, n, event, before);
        let t = outcome::nth_turn(clients, req, w, n);
        let other = outcome::nth_turn(clients, req, w, before);
        every_turn_is_placed(clients, req, w, n);
        every_turn_is_placed(clients, req, w, before);
        no_call_is_made_twice(clients, req, w, before, n);
        other_answers_stay(w, t, event, other);
    }
}

/// The replies that these answers add up to.
proof fn replies_of(clients: Registry, req: ResolveRequest, events: Seq<Event>) -> (w: Replies)
    requires
        fitting(clients, req, events),
    ensures
        agree(clients, req, w, events),
        w.legs.len() == FALLBACKS + 1,
    decreases events.len(),
{
    if events.len() == 0 {
        let blank: Replies = arbitrary();
        let w = Replies { legs: Seq::new((FALLBACKS + 1) as nat, |i: int| arbitrary()), ..blank };
        assert(events.take(0) =~= events);
        w
    } else {
        let front = events.drop_last();
        let n = front.len();
        assert forall|i: int| 0 <= i <= n implies #[trigger] events.take(i) == front.take(i) by {
            assert(events.take(i) =~= front.take(i));
        }
        assert forall|i: int| 0 <= i < n implies chain::fits(
            turn_along(clients, req, #[trigger] front.take(i)).phase,
            front[i],
        ) by {
            assert(events.take(i) == front.take(i));
        }
        let w = replies_of(clients, req, front);
        let t = outcome::nth_turn(clients, req, w, n);
        let event = events.last();
        assert(front.take(n as int) =~= front);
        assert(events.take(n as int) == front);
        assert(turn_along(clients, req, front) == t);
        assert(chain::fits(t.phase, event));
        let x = with_reply(w, t.progress, t.phase, event);
        every_turn_is_placed(clients, req, w, n);
        an_answer_is_given_back(w, t, event);
        assert forall|i: int| 0 <= i <= events.len() implies turn_along(
            clients,
            req,
            #[trigger] events.take(i),
        ) == outcome::nth_turn(clients, req, x, i as nat) by {
            if i <= n {
                earlier_turns_stay(clients, req, w, n, event, i as nat);
                assert(events.take(i) == front.take(i));
            } else {
                earlier_turns_stay(clients, req, w, n, event, n);
                assert(events.take(i) =~= events);
                assert(outcome::nth_turn(clients, req, x, n) == t);
            }
        }
        x
    }
}

/// Whatever its calls are answered, one after the other, a resolution goes along the turns of some
/// [`Replies`] and makes at most [`outcome::MOST_CALLS`] calls. So what holds for all replies holds
/// of every run.
pub proof fn every_run_has_its_replies(clients: Registry, req: ResolveRequest, events: Seq<Event>)
    requires
        fitting(clients, req, events),
    ensures
        exists|w: Replies| agree(clients, req, w, events),
        events.len() <= outcome::MOST_CALLS,
{
    let w = replies_of(clients, req, events);
    assert(agree(clients, req, w, events));
    let most = outcome::MOST_CALLS as nat;
    if events.len() > most {
        outcome::resolution_comes_to_its_outcome(clients, req, w);
        every_turn_is_placed(clients, req, w, most);
        assert(turn_along(clients, req, events.take(most as int)).phase is Finished);
    }
}

/// Where a run ends, it ends with the outcome of its replies.
pub proof fn every_run_ends_with_its_outcome(
    clients: Registry,
    req: ResolveRequest,
    events: Seq<Event>,
    w: Replies,
    result: Result<PlaybackText, Failure>,
)
    requires
        agree(clients, req, w, events),
        turn_along(clients, req, events).action == chain::ActionText::Done(result),
    ensures
        result == outcome::outcome(clients, req, w),
{
    assert(events.take(events.len() as int) =~= events);
    outcome::resolution_comes_to_its_outcome(clients, req, w);
    let n = events.len();
    if n <= outcome::MOST_CALLS {
        an_end_stays(clients, req, w, n, outcome::MOST_CALLS as nat);
    } else {
        an_end_stays(clients, req, w, outcome::MOST_CALLS as nat, n);
    }
}

proof fn an_end_stays(clients: Registry, req: ResolveRequest, w: Replies, n: nat, m: nat)
    requires
        n <= m,
        outcome::nth_turn(clients, req, w, n).action is Done,
    ensures
        outcome::nth_turn(clients, req, w, m) == outcome::nth_turn(clients, req, w, n),
    decreases m,
{
    if n < m {
        an_end_stays(clients, req, w, n, (m - 1) as nat);
    }
}

} // verus!
