//! The brain of the playback path: the client registry and what is remembered across tracks.
use vstd::prelude::*;

use crate::chain::{self, Event, ResolveRequest};
use crate::clients::{self, Clients};
use crate::failures::{self, blacklist_blocks, blacklist_insert, claim_heal, HealGate};
use crate::model::{copy_text, PlayerResponse};
use crate::playback;
use crate::resolver::{self, client_headers, Action, PlayerCall, Resolver};
use crate::string_map::{StringMap, StringSet};
use crate::text;

verus! {

/// The client whose video streams are shown. Its URLs are plain, so no cipher is needed.
pub const VIDEO_CLIENT: &'static str = "VISIONOS";

/// The registry, the tracks whose main-client stream failed lately, and when a self-heal was last
/// let through. Times are nanoseconds on one monotonic clock.
pub struct Orchestrator {
    clients: Clients,
    web_remix_failed: StringMap<u64>,
    heal: HealGate,
}

/// The URL of the picked video format, where an answer serves the track and that format came with a
/// plain URL.
pub open spec fn plain_video_url(answer: Option<PlayerResponse>) -> Option<Seq<char>> {
    match answer {
        Some(resp) if resp.playability_status.ok => match resp.streaming_data {
            Some(s) => match s.picked {
                Some(format) => text::opt_text(format.direct_url),
                None => None,
            },
            None => None,
        },
        _ => None,
    }
}

impl Orchestrator {
    /// The client registry.
    pub closed spec fn registry(self) -> chain::Registry {
        self.clients@
    }

    /// When each track's main-client stream last failed.
    pub closed spec fn failures(self) -> Map<Seq<char>, u64> {
        self.web_remix_failed@
    }

    /// When a self-heal was last let through.
    pub closed spec fn gate(self) -> HealGate {
        self.heal
    }

    /// An orchestrator over `clients` that remembers nothing.
    pub fn new(clients: Clients) -> (r: Self)
        ensures
            r.registry() == clients@,
            r.failures() == Map::<Seq<char>, u64>::empty(),
            r.gate().last is None,
    {
        Orchestrator { clients, web_remix_failed: StringMap::new(), heal: HealGate::new() }
    }

    /// Records that a main-client stream died in the player. The next resolve of the track leaves
    /// that client's stream out.
    pub fn mark_web_remix_failed(&mut self, video_id: &str, now: u64)
        ensures
            final(self).failures() == failures::unexpired(
                old(self).failures(),
                now,
            ).insert(video_id@, now),
            final(self).registry() == old(self).registry(),
            final(self).gate() == old(self).gate(),
    {
        blacklist_insert(&mut self.web_remix_failed, video_id, now);
    }

    /// Is the main client barred for this track?
    pub fn web_remix_barred(&self, video_id: &str, now: u64) -> (r: bool)
        ensures
            r == failures::unexpired(self.failures(), now).contains_key(video_id@),
            r <==> self.failures().contains_key(video_id@) && now - self.failures()[video_id@] < 30
                * 60 * 1_000_000_000,
    {
        blacklist_blocks(&self.web_remix_failed, video_id, now)
    }

    /// Looks up a client by its registry key.
    pub fn client(&self, key: &str) -> (r: Option<&clients::YouTubeClient>)
        ensures
            r == (if self.registry().contains_key(key@) {
                Some(&self.registry()[key@])
            } else {
                None
            }),
    {
        self.clients.get(key)
    }

    /// Starts to resolve a track to a playable stream.
    pub fn resolve(&self, request: ResolveRequest) -> (r: (Resolver, Action))
        ensures
            r.0.request() == request,
            resolver::turn_of(r) == chain::first_turn(),
    {
        Resolver::start(request)
    }

    /// Hands a resolution the answer to the call it asked for.
    pub fn advance(&self, resolver: Resolver, event: Event) -> (r: (Resolver, Action))
        requires
            chain::fits(resolver.phase(), event),
        ensures
            r.0.request() == resolver.request(),
            resolver::turn_of(r) == chain::turn(
                self.registry(),
                resolver.request(),
                resolver.progress(),
                resolver.phase(),
                event,
            ),
    {
        resolver.advance(&self.clients, event)
    }

    /// The call that looks for a video stream, unless its client is off or unknown. It carries
    /// neither a timestamp nor a token.
    pub fn resolve_video(&self, disabled: &StringSet) -> (r: Option<PlayerCall>)
        ensures
            r is Some <==> !disabled@.contains("VISIONOS"@) && self.registry().contains_key(
                "VISIONOS"@,
            ),
            r matches Some(call) ==> call@ == (chain::CallText {
                client: "VISIONOS"@,
                playlist_id: None,
                sts: None,
                pot: None,
            }),
    {
        if disabled.contains(VIDEO_CLIENT) || self.clients.get(VIDEO_CLIENT).is_none() {
            return None;
        }
        Some(
            PlayerCall {
                client: VIDEO_CLIENT.to_owned(),
                playlist_id: None,
                sts: None,
                pot: None,
            },
        )
    }

    /// The video URL that such a call found. `None` means that the view keeps the artwork.
    pub fn video_url(answer: &Option<PlayerResponse>) -> (r: Option<String>)
        ensures
            text::opt_text(r) == plain_video_url(*answer),
            r matches Some(url) ==> {
                &&& answer matches Some(resp)
                &&& resp.playability_status.ok
                &&& resp.streaming_data matches Some(s)
                &&& s.picked matches Some(format)
                &&& format.direct_url == Some(url)
            },
            r is None ==> (answer matches Some(resp) ==> (resp.playability_status.ok ==> (
            resp.streaming_data matches Some(s) ==> (s.picked matches Some(format)
                ==> format.direct_url is None)))),
    {
        match answer {
            Some(resp) => {
                if !resp.playability_status.ok {
                    return None;
                }
                match &resp.streaming_data {
                    Some(s) => match &s.picked {
                        Some(format) => copy_text(&format.direct_url),
                        None => None,
                    },
                    None => None,
                }
            },
            None => None,
        }
    }

    /// The headers that a stream of this client is requested with. A cached stream, which is not
    /// resolved again, gets the same ones.
    pub fn headers_for(&self, client: &str, cookie: Option<String>, is_upload: bool) -> (r:
        StringMap<String>)
        ensures
            r.texts() == playback::header_map(
                chain::user_agent(self.registry(), client@),
                text::opt_text(cookie),
                is_upload,
            ),
    {
        client_headers(&self.clients, client, cookie, is_upload)
    }

    /// May a self-heal run now? One that is let through drops the session token and the cipher, so
    /// they are kept apart.
    pub fn self_heal(&mut self, now: u64) -> (r: bool)
        ensures
            r == !old(self).gate().held(now),
            final(self).gate() == old(self).gate().claimed(now),
            final(self).registry() == old(self).registry(),
            final(self).failures() == old(self).failures(),
    {
        claim_heal(&mut self.heal, now)
    }

    /// A self-heal has run. When it changed the cipher's table, the failures remembered under the
    /// old one no longer count.
    pub fn heal_finished(&mut self, changed: bool)
        ensures
            final(self).failures() == (if changed {
                Map::<Seq<char>, u64>::empty()
            } else {
                old(self).failures()
            }),
            final(self).registry() == old(self).registry(),
            final(self).gate() == old(self).gate(),
    {
        if changed {
            self.web_remix_failed = StringMap::new();
        }
    }
}

} // verus!
