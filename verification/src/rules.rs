//! What the small rules come to, said of the values that go in and come out.
use vstd::prelude::*;
use vstd::utf8::encode_utf8;

use crate::chain::{self, ProgressText, Registry, ResolveRequest};
use crate::clients::{self, FALLBACKS, LYRICS_TIMED_CLIENT, MAIN_CLIENT, METADATA_CLIENT};
use crate::failures::{self, HealGate};
use crate::model::{AudioQuality, Format, Loudness, PlayerResponse};
use crate::orchestrator;
use crate::playback::{self, Failure, PingText, PlaybackData, PlaybackText, ResolveError, StreamText};
use crate::probe;
use crate::resolver::{Action, PlayerCall};
use crate::rustypipe_fallback::{
    self, AudioStream, ExtractorError, FallbackError, StreamCandidate, VideoPlayer,
};
use crate::stream_url;
use crate::string_map::StringMap;
use crate::text;

verus! {

/// A better quality makes a format better, whatever else it reports: high before medium before low
/// before anything else.
pub proof fn a_better_quality_comes_first(a: Format, b: Format)
    ensures
        ({
            let says = |f: Format, name: Seq<char>|
                f.audio_quality is Some && f.audio_quality->0@ == name;
            let better = playback::above(playback::standing(a), playback::standing(b));
            let high = "AUDIO_QUALITY_HIGH"@;
            let medium = "AUDIO_QUALITY_MEDIUM"@;
            let low = "AUDIO_QUALITY_LOW"@;
            &&& says(a, high) && !says(b, high) ==> better
            &&& says(a, medium) && !says(b, high) && !says(b, medium) ==> better
            &&& says(a, low) && !says(b, high) && !says(b, medium) && !says(b, low) ==> better
        }),
{
}

/// Of two formats of one quality, the one with more channels is better, two counting where none are
/// reported; then opus is better than the rest, and mp4a better than what is neither; then the
/// higher bitrate decides, and equals are not better than one another. Qualities that are not known
/// count as one.
pub proof fn then_channels_then_codec_then_bitrate(a: Format, b: Format)
    requires
        ({
            let known = |f: Format|
                f.audio_quality is Some && (f.audio_quality->0@ == "AUDIO_QUALITY_HIGH"@
                    || f.audio_quality->0@ == "AUDIO_QUALITY_MEDIUM"@ || f.audio_quality->0@
                    == "AUDIO_QUALITY_LOW"@);
            if known(a) {
                known(b) && a.audio_quality->0@ == b.audio_quality->0@
            } else {
                !known(b)
            }
        }),
    ensures
        ({
            let channels = |f: Format|
                if f.audio_channels is Some {
                    f.audio_channels->0 as int
                } else {
                    2
                };
            let opus = |f: Format| text::occurs_in(f.mime_type@, "opus"@);
            let mp4a = |f: Format| text::occurs_in(f.mime_type@, "mp4a"@);
            let better = playback::above(playback::standing(a), playback::standing(b));
            &&& channels(a) > channels(b) ==> better
            &&& channels(a) < channels(b) ==> !better
            &&& channels(a) == channels(b) ==> {
                &&& opus(a) && !opus(b) ==> better
                &&& !opus(a) && opus(b) ==> !better
                &&& !opus(a) && !opus(b) && mp4a(a) && !mp4a(b) ==> better
                &&& !opus(a) && !opus(b) && !mp4a(a) && mp4a(b) ==> !better
                &&& opus(a) == opus(b) && (opus(a) || mp4a(a) == mp4a(b)) ==> (better <==> a.bitrate
                    > b.bitrate)
            }
        }),
{
}

/// A format is of the highest quality when it says so.
pub proof fn the_highest_quality_is_named(f: Format)
    ensures
        playback::high(f) <==> (f.audio_quality matches Some(q) && q@ == "AUDIO_QUALITY_HIGH"@),
{
}

/// The codec that a MIME type names counts two for opus, one for mp4a without opus, and nothing for
/// neither.
pub proof fn a_codec_counts_by_its_name(mime: Seq<char>)
    ensures
        text::occurs_in(mime, "opus"@) <==> playback::codec_rank(mime) == 2,
        text::occurs_in(mime, "mp4a"@) && !text::occurs_in(mime, "opus"@) <==> playback::codec_rank(
            mime,
        ) == 1,
        !text::occurs_in(mime, "mp4a"@) && !text::occurs_in(mime, "opus"@)
            <==> playback::codec_rank(mime) == 0,
{
}

/// A stream request carries the user agent where there is one, the cookie where there is one and
/// the track is an upload, and nothing else.
pub proof fn headers_are_agent_and_cookie(
    ua: Option<Seq<char>>,
    cookie: Option<Seq<char>>,
    is_upload: bool,
    name: Seq<char>,
)
    ensures
        ({
            let m = playback::header_map(ua, cookie, is_upload);
            &&& m.contains_key(name) <==> {
                ||| name == "User-Agent"@ && ua is Some
                ||| name == "Cookie"@ && is_upload && cookie is Some
            }
            &&& ua is Some ==> m["User-Agent"@] == ua->0
            &&& is_upload && cookie is Some ==> m["Cookie"@] == cookie->0
        }),
{
    reveal_strlit("User-Agent");
    reveal_strlit("Cookie");
    assert("User-Agent"@.len() != "Cookie"@.len());
}

/// A format's length counts when the text it came in reads as a number above zero.
pub proof fn a_length_is_a_number_above_zero(f: Format, n: u64)
    ensures
        playback::reported_length(f) == Some(n) <==> {
            &&& n > 0
            &&& f.content_length matches Some(s) && text::parsed_u64(s@) == Some(n)
        },
{
}

/// An answer's loudness is the one in its audio configuration.
pub proof fn loudness_is_the_audio_configurations(resp: PlayerResponse, l: Loudness)
    ensures
        playback::track_loudness(resp) == Some(l) <==> (resp.player_config matches Some(c)
            && c.audio_config matches Some(a) && a.loudness_db == Some(l)),
{
}

/// An answer's ping goes to the tracking URL that the answer carries, as the client it was given to.
pub proof fn a_ping_is_the_answers_own(resp: PlayerResponse, client: Seq<char>, ping: PingText)
    ensures
        playback::tracking_url(resp) == Some(ping.url) <==> (resp.playback_tracking matches Some(t)
            && t.videostats_playback_url matches Some(u) && u.base_url matches Some(s) && s@
            == ping.url),
        playback::ping_of(resp, client) == Some(ping) <==> {
            &&& ping.client == client
            &&& resp.playback_tracking matches Some(t) && t.videostats_playback_url matches Some(u)
                && u.base_url matches Some(s) && s@ == ping.url
        },
{
}

/// An answer's thumbnail is the last one of its list; without any it has none.
pub proof fn the_last_thumbnail_counts(resp: PlayerResponse, url: Seq<char>)
    ensures
        playback::largest_thumbnail(resp) == Some(url) <==> (resp.video_details matches Some(v)
            && v.thumbnail matches Some(t) && t.thumbnails@.len() > 0
            && t.thumbnails@[t.thumbnails@.len() - 1].url@ == url),
{
}

/// Playback data takes the stream's own values from the stream, and what describes the track from
/// the main answer; a loudness of the format's own comes before the track's.
pub proof fn playback_data_is_put_together(
    video_id: Seq<char>,
    stream: StreamText,
    loudness: Option<Loudness>,
    main: Option<PlayerResponse>,
    headers: Map<Seq<char>, Seq<char>>,
)
    ensures
        ({
            let d = playback::assembled(video_id, stream, loudness, main, headers);
            &&& d.video_id == video_id
            &&& d.stream_url == stream.url
            &&& d.stream_client == stream.client
            &&& d.itag == stream.format.itag
            &&& d.expires_in_seconds == stream.expires
            &&& d.headers == headers
            &&& d.playback_ping == stream.ping
            &&& d.loudness_db == (if stream.format.loudness_db is Some {
                stream.format.loudness_db
            } else {
                loudness
            })
            &&& main matches Some(resp) ==> (resp.video_details matches Some(v) ==> {
                &&& d.title == (if v.title is Some {
                    Some(v.title->0@)
                } else {
                    None
                })
                &&& d.artists == (if v.author is Some {
                    Some(v.author->0@)
                } else {
                    None
                })
                &&& d.duration == (if v.length_seconds is Some {
                    Some(v.length_seconds->0@)
                } else {
                    None
                })
                &&& d.is_video == v.is_music_video
                &&& v.thumbnail is Some && v.thumbnail->0.thumbnails@.len() > 0 ==> d.thumbnail
                    == Some(
                    v.thumbnail->0.thumbnails@[v.thumbnail->0.thumbnails@.len() - 1].url@,
                )
                &&& v.thumbnail is None || v.thumbnail->0.thumbnails@.len() == 0 ==> d.thumbnail
                    is None
            })
            &&& !(main matches Some(resp) && resp.video_details is Some) ==> {
                &&& d.title is None
                &&& d.artists is None
                &&& d.duration is None
                &&& d.thumbnail is None
                &&& d.is_video is None
            }
        }),
{
}

/// The text of playback data is the text of its fields.
pub proof fn playback_data_reads_as_it_is(d: PlaybackData)
    ensures
        d@.video_id == d.video_id@,
        d@.stream_url == d.stream_url@,
        d@.stream_client == d.stream_client@,
        d@.itag == d.itag,
        d@.expires_in_seconds == d.expires_in_seconds,
        d@.loudness_db == d.loudness_db,
        d@.is_video == d.is_video,
        d@.title is Some <==> d.title is Some,
        d.title is Some ==> d@.title == Some(d.title->0@),
        d@.artists is Some <==> d.artists is Some,
        d.artists is Some ==> d@.artists == Some(d.artists->0@),
        d@.duration is Some <==> d.duration is Some,
        d.duration is Some ==> d@.duration == Some(d.duration->0@),
        d@.thumbnail is Some <==> d.thumbnail is Some,
        d.thumbnail is Some ==> d@.thumbnail == Some(d.thumbnail->0@),
        d@.playback_ping is Some <==> d.playback_ping is Some,
        d.playback_ping matches Some(p) ==> d@.playback_ping == Some(
            PingText { url: p.url@, client: p.client@ },
        ),
        d@.headers == d.headers.texts(),
{
}

/// The texts of a map stand under its own keys.
pub proof fn a_maps_texts_are_its_values(m: StringMap<String>, key: Seq<char>)
    ensures
        m.texts().contains_key(key) <==> m@.contains_key(key),
        m@.contains_key(key) ==> m.texts()[key] == m@[key]@,
{
}

/// An error keeps its kind and its track when it is read as text.
pub proof fn an_error_reads_as_it_is(e: ResolveError)
    ensures
        match e {
            ResolveError::AllClientsFailed(id) => e@ == Failure::AllClientsFailed(id@),
            ResolveError::UploadUnavailable(id) => e@ == Failure::UploadUnavailable(id@),
            ResolveError::SignInRequired(id) => e@ == Failure::SignInRequired(id@),
            ResolveError::LocalMissing(id) => e@ == Failure::LocalMissing(id@),
            ResolveError::Unreachable(id) => e@ == Failure::Unreachable(id@),
        },
{
}

/// Every other track fails too in an outage and for want of a session, and in no other case; the
/// message names the track.
pub proof fn an_error_says_what_is_wrong(id: Seq<char>)
    ensures
        Failure::Unreachable(id).systemic(),
        Failure::SignInRequired(id).systemic(),
        !Failure::AllClientsFailed(id).systemic(),
        !Failure::UploadUnavailable(id).systemic(),
        !Failure::LocalMissing(id).systemic(),
        Failure::AllClientsFailed(id).text()
            == "no client could resolve a playable stream for "@ + id,
        Failure::UploadUnavailable(id).text()
            == "this upload could not be played. Try signing in to YouTube Music again ("@ + id
            + ")"@,
        Failure::SignInRequired(id).text() == "YouTube would not serve "@ + id
            + " without an account. Sign in from the account menu."@,
        Failure::LocalMissing(id).text() == "this file is no longer on your disk: "@ + id,
        Failure::Unreachable(id).text()
            == "could not reach YouTube. Check your connection and try again ("@ + id + ")"@,
{
}

/// A track that nothing played is an outage exactly when nothing answered, needs a session exactly
/// when one was asked for and there is none, and is refused otherwise.
pub proof fn a_verdict_goes_by_what_was_learned(
    id: Seq<char>,
    logged_in: bool,
    login_wanted: bool,
    reached: bool,
)
    ensures
        ({
            let f = playback::verdict(id, logged_in, login_wanted, reached);
            &&& f == Failure::Unreachable(id) <==> !reached
            &&& f == Failure::SignInRequired(id) <==> reached && login_wanted && !logged_in
            &&& f == Failure::AllClientsFailed(id) <==> reached && (!login_wanted || logged_in)
        }),
{
}

/// The stream CDN's hosts are those under its two domains.
pub proof fn the_cdn_has_two_domains(host: Seq<char>)
    ensures
        stream_url::stream_host(host) <==> exists|sub: Seq<char>|
            host == #[trigger] (sub + ".googlevideo.com"@) || host == sub + ".c.youtube.com"@,
{
    let google = ".googlevideo.com"@;
    let uploads = ".c.youtube.com"@;
    if google.is_suffix_of(host) {
        let sub = host.take(host.len() - google.len());
        assert(host =~= sub + google);
    }
    if uploads.is_suffix_of(host) {
        let sub = host.take(host.len() - uploads.len());
        assert(host =~= sub + uploads);
        let named = sub + google;
    }
    if exists|sub: Seq<char>|
        host == #[trigger] (sub + ".googlevideo.com"@) || host == sub + ".c.youtube.com"@ {
        let sub = choose|sub: Seq<char>|
            host == #[trigger] (sub + ".googlevideo.com"@) || host == sub + ".c.youtube.com"@;
        if host == sub + google {
            assert(google =~= host.subrange(host.len() - google.len(), host.len() as int));
        } else {
            assert(uploads =~= host.subrange(host.len() - uploads.len(), host.len() as int));
        }
    }
}

/// A URL is the stream CDN's when it has a host, and that is one of the CDN's.
pub proof fn a_stream_url_has_a_cdn_host(url: Seq<char>)
    ensures
        stream_url::youtube_stream(url) <==> (stream_url::url_host(url) matches Some(host)
            && stream_url::stream_host(host)),
{
}

/// Encoding goes byte by byte.
pub proof fn encoding_goes_byte_by_byte(front: Seq<u8>, back: Seq<u8>)
    ensures
        stream_url::percent_encoded(front + back) == stream_url::percent_encoded(front)
            + stream_url::percent_encoded(back),
    decreases back.len(),
{
    let whole = front + back;
    if back.len() == 0 {
        assert(whole =~= front);
        assert(stream_url::percent_encoded(front) + stream_url::percent_encoded(back)
            =~= stream_url::percent_encoded(front));
    } else {
        assert(whole.drop_last() =~= front + back.drop_last());
        assert(whole.last() == back.last());
        encoding_goes_byte_by_byte(front, back.drop_last());
        assert(stream_url::percent_encoded(whole) =~= stream_url::percent_encoded(front)
            + stream_url::percent_encoded(back));
    }
}

/// A letter, a digit, `-`, `.`, `_` and `~` stay as they are; any other byte becomes a percent sign
/// and its two hexadecimal digits.
pub proof fn a_byte_is_encoded(b: u8)
    ensures
        ({
            let r = stream_url::percent_encoded(seq![b]);
            let c = b as char;
            let stays = ('a' <= c && c <= 'z') || ('A' <= c && c <= 'Z') || ('0' <= c && c <= '9')
                || c == '-' || c == '.' || c == '_' || c == '~';
            &&& stays ==> r == seq![c]
            &&& !stays ==> r == seq![
                '%',
                "0123456789ABCDEF"@[b as int / 16],
                "0123456789ABCDEF"@[b as int % 16],
            ]
        }),
{
    reveal_strlit("0123456789ABCDEF");
    reveal_with_fuel(stream_url::percent_encoded, 2);
    let one = seq![b];
    assert(one.drop_last() =~= Seq::<u8>::empty());
    assert(one.last() == b);
    let high = b as int / 16;
    let low = b as int % 16;
    assert(0 <= high < 16);
    assert(0 <= low < 16);
    assert(stream_url::hex_digit(high) == "0123456789ABCDEF"@[high]);
    assert(stream_url::hex_digit(low) == "0123456789ABCDEF"@[low]);
    let r = stream_url::percent_encoded(one);
    if stream_url::unreserved(b) {
        assert(r =~= seq![b as char]);
    } else {
        assert(r =~= seq!['%', stream_url::hex_digit(high), stream_url::hex_digit(low)]);
    }
}

/// A token goes behind the URL as a parameter of its own, encoded: the first one behind a `?`, any
/// other behind an `&`.
pub proof fn a_token_is_appended(url: Seq<char>, token: Seq<char>)
    ensures
        (forall|i: int| 0 <= i < url.len() ==> url[i] != '?') ==> stream_url::with_token(url, token)
            == url + "?pot="@ + stream_url::percent_encoded(encode_utf8(token)),
        (exists|i: int| 0 <= i < url.len() && url[i] == '?') ==> stream_url::with_token(url, token)
            == url + "&pot="@ + stream_url::percent_encoded(encode_utf8(token)),
{
}

/// A probe is ranged exactly where a length above zero is known and the URL is the stream CDN's.
pub proof fn a_range_needs_a_length_and_the_cdn(url: Seq<char>, content_length: Option<u64>)
    ensures
        probe::ranged(url, content_length) <==> {
            &&& content_length is Some
            &&& content_length->0 > 0
            &&& stream_url::url_host(url) matches Some(host) && stream_url::stream_host(host)
        },
{
}

/// What is remembered of a failure counts for half an hour and no longer.
pub proof fn a_failure_counts_for_half_an_hour(
    map: Map<Seq<char>, u64>,
    now: u64,
    id: Seq<char>,
    at: u64,
)
    ensures
        failures::unexpired(map, now).contains_pair(id, at) <==> map.contains_pair(id, at) && now
            - at < 30 * 60 * 1_000_000_000,
{
}

/// A self-heal keeps others out for five minutes and no longer, and a claim that is let through
/// starts them anew.
pub proof fn a_self_heal_holds_for_five_minutes(gate: HealGate, now: u64)
    ensures
        gate.last is None ==> !gate.held(now),
        gate.last matches Some(t) ==> (gate.held(now) <==> now - t < 5 * 60 * 1_000_000_000),
        gate.held(now) ==> gate.claimed(now).last == gate.last,
        !gate.held(now) ==> gate.claimed(now).last == Some(now),
{
}

/// The plain URL of the picked format is what a video is shown from, where the answer serves the
/// track, whatever else that format reports; otherwise there is none.
pub proof fn a_video_is_shown_from_its_plain_url(answer: Option<PlayerResponse>, url: Seq<char>)
    ensures
        orchestrator::plain_video_url(answer) == Some(url) <==> {
            &&& answer matches Some(resp)
            &&& resp.playability_status.ok
            &&& resp.streaming_data matches Some(s)
            &&& s.picked matches Some(format)
            &&& format.direct_url matches Some(u)
            &&& u@ == url
        },
{
}

/// The names by which clients are asked.
pub proof fn the_clients_of_each_task()
    ensures
        MAIN_CLIENT@ == "WEB_REMIX"@,
        METADATA_CLIENT@ == "WEB_REMIX"@,
        LYRICS_TIMED_CLIENT@ == "IOS_MUSIC"@,
        orchestrator::VIDEO_CLIENT@ == "VISIONOS"@,
{
}

/// Behind the main client, an ordinary track is tried with `VISIONOS` and `TVHTML5_SIMPLY`, an
/// upload with `TVHTML5` and `WEB_CREATOR`, in this order.
pub proof fn each_kind_has_its_order()
    ensures
        FALLBACKS == 2,
        clients::fallback_order(false).len() == 2,
        clients::fallback_order(false)[0] == "VISIONOS"@,
        clients::fallback_order(false)[1] == "TVHTML5_SIMPLY"@,
        clients::fallback_order(true).len() == 2,
        clients::fallback_order(true)[0] == "TVHTML5"@,
        clients::fallback_order(true)[1] == "WEB_CREATOR"@,
        chain::leg_key(false, 0) == "WEB_REMIX"@,
        chain::leg_key(false, 1) == "VISIONOS"@,
        chain::leg_key(false, 2) == "TVHTML5_SIMPLY"@,
        chain::leg_key(true, 0) == "WEB_REMIX"@,
        chain::leg_key(true, 1) == "TVHTML5"@,
        chain::leg_key(true, 2) == "WEB_CREATOR"@,
{
}

/// A leg goes by the client that answered for it: its own, but for the first one `WEB_CREATOR`
/// where that answered in the main client's place.
pub proof fn a_leg_goes_by_who_answered(is_upload: bool, from_creator: bool, leg: int)
    ensures
        chain::main_key(true) == "WEB_CREATOR"@,
        chain::main_key(false) == "WEB_REMIX"@,
        chain::leg_client(is_upload, true, 0) == "WEB_CREATOR"@,
        chain::leg_client(is_upload, false, 0) == "WEB_REMIX"@,
        leg > 0 ==> chain::leg_client(is_upload, from_creator, leg) == chain::leg_key(
            is_upload,
            leg,
        ),
{
}

/// What a client needs is what the registry says of it; an unknown one needs nothing and has no
/// user agent.
pub proof fn a_clients_needs_stand_in_the_registry(clients: Registry, key: Seq<char>)
    ensures
        clients.contains_key(key) ==> {
            &&& chain::uses_tokens(clients, key) == clients[key].use_web_po_tokens
            &&& chain::uses_timestamp(clients, key) == clients[key].use_signature_timestamp
            &&& chain::user_agent(clients, key) == Some(clients[key].user_agent@)
        },
        !clients.contains_key(key) ==> {
            &&& !chain::uses_tokens(clients, key)
            &&& !chain::uses_timestamp(clients, key)
            &&& chain::user_agent(clients, key) is None
        },
{
}

/// A session token is wanted as soon as one of the three clients that a track is tried with is left
/// on, registered, and uses tokens.
pub proof fn a_token_is_wanted_by_any_client_of_the_track(clients: Registry, req: ResolveRequest)
    ensures
        ({
            let wants = |key: Seq<char>|
                !req.disabled@.contains(key) && clients.contains_key(key)
                    && clients[key].use_web_po_tokens;
            chain::wants_token(clients, req) <==> {
                ||| wants("WEB_REMIX"@)
                ||| req.is_upload && (wants("TVHTML5"@) || wants("WEB_CREATOR"@))
                ||| !req.is_upload && (wants("VISIONOS"@) || wants("TVHTML5_SIMPLY"@))
            }
        }),
{
    each_kind_has_its_order();
    let k0 = chain::leg_key(req.is_upload, 0);
    let k1 = chain::leg_key(req.is_upload, 1);
    let k2 = chain::leg_key(req.is_upload, 2);
    assert(chain::uses_tokens(clients, k0) == (clients.contains_key(k0)
        && clients[k0].use_web_po_tokens));
    assert(chain::uses_tokens(clients, k1) == (clients.contains_key(k1)
        && clients[k1].use_web_po_tokens));
    assert(chain::uses_tokens(clients, k2) == (clients.contains_key(k2)
        && clients[k2].use_web_po_tokens));
    if chain::wants_token(clients, req) {
        let leg = choose|leg: int|
            0 <= leg <= FALLBACKS && !req.disabled@.contains(
                chain::leg_key(req.is_upload, leg),
            ) && #[trigger] chain::uses_tokens(clients, chain::leg_key(req.is_upload, leg));
        assert(leg == 0 || leg == 1 || leg == 2);
    }
}

/// The best quality is looked for when it is asked for by name and when the choice is left open, and
/// not when the low one is asked for.
pub proof fn high_and_auto_look_for_the_best(quality: AudioQuality)
    ensures
        chain::prefers_high(AudioQuality::High),
        chain::prefers_high(AudioQuality::Auto),
        !chain::prefers_high(AudioQuality::Low),
{
}

/// The call to a client names the client and, for an upload, the uploads playlist; it carries the
/// timestamp and the token where the client uses them.
pub proof fn a_call_carries_what_its_client_uses(
    clients: Registry,
    req: ResolveRequest,
    p: ProgressText,
    key: Seq<char>,
)
    ensures
        ({
            let call = chain::call_to(clients, req, p, key);
            &&& call.client == key
            &&& req.is_upload ==> call.playlist_id == Some("MLPT"@)
            &&& !req.is_upload ==> call.playlist_id is None
            &&& clients.contains_key(key) && clients[key].use_signature_timestamp ==> call.sts
                == p.sts
            &&& !(clients.contains_key(key) && clients[key].use_signature_timestamp) ==> call.sts
                is None
            &&& clients.contains_key(key) && clients[key].use_web_po_tokens ==> call.pot
                == p.session_pot
            &&& !(clients.contains_key(key) && clients[key].use_web_po_tokens) ==> call.pot is None
        }),
{
}

/// An answer serves the track when it says so, and asks for an account when it refuses the track
/// with that status.
pub proof fn an_answers_status_is_read(answer: Option<PlayerResponse>)
    ensures
        chain::is_ok(answer) <==> (answer matches Some(resp) && resp.playability_status.ok),
        chain::asks_login(answer) <==> (answer matches Some(resp) && !resp.playability_status.ok
            && resp.playability_status.status@ == "LOGIN_REQUIRED"@),
{
}

/// A gated track is retried exactly in a session, behind an answer that says it is gated, and with
/// `WEB_CREATOR` registered.
pub proof fn a_gate_is_retried_in_a_session(
    clients: Registry,
    req: ResolveRequest,
    answer: Option<PlayerResponse>,
)
    ensures
        chain::retried(clients, req, answer) <==> {
            &&& req.logged_in
            &&& answer is Some
            &&& answer->0.playability_status.age_gated
            &&& clients.contains_key("WEB_CREATOR"@)
        },
{
}

/// A client is asked exactly if it is left on and registered and has the session and the token that
/// it needs.
pub proof fn a_client_is_asked_if_it_can_answer(
    clients: Registry,
    req: ResolveRequest,
    pot: Option<Seq<char>>,
    key: Seq<char>,
)
    ensures
        chain::askable(clients, req, pot, key) <==> {
            &&& !req.disabled@.contains(key)
            &&& clients.contains_key(key)
            &&& !clients[key].login_required || req.logged_in
            &&& !clients[key].use_web_po_tokens || pot is Some
        },
{
}

/// A stream is set aside exactly when the best quality is looked for, the stream is not of it, and
/// some format that the main answer lists is.
pub proof fn a_stream_is_set_aside_for_a_better_one(
    quality: AudioQuality,
    main: Option<PlayerResponse>,
    format: Format,
)
    ensures
        chain::set_aside(quality, main, format) <==> {
            &&& quality == AudioQuality::High || quality == AudioQuality::Auto
            &&& !(format.audio_quality is Some && format.audio_quality->0@ == "AUDIO_QUALITY_HIGH"@)
            &&& main matches Some(resp)
            &&& resp.streaming_data matches Some(s)
            &&& exists|i: int|
                0 <= i < s.adaptive_formats@.len() && ({
                    let f = #[trigger] s.adaptive_formats@[i];
                    f.audio_quality is Some && f.audio_quality->0@ == "AUDIO_QUALITY_HIGH"@
                })
        },
{
    if let Some(resp) = main {
        if let Some(s) = resp.streaming_data {
            assert forall|i: int| 0 <= i < s.adaptive_formats@.len() implies playback::high(
                #[trigger] s.adaptive_formats@[i],
            ) == (s.adaptive_formats@[i].audio_quality is Some
                && s.adaptive_formats@[i].audio_quality->0@ == "AUDIO_QUALITY_HIGH"@) by {}
        }
    }
}

/// Of two streams that were set aside the new one is kept only if its format is the better one.
pub proof fn the_kept_stream_stays_unless_beaten(old: StreamText, new: StreamText)
    ensures
        chain::better_of(None, new) == Some(new),
        playback::above(playback::standing(new.format), playback::standing(old.format))
            ==> chain::better_of(Some(old), new) == Some(new),
        !playback::above(playback::standing(new.format), playback::standing(old.format))
            ==> chain::better_of(Some(old), new) == Some(old),
{
}

/// A URL is transformed exactly when it is the stream CDN's and its client uses tokens or is one of
/// `WEB`, `WEB_REMIX`, `WEB_CREATOR` and `TVHTML5`.
pub proof fn a_web_clients_cdn_url_is_transformed(
    clients: Registry,
    key: Seq<char>,
    url: Seq<char>,
)
    ensures
        chain::needs_transform(clients, key, url) <==> {
            &&& stream_url::url_host(url) matches Some(host) && stream_url::stream_host(host)
            &&& {
                ||| clients.contains_key(key) && clients[key].use_web_po_tokens
                ||| key == "WEB"@
                ||| key == "WEB_REMIX"@
                ||| key == "WEB_CREATOR"@
                ||| key == "TVHTML5"@
            }
        },
{
    let names = chain::NEEDS_N_TRANSFORM@;
    assert(names[0]@ == "WEB"@);
    assert(names[1]@ == "WEB_REMIX"@);
    assert(names[2]@ == "WEB_CREATOR"@);
    assert(names[3]@ == "TVHTML5"@);
}

/// An answer offers its picked format for as long as it says, under the name of the client that
/// gave it, where it has both; the ping is the main answer's, or else the answer's own.
pub proof fn an_answer_offers_its_picked_format(
    main: Option<PlayerResponse>,
    from_creator: bool,
    resp: PlayerResponse,
    key: Seq<char>,
    s: StreamText,
)
    ensures
        chain::offer(main, from_creator, resp, key) is Some <==> (
        resp.streaming_data matches Some(data) && data.expires_in_seconds is Some && data.picked
            is Some),
        chain::offer(main, from_creator, resp, key) == Some(s) ==> {
            &&& resp.streaming_data matches Some(data) && data.picked == Some(s.format)
                && data.expires_in_seconds == Some(s.expires)
            &&& s.client == key
            &&& s.ping == (if main is Some && playback::tracking_url(main->0) is Some {
                Some(
                    PingText {
                        url: playback::tracking_url(main->0)->0,
                        client: if from_creator {
                            "WEB_CREATOR"@
                        } else {
                            "WEB_REMIX"@
                        },
                    },
                )
            } else if playback::tracking_url(resp) is Some {
                Some(PingText { url: playback::tracking_url(resp)->0, client: key })
            } else {
                None
            })
        },
{
}

/// What the extractor found is played at its own URL with its own values, without headers and
/// without a ping, and in the extractor's name.
pub proof fn extracted_data_is_the_extractors(video_id: Seq<char>, c: StreamCandidate)
    ensures
        ({
            let d = chain::extracted_data(video_id, c);
            &&& d.video_id == video_id
            &&& d.stream_url == c.url@
            &&& d.itag == c.itag
            &&& d.expires_in_seconds == c.expires_in_seconds
            &&& d.loudness_db == c.loudness_db
            &&& forall|name: Seq<char>| !d.headers.contains_key(name)
            &&& d.playback_ping is None
            &&& c.title is Some ==> d.title == Some(c.title->0@)
            &&& c.title is None ==> d.title is None
            &&& c.duration_secs matches Some(n) ==> d.duration == Some(text::decimal(n as nat))
            &&& c.duration_secs is None ==> d.duration is None
            &&& d.artists is None
            &&& d.thumbnail is None
            &&& d.is_video is None
            &&& d.stream_client == "rustypipe"@
        }),
{
}

/// The extractor's pick for high quality is one of the original audio where there is any, which is
/// one of no track or of the default one; no other such stream has a better codec, or the same and a
/// higher bitrate, or the same of both and comes later.
pub proof fn the_high_pick_is_the_best(streams: Seq<AudioStream>, i: int, j: int)
    requires
        rustypipe_fallback::is_pick(streams, true, i),
        0 <= j < streams.len(),
    ensures
        0 <= i < streams.len(),
        ({
            let a = streams[i];
            let b = streams[j];
            let original = |s: AudioStream| s.track is None || s.track->0.is_default;
            let opus = |s: AudioStream| text::occurs_in(s.mime@, "opus"@);
            let mp4a = |s: AudioStream| text::occurs_in(s.mime@, "mp4a"@);
            &&& original(b) ==> original(a)
            &&& original(b) || !original(a) ==> {
                &&& opus(b) ==> opus(a)
                &&& mp4a(b) && !opus(b) ==> opus(a) || mp4a(a)
                &&& opus(a) == opus(b) && (opus(a) || mp4a(a) == mp4a(b)) ==> b.bitrate <= a.bitrate
                    && (b.bitrate == a.bitrate ==> j <= i)
            }
        }),
{
    pick_is_eligible(streams, true, i, j);
}

/// The extractor's pick without high quality is one of the original audio where there is any; no
/// other such stream has a lower bitrate, or the same and comes earlier.
pub proof fn the_low_pick_is_the_lowest(streams: Seq<AudioStream>, i: int, j: int)
    requires
        rustypipe_fallback::is_pick(streams, false, i),
        0 <= j < streams.len(),
    ensures
        0 <= i < streams.len(),
        ({
            let a = streams[i];
            let b = streams[j];
            let original = |s: AudioStream| s.track is None || s.track->0.is_default;
            &&& original(b) ==> original(a)
            &&& original(b) || !original(a) ==> a.bitrate <= b.bitrate && (a.bitrate == b.bitrate
                ==> i <= j)
        }),
{
    pick_is_eligible(streams, false, i, j);
    if rustypipe_fallback::eligible(streams, j) && streams[j].bitrate
        <= rustypipe_fallback::LOW_BITRATE_CAP {
        assert(rustypipe_fallback::capped(streams, j));
    }
}

proof fn pick_is_eligible(streams: Seq<AudioStream>, prefer_high: bool, i: int, j: int)
    requires
        rustypipe_fallback::is_pick(streams, prefer_high, i),
        0 <= j < streams.len(),
    ensures
        rustypipe_fallback::eligible(streams, i),
        rustypipe_fallback::original(streams[j]) ==> rustypipe_fallback::original(streams[i]),
        rustypipe_fallback::original(streams[j]) || !rustypipe_fallback::original(streams[i])
            ==> rustypipe_fallback::eligible(streams, j),
{
}

/// An extractor's failure is silence only if it is not the service's own verdict, and says what the
/// failure said.
pub proof fn an_extractors_failure_keeps_its_reason(msg: String)
    ensures
        rustypipe_fallback::failure_of(
            ExtractorError::Unavailable { age_restricted: true, msg },
        ) is AgeRestricted,
        rustypipe_fallback::failure_of(ExtractorError::Unavailable { age_restricted: false, msg })
            == FallbackError::Unavailable(msg),
        rustypipe_fallback::failure_of(ExtractorError::Other(msg)) == FallbackError::RustyPipe(msg),
        FallbackError::AgeRestricted.is_verdict(),
        FallbackError::NoAudio.is_verdict(),
        FallbackError::Unavailable(msg).is_verdict(),
        !FallbackError::RustyPipe(msg).is_verdict(),
        FallbackError::AgeRestricted.text() == "age-restricted (rustypipe)"@,
        FallbackError::NoAudio.text() == "no audio stream in rustypipe result"@,
        FallbackError::Unavailable(msg).text() == "unavailable: "@ + msg@,
        FallbackError::RustyPipe(msg).text() == "rustypipe: "@ + msg@,
{
}

/// A candidate has the stream's values and the video's name, length and time to live.
pub proof fn a_candidate_has_its_streams_values(
    c: StreamCandidate,
    player: VideoPlayer,
    s: AudioStream,
)
    requires
        rustypipe_fallback::candidate_of(c, player, s),
    ensures
        c.url@ == s.url@,
        c.itag == s.itag,
        c.mime@ == s.mime@,
        c.size == s.size,
        c.bitrate == s.bitrate,
        c.loudness_db == s.loudness_db,
        c.expires_in_seconds == player.expires_in_seconds,
        c.title == player.name,
        c.duration_secs == Some(player.duration),
{
}

/// An action reads as what it asks for.
pub proof fn an_action_reads_as_it_is(action: Action)
    ensures
        match action {
            Action::SignatureTimestamp => action@ is SignatureTimestamp,
            Action::SessionToken { visitor } => action@ == (chain::ActionText::SessionToken {
                visitor: visitor@,
            }),
            Action::Player(call) => action@ == chain::ActionText::Player(call@),
            Action::CheckBar => action@ is CheckBar,
            Action::Decipher { cipher } => action@ == (chain::ActionText::Decipher {
                cipher: cipher@,
            }),
            Action::TransformN { url } => action@ == (chain::ActionText::TransformN { url: url@ }),
            Action::StreamToken { visitor } => action@ == (chain::ActionText::StreamToken {
                visitor: visitor@,
            }),
            Action::ReadCookie => action@ is ReadCookie,
            Action::Probe { url, headers, content_length } => action@
                == (chain::ActionText::Probe {
                url: url@,
                headers: headers.texts(),
                content_length,
            }),
            Action::SelfHeal => action@ is SelfHeal,
            Action::Extract { prefer_high } => action@ == (chain::ActionText::Extract {
                prefer_high,
            }),
            Action::Done(Ok(data)) => action@ == chain::ActionText::Done(Ok(data@)),
            Action::Done(Err(e)) => action@ == chain::ActionText::Done(Err(e@)),
        },
{
}

/// A call reads as what it carries.
pub proof fn a_call_reads_as_it_is(call: PlayerCall)
    ensures
        call@.client == call.client@,
        call@.sts == call.sts,
        call.playlist_id is None ==> call@.playlist_id is None,
        call.playlist_id matches Some(id) ==> call@.playlist_id == Some(id@),
        call.pot is None ==> call@.pot is None,
        call.pot matches Some(pot) ==> call@.pot == Some(pot@),
{
}

} // verus!
