use limusic::failures::{
    blacklist_blocks, blacklist_insert, claim_heal, HealGate, HEAL_COOLDOWN,
    WEB_REMIX_BLACKLIST_TTL,
};
use limusic::model::{
    AudioConfig, Format, Loudness, PlayabilityStatus, PlaybackTracking, PlayerConfig,
    PlayerResponse, Thumbnail, ThumbnailList, TrackingUrl, VideoDetails,
};
use limusic::playback::{
    best_thumbnail, better, build, codec_score, content_length, is_high, main_loudness,
    nothing_played, playback_ping, stream_headers, Candidate, ResolveError,
};
use limusic::probe::{probe_passed, stream_probe, Method};
use limusic::stream_url::{append_token, is_stream_host, is_youtube_stream};
use limusic::string_map::{StringMap, StringSet};
use limusic::text::{decimal_text, has_char, has_substring, has_suffix, parse_u64, same_text};

fn plain_format() -> Format {
    Format {
        itag: 251,
        mime_type: "audio/webm".to_owned(),
        bitrate: 0,
        audio_quality: None,
        audio_channels: None,
        content_length: None,
        loudness_db: None,
        direct_url: None,
        cipher_string: None,
    }
}

fn plain_response() -> PlayerResponse {
    PlayerResponse {
        playability_status: PlayabilityStatus {
            status: "OK".to_owned(),
            reason: None,
            ok: true,
            age_gated: false,
        },
        streaming_data: None,
        video_details: None,
        player_config: None,
        playback_tracking: None,
    }
}

// A podcast feed streams from its own host, which gets no PoToken. One of the user's own uploads
// streams from `c.youtube.com`, which needs everything a googlevideo URL needs.
#[test]
fn both_of_youtubes_stream_hosts_count_and_nothing_else_does() {
    assert!(is_youtube_stream("https://rr5---sn-abc.googlevideo.com/videoplayback?n=x"));
    assert!(is_youtube_stream("https://rr2---sn-2onja5-5i.c.youtube.com/videoplayback?n=x"));
    assert!(!is_youtube_stream("https://www.podtrac.com/pts/redirect.mp3/x.mp3"));
    assert!(!is_youtube_stream("https://evil.com/googlevideo.com/videoplayback"));
    assert!(!is_youtube_stream("https://evil.com/rr2---sn-x.c.youtube.com/videoplayback"));
    assert!(!is_youtube_stream("https://www.youtube.com/watch?v=x"));
    assert!(!is_youtube_stream("/home/me/song.flac"));
}

#[test]
fn a_host_is_read_as_the_url_standard_reads_it() {
    assert!(is_youtube_stream("https://RR5.GoogleVideo.com:443/x"));
    assert!(is_youtube_stream("https://user@rr5.googlevideo.com/x"));
    assert!(!is_youtube_stream("https://googlevideo.com/x"), "the bare domain serves no stream");
    assert!(!is_youtube_stream("https://evilgooglevideo.com/x"));
    assert!(!is_youtube_stream("data:text/plain,.googlevideo.com"));
    assert!(!is_youtube_stream(""));
}

#[test]
fn a_stream_host_ends_in_one_of_the_two_domains() {
    assert!(is_stream_host("rr5.googlevideo.com"));
    assert!(is_stream_host("rr5.c.youtube.com"));
    assert!(!is_stream_host("www.youtube.com"));
    assert!(!is_stream_host("rr5.googlevideo.com.evil.com"));
    assert!(!is_stream_host(""));
}

#[test]
fn the_web_remix_bar_expires_and_stays_bounded() {
    let now: u64 = 7_000_000_000;
    let mut map: StringMap<u64> = StringMap::new();

    blacklist_insert(&mut map, "fresh", now);
    assert!(blacklist_blocks(&map, "fresh", now), "a fresh failure bars WEB_REMIX");
    assert!(!blacklist_blocks(&map, "never-failed", now));

    // Past the TTL the entry reads as absent, so the track gets its best client back.
    let later = now + WEB_REMIX_BLACKLIST_TTL + 1_000_000_000;
    assert!(!blacklist_blocks(&map, "fresh", later));

    // And inserting at that point drops it, so the map cannot grow across a long session.
    blacklist_insert(&mut map, "other", later);
    assert_eq!(map.len(), 1);
    assert!(map.contains_key("other"));
}

#[test]
fn the_web_remix_bar_holds_to_the_last_moment() {
    let mut map: StringMap<u64> = StringMap::new();
    blacklist_insert(&mut map, "a", 100);
    blacklist_insert(&mut map, "b", 200);
    assert!(blacklist_blocks(&map, "a", 100 + WEB_REMIX_BLACKLIST_TTL - 1));
    assert!(!blacklist_blocks(&map, "a", 100 + WEB_REMIX_BLACKLIST_TTL));
    assert!(blacklist_blocks(&map, "b", 100 + WEB_REMIX_BLACKLIST_TTL));
    assert!(blacklist_blocks(&map, "b", 0), "a clock read before the failure still finds it");
    assert_eq!(map.len(), 2);
    assert_eq!(WEB_REMIX_BLACKLIST_TTL, 30 * 60 * 1_000_000_000);
}

/// The probe and the stream request share this, so what it returns has to be identical for both:
/// the cookie rides along for an upload and for nothing else.
#[test]
fn only_an_upload_carries_the_cookie() {
    let ua = || Some("UA/1".to_owned());
    let cookie = || Some("SAPISID=secret".to_owned());

    let up = stream_headers(ua(), cookie(), true);
    assert_eq!(up.get("User-Agent").map(String::as_str), Some("UA/1"));
    assert_eq!(up.get("Cookie").map(String::as_str), Some("SAPISID=secret"));

    let ordinary = stream_headers(ua(), cookie(), false);
    assert_eq!(ordinary.get("User-Agent").map(String::as_str), Some("UA/1"));
    assert!(!ordinary.contains_key("Cookie"), "an ordinary stream must not send the cookie");

    // Signed out: an upload cannot play at all, but it must not produce a bogus header.
    assert!(!stream_headers(ua(), None, true).contains_key("Cookie"));
}

#[test]
fn no_agent_means_no_agent_header() {
    assert_eq!(stream_headers(None, None, true).len(), 0);
    assert_eq!(stream_headers(None, Some("c".to_owned()), true).len(), 1);
}

/// With nothing reached, even a `LOGIN_REQUIRED` seen earlier must not turn an outage into
/// "sign in".
#[test]
fn nothing_played_prefers_unreachable_over_a_verdict() {
    for (logged_in, login_wanted) in [(false, true), (false, false), (true, true), (true, false)] {
        assert!(
            matches!(
                nothing_played("v", logged_in, login_wanted, false),
                ResolveError::Unreachable(_)
            ),
            "an outage must never read as a verdict on the track"
        );
    }
}

#[test]
fn nothing_played_keeps_its_old_answers_when_youtube_answered() {
    assert!(matches!(nothing_played("v", false, true, true), ResolveError::SignInRequired(_)));
    for (logged_in, login_wanted) in [(false, false), (true, true), (true, false)] {
        assert!(matches!(
            nothing_played("v", logged_in, login_wanted, true),
            ResolveError::AllClientsFailed(_)
        ));
    }
}

#[test]
fn only_the_systemic_errors_affect_every_track() {
    let v = || "v".to_owned();
    assert!(
        ResolveError::Unreachable(v()).affects_every_track(),
        "an outage would walk the queue and delete rows"
    );
    assert!(
        ResolveError::SignInRequired(v()).affects_every_track(),
        "every anonymous track fails the same way until the user signs in"
    );
    assert!(
        !ResolveError::AllClientsFailed(v()).affects_every_track(),
        "an unavailable video must still be skipped, or the queue stalls on it"
    );
    assert!(
        !ResolveError::UploadUnavailable(v()).affects_every_track(),
        "a mixed queue must skip past a failed upload to the ordinary tracks"
    );
    assert!(
        !ResolveError::LocalMissing(v()).affects_every_track(),
        "a deleted local file must keep leaving the queue"
    );
}

#[test]
fn errors_say_what_went_wrong() {
    let v = || "dQw4w9WgXcQ".to_owned();
    assert_eq!(
        ResolveError::AllClientsFailed(v()).message(),
        "no client could resolve a playable stream for dQw4w9WgXcQ"
    );
    assert_eq!(
        ResolveError::UploadUnavailable(v()).message(),
        "this upload could not be played. Try signing in to YouTube Music again (dQw4w9WgXcQ)"
    );
    assert_eq!(
        ResolveError::SignInRequired(v()).message(),
        "YouTube would not serve dQw4w9WgXcQ without an account. Sign in from the account menu."
    );
    assert_eq!(
        ResolveError::LocalMissing(v()).message(),
        "this file is no longer on your disk: dQw4w9WgXcQ"
    );
    assert_eq!(
        ResolveError::Unreachable(v()).message(),
        "could not reach YouTube. Check your connection and try again (dQw4w9WgXcQ)"
    );
}

#[test]
fn content_length_reads_only_a_real_length() {
    let fmt = |len: &str| -> Format {
        let mut v = plain_format();
        if !len.is_empty() {
            v.content_length = Some(len.to_owned());
        }
        v
    };
    assert_eq!(content_length(&fmt("4194304")), Some(4194304));
    assert_eq!(
        content_length(&fmt("0")),
        None,
        "a zero-length enclosure has no tail to probe, so it must fall back to the HEAD"
    );
    assert_eq!(content_length(&fmt("")), None);
    assert_eq!(content_length(&fmt("not a number")), None);
}

#[test]
fn claim_heal_allows_one_and_then_holds_the_door() {
    let mut gate = HealGate::new();
    assert!(claim_heal(&mut gate, 5));
    assert!(
        !claim_heal(&mut gate, 5),
        "a burst of identical probe failures must cost one heal, not one heal per track"
    );
}

#[test]
fn the_heal_door_opens_again() {
    let mut gate = HealGate::new();
    assert!(claim_heal(&mut gate, 5));
    assert!(!claim_heal(&mut gate, 5 + HEAL_COOLDOWN - 1));
    assert_eq!(gate.last, Some(5), "a refused claim does not hold the door any longer");
    assert!(claim_heal(&mut gate, 5 + HEAL_COOLDOWN));
    assert!(!claim_heal(&mut gate, 5 + HEAL_COOLDOWN + 1));
    assert_eq!(HEAL_COOLDOWN, 5 * 60 * 1_000_000_000);
}

#[test]
fn any_two_self_heals_are_kept_apart() {
    let minute = HEAL_COOLDOWN / 5;
    let mut gate = HealGate::new();
    let mut through: Vec<u64> = vec![];
    for at in [9, 2, 13, 14, 8, 14, 30, 16, 35, 34].map(|m| m * minute) {
        if claim_heal(&mut gate, at) {
            through.push(at);
        }
    }
    assert_eq!(through, [9 * minute, 14 * minute, 30 * minute, 35 * minute]);
    assert!(through.windows(2).all(|w| w[1] - w[0] >= HEAL_COOLDOWN));
}

#[test]
fn formats_compare_by_quality_channels_codec_and_bitrate() {
    let fmt = |quality: &str, channels: Option<i32>, mime: &str, bitrate: i64| -> Format {
        let mut v = plain_format();
        v.audio_quality = Some(quality.to_owned());
        v.audio_channels = channels;
        v.mime_type = mime.to_owned();
        v.bitrate = bitrate;
        v
    };
    let low = fmt("AUDIO_QUALITY_LOW", Some(6), "audio/webm; codecs=\"opus\"", 900);
    let medium = fmt("AUDIO_QUALITY_MEDIUM", Some(1), "audio/mp4", 1);
    let high = fmt("AUDIO_QUALITY_HIGH", Some(1), "audio/mp4", 0);
    assert!(better(&medium, Some(&low)));
    assert!(better(&high, Some(&medium)));
    assert!(!better(&low, Some(&high)));
    assert!(better(&low, Some(&fmt("AUDIO_QUALITY_ULTRALOW", Some(8), "opus", 5000))));

    let stereo = fmt("AUDIO_QUALITY_LOW", None, "audio/mp4", 0);
    let mono = fmt("AUDIO_QUALITY_LOW", Some(1), "opus", 500);
    assert!(better(&stereo, Some(&mono)), "an unreported channel count reads as two");
    assert!(!better(&stereo, Some(&fmt("AUDIO_QUALITY_LOW", Some(2), "audio/mp4", 0))));

    let opus = fmt("AUDIO_QUALITY_LOW", None, "audio/webm; codecs=\"opus\"", 10);
    let aac = fmt("AUDIO_QUALITY_LOW", None, "audio/mp4; codecs=\"mp4a.40.2\"", 99);
    let vorbis = fmt("AUDIO_QUALITY_LOW", None, "audio/webm; codecs=\"vorbis\"", 999);
    assert!(better(&opus, Some(&aac)));
    assert!(better(&aac, Some(&vorbis)));
    assert!(better(&fmt("AUDIO_QUALITY_LOW", None, "opus", 11), Some(&opus)));
    assert!(!better(&opus, Some(&opus)), "an equal is not better");
    assert!(better(&vorbis, None), "anything is better than nothing");

    assert!(is_high(&high));
    assert!(!is_high(&medium));
    assert!(!is_high(&plain_format()));
    assert_eq!(codec_score("opus"), 2);
    assert_eq!(codec_score("mp4a"), 1);
    assert_eq!(codec_score("flac"), 0);
}

#[test]
fn an_answer_gives_up_its_parts() {
    let mut resp = plain_response();
    assert_eq!(main_loudness(&resp), None);
    assert_eq!(best_thumbnail(&resp), None);
    assert!(playback_ping(&resp, "WEB_REMIX").is_none());

    let loud = Loudness { bits: 1.5f64.to_bits() };
    resp.player_config =
        Some(PlayerConfig { audio_config: Some(AudioConfig { loudness_db: Some(loud) }) });
    resp.playback_tracking = Some(PlaybackTracking {
        videostats_playback_url: Some(TrackingUrl { base_url: Some("https://t/".to_owned()) }),
    });
    resp.video_details = Some(VideoDetails {
        title: Some("T".to_owned()),
        author: Some("A".to_owned()),
        length_seconds: Some("61".to_owned()),
        thumbnail: Some(ThumbnailList {
            thumbnails: vec![
                Thumbnail { url: "small".to_owned() },
                Thumbnail { url: "large".to_owned() },
            ],
        }),
        is_music_video: Some(true),
    });
    assert_eq!(main_loudness(&resp), Some(loud));
    assert_eq!(best_thumbnail(&resp).as_deref(), Some("large"));
    let ping = playback_ping(&resp, "WEB_REMIX").expect("ping");
    assert_eq!((ping.url.as_str(), ping.client.as_str()), ("https://t/", "WEB_REMIX"));

    let own = Loudness { bits: (-3.25f64).to_bits() };
    let mut format = plain_format();
    format.loudness_db = Some(own);
    let stream = |format: Format| Candidate {
        format,
        url: "https://s/".to_owned(),
        expires: 21540,
        client: "VISIONOS".to_owned(),
        ping: None,
        web: false,
    };
    let main = Some(resp);
    let data = build("v", stream(format), Some(loud), &main, StringMap::new());
    assert_eq!(data.loudness_db, Some(own), "the format's own loudness comes first");
    assert_eq!(data.title.as_deref(), Some("T"));
    assert_eq!(data.artists.as_deref(), Some("A"));
    assert_eq!(data.duration.as_deref(), Some("61"));
    assert_eq!(data.thumbnail.as_deref(), Some("large"));
    assert_eq!(data.is_video, Some(true));
    assert_eq!((data.itag, data.expires_in_seconds), (251, 21540));
    assert_eq!(data.stream_client, "VISIONOS");

    let data = build("v", stream(plain_format()), Some(loud), &None, StringMap::new());
    assert_eq!(data.loudness_db, Some(loud));
    assert_eq!((data.title, data.is_video), (None, None));
}

#[test]
fn the_probe_asks_for_the_last_bytes() {
    let url = "https://rr5---sn-abc.googlevideo.com/videoplayback?n=x";
    let headers = || stream_headers(Some("UA/1".to_owned()), None, false);

    let probe = stream_probe(url, headers(), Some(4194304));
    assert_eq!(probe.method, Method::Get);
    assert_eq!(probe.own_headers[0], ("Range".to_owned(), "bytes=4194048-4194303".to_owned()));
    assert_eq!(probe.own_headers[1], ("Accept-Encoding".to_owned(), "identity".to_owned()));
    assert_eq!(probe.headers.get("User-Agent").map(String::as_str), Some("UA/1"));
    assert_eq!(probe.timeout_seconds, 10);

    let short = stream_probe(url, headers(), Some(1));
    assert_eq!(short.own_headers[0].1, "bytes=0-0");
    assert_eq!(stream_probe(url, headers(), Some(256)).own_headers[0].1, "bytes=0-255");
    assert_eq!(stream_probe(url, headers(), Some(257)).own_headers[0].1, "bytes=1-256");

    for (url, length) in [(url, None), (url, Some(0)), ("https://feed.example/x.mp3", Some(9))] {
        let probe = stream_probe(url, headers(), length);
        assert_eq!(probe.method, Method::Head);
        assert!(probe.own_headers.is_empty());
        assert_eq!(probe.url, url);
    }
}

#[test]
fn a_probe_passes_on_any_success_status() {
    assert!(probe_passed(Some(200)));
    assert!(probe_passed(Some(206)));
    assert!(probe_passed(Some(299)));
    assert!(!probe_passed(Some(199)));
    assert!(!probe_passed(Some(300)));
    assert!(!probe_passed(Some(403)));
    assert!(!probe_passed(None));
}

#[test]
fn a_token_is_appended_percent_encoded() {
    assert_eq!(append_token("https://h/p?n=x", "aZ09-_.~"), "https://h/p?n=x&pot=aZ09-_.~");
    assert_eq!(append_token("https://h/p", "a=b&c?d/e+"), "https://h/p?pot=a%3Db%26c%3Fd%2Fe%2B");
    assert_eq!(append_token("", "é %"), "?pot=%C3%A9%20%25");
    assert_eq!(append_token("u?", ""), "u?&pot=");
}

#[test]
fn numbers_are_read_as_plain_decimals() {
    assert_eq!(parse_u64("0"), Some(0));
    assert_eq!(parse_u64("+7"), Some(7));
    assert_eq!(parse_u64("007"), Some(7));
    assert_eq!(parse_u64("18446744073709551615"), Some(u64::MAX));
    for bad in ["", "+", "-1", " 1", "1 ", "1_0", "0x1", "18446744073709551616", "++1", "٣"] {
        assert_eq!(parse_u64(bad), None, "{bad:?}");
        assert_eq!(bad.parse::<u64>().ok(), None, "{bad:?}");
    }
}

#[test]
fn numbers_are_written_and_read_back() {
    for n in [0, 9, 10, 99, 100, 4194303, u64::MAX] {
        assert_eq!(decimal_text(n), n.to_string());
        assert_eq!(parse_u64(&decimal_text(n)), Some(n));
    }
}

#[test]
fn text_is_compared_character_by_character() {
    assert!(same_text("é", "é"));
    assert!(!same_text("a", "A"));
    assert!(has_suffix("añb", "ñb"));
    assert!(has_suffix("x", ""));
    assert!(!has_suffix("b", "ab"));
    assert!(has_substring("xaab", "ab"));
    assert!(has_substring("", ""));
    assert!(!has_substring("ab", "abc"));
    assert!(!has_substring("acb", "ab"));
    assert!(has_char("a?b", '?'));
    assert!(!has_char("", '?'));
}

#[test]
fn a_map_keeps_one_value_per_key() {
    let mut map: StringMap<String> = StringMap::new();
    map.insert("a".to_owned(), "1".to_owned());
    map.insert("b".to_owned(), "2".to_owned());
    map.insert("a".to_owned(), "3".to_owned());
    assert_eq!(map.len(), 2);
    assert_eq!(map.get("a").map(String::as_str), Some("3"));
    assert_eq!(map.get("c"), None);
    assert_eq!(map.entries().len(), 2);
    let copy = map.copy();
    map.insert("c".to_owned(), "4".to_owned());
    assert_eq!((copy.len(), map.len()), (2, 3));
    assert_eq!(copy.get("b").map(String::as_str), Some("2"));
}

#[test]
fn a_set_knows_its_items() {
    let mut set = StringSet::new();
    assert!(!set.contains("a"));
    set.insert("a".to_owned());
    set.insert("a".to_owned());
    assert!(set.contains("a"));
    assert!(!set.contains("b"));
}
