use limusic::clients::STREAM_FALLBACK_ORDER;
use limusic::model::Loudness;
use limusic::rustypipe_fallback::{
    map_err, pick_audio, resolve, AudioStream, AudioTrack, ExtractorError, FallbackError,
    VideoPlayer,
};

/// IOS only serves bounded-Range requests, so it must never be a stream client.
#[test]
fn ios_is_not_a_stream_client() {
    assert!(!STREAM_FALLBACK_ORDER.contains(&"IOS"));
}

#[test]
fn only_a_verdict_counts_as_an_answer() {
    assert!(FallbackError::AgeRestricted.answered());
    assert!(FallbackError::Unavailable("gone".into()).answered());
    assert!(FallbackError::NoAudio.answered());
    assert!(
        !FallbackError::RustyPipe("connection refused".into()).answered(),
        "a transport failure must still read as an outage"
    );
}

#[test]
fn fallback_errors_say_what_went_wrong() {
    assert_eq!(FallbackError::AgeRestricted.message(), "age-restricted (rustypipe)");
    assert_eq!(FallbackError::Unavailable("gone".into()).message(), "unavailable: gone");
    assert_eq!(FallbackError::NoAudio.message(), "no audio stream in rustypipe result");
    assert_eq!(FallbackError::RustyPipe("dns".into()).message(), "rustypipe: dns");
}

fn stream(itag: u32, mime: &str, bitrate: u32, track: Option<bool>) -> AudioStream {
    AudioStream {
        url: format!("https://s/{itag}"),
        itag,
        mime: mime.to_owned(),
        size: 1000 + itag as u64,
        bitrate,
        loudness_db: None,
        track: track.map(|is_default| AudioTrack { is_default }),
    }
}

fn pick(streams: Vec<AudioStream>, prefer_high: bool) -> Option<u32> {
    pick_audio(&streams, prefer_high).map(|s| s.itag)
}

#[test]
fn high_quality_takes_the_best_codec_then_the_highest_bitrate() {
    let streams = || {
        vec![
            stream(1, "audio/mp4; codecs=\"mp4a.40.2\"", 256_000, None),
            stream(2, "audio/webm; codecs=\"opus\"", 50_000, None),
            stream(3, "audio/webm; codecs=\"opus\"", 160_000, None),
            stream(4, "audio/webm; codecs=\"opus\"", 160_000, None),
            stream(5, "audio/flac", 999_000, None),
        ]
    };
    assert_eq!(pick(streams(), true), Some(4), "the last of two equals");
    assert_eq!(pick(vec![stream(5, "flac", 9, None)], true), Some(5));
    assert_eq!(pick(vec![], true), None);
}

#[test]
fn low_quality_takes_the_lowest_bitrate() {
    assert_eq!(
        pick(
            vec![
                stream(1, "opus", 48_000, None),
                stream(2, "mp4a", 128_000, None),
                stream(3, "opus", 128_000, None),
                stream(4, "opus", 128_001, None),
            ],
            false
        ),
        Some(1)
    );
    assert_eq!(
        pick(
            vec![
                stream(1, "opus", 128_001, None),
                stream(2, "mp4a", 128_000, None),
                stream(3, "opus", 128_000, None),
            ],
            false
        ),
        Some(2),
        "the first of the lowest under the cap"
    );
    assert_eq!(
        pick(
            vec![
                stream(1, "opus", 300_000, None),
                stream(2, "opus", 200_000, None),
                stream(3, "opus", 200_000, None),
            ],
            false
        ),
        Some(2),
        "all over the cap: the first of the lowest"
    );
    assert_eq!(pick(vec![], false), None);
}

#[test]
fn a_dubbed_track_is_picked_only_without_an_original() {
    let dubbed = || {
        vec![
            stream(1, "opus", 160_000, Some(false)),
            stream(2, "mp4a", 50_000, Some(true)),
            stream(3, "opus", 170_000, Some(false)),
        ]
    };
    assert_eq!(pick(dubbed(), true), Some(2));
    assert_eq!(pick(dubbed(), false), Some(2));
    assert_eq!(
        pick(vec![stream(1, "opus", 9, Some(false)), stream(2, "opus", 8, Some(false))], true),
        Some(1)
    );
}

#[test]
fn an_extraction_becomes_a_candidate() {
    let mut s = stream(251, "opus", 160_000, None);
    s.loudness_db = Some(Loudness { bits: 2.0f64.to_bits() });
    let player = VideoPlayer {
        audio_streams: vec![s],
        expires_in_seconds: 21540,
        name: Some("Title".to_owned()),
        duration: 213,
    };
    let c = resolve(Ok(player), true).expect("candidate");
    assert_eq!((c.url.as_str(), c.itag, c.mime.as_str()), ("https://s/251", 251, "opus"));
    assert_eq!((c.size, c.bitrate, c.expires_in_seconds), (1251, 160_000, 21540));
    assert_eq!(c.loudness_db, Some(Loudness { bits: 2.0f64.to_bits() }));
    assert_eq!(c.title.as_deref(), Some("Title"));
    assert_eq!(c.duration_secs, Some(213));
}

#[test]
fn an_extraction_fails_by_its_kind() {
    let empty = VideoPlayer {
        audio_streams: vec![],
        expires_in_seconds: 0,
        name: None,
        duration: 0,
    };
    assert!(matches!(resolve(Ok(empty), true), Err(FallbackError::NoAudio)));
    let unavailable = |age_restricted| ExtractorError::Unavailable {
        age_restricted,
        msg: "private".to_owned(),
    };
    assert!(matches!(resolve(Err(unavailable(true)), true), Err(FallbackError::AgeRestricted)));
    assert!(
        matches!(resolve(Err(unavailable(false)), true), Err(FallbackError::Unavailable(m)) if m == "private")
    );
    assert!(
        matches!(map_err(ExtractorError::Other("dns".to_owned())), FallbackError::RustyPipe(m) if m == "dns")
    );
}
