use limusic::chain::{Event, ResolveRequest};
use limusic::clients::{
    Clients, YouTubeClient, MAIN_CLIENT, STREAM_FALLBACK_ORDER, UPLOAD_FALLBACK_ORDER,
};
use limusic::model::{
    AudioConfig, AudioQuality, Format, Loudness, PlayabilityStatus, PlaybackTracking,
    PlayerConfig, PlayerResponse, StreamingData, Thumbnail, ThumbnailList, TrackingUrl,
    VideoDetails,
};
use limusic::orchestrator::Orchestrator;
use limusic::outcome::MOST_CALLS;
use limusic::playback::{PlaybackData, ResolveError};
use limusic::resolver::{Action, PlayerCall};
use limusic::rustypipe_fallback::{FallbackError, StreamCandidate};
use limusic::string_map::{StringMap, StringSet};

const CDN: &str = "https://rr5---sn-abc.googlevideo.com/videoplayback";

fn client(name: &str, tokens: bool, timestamp: bool, login_required: bool) -> YouTubeClient {
    YouTubeClient {
        client_name: name.to_owned(),
        client_version: "1".to_owned(),
        client_id: "1".to_owned(),
        user_agent: format!("UA/{name}"),
        os_name: None,
        os_version: None,
        device_make: None,
        device_model: None,
        android_sdk_version: None,
        build_id: None,
        cronet_version: None,
        package_name: None,
        friendly_name: None,
        login_supported: login_required,
        login_required,
        use_signature_timestamp: timestamp,
        is_embedded: false,
        use_web_po_tokens: tokens,
    }
}

fn registry() -> Clients {
    let mut table: StringMap<YouTubeClient> = StringMap::new();
    for (key, tokens, timestamp, login) in [
        ("WEB_REMIX", true, true, false),
        ("VISIONOS", false, false, false),
        ("TVHTML5_SIMPLY", true, true, false),
        ("TVHTML5", false, true, true),
        ("WEB_CREATOR", false, true, true),
    ] {
        table.insert(key.to_owned(), client(key, tokens, timestamp, login));
    }
    Clients::from_table(table)
}

fn format(url: &str, quality: &str, bitrate: i64) -> Format {
    Format {
        itag: bitrate as i32,
        mime_type: "audio/webm; codecs=\"opus\"".to_owned(),
        bitrate,
        audio_quality: Some(quality.to_owned()),
        audio_channels: Some(2),
        content_length: Some("4194304".to_owned()),
        loudness_db: None,
        direct_url: Some(url.to_owned()),
        cipher_string: None,
    }
}

fn refusal(status: &str, age_gated: bool) -> PlayerResponse {
    PlayerResponse {
        playability_status: PlayabilityStatus {
            status: status.to_owned(),
            reason: None,
            ok: false,
            age_gated,
        },
        streaming_data: None,
        video_details: None,
        player_config: None,
        playback_tracking: None,
    }
}

fn serving(picked: Option<Format>, others: Vec<Format>) -> PlayerResponse {
    let mut resp = refusal("OK", false);
    resp.playability_status.ok = true;
    resp.streaming_data = Some(StreamingData {
        expires_in_seconds: Some(21540),
        adaptive_formats: others,
        picked,
    });
    resp
}

fn titled(mut resp: PlayerResponse, title: &str, ping: Option<&str>) -> PlayerResponse {
    resp.video_details = Some(VideoDetails {
        title: Some(title.to_owned()),
        author: Some("Artist".to_owned()),
        length_seconds: Some("213".to_owned()),
        thumbnail: Some(ThumbnailList {
            thumbnails: vec![Thumbnail { url: "t0".to_owned() }, Thumbnail { url: "t1".to_owned() }],
        }),
        is_music_video: Some(false),
    });
    resp.playback_tracking = Some(PlaybackTracking {
        videostats_playback_url: Some(TrackingUrl { base_url: ping.map(|p| p.to_owned()) }),
    });
    resp
}

fn loud(mut resp: PlayerResponse, db: f64) -> PlayerResponse {
    let loudness_db = Some(Loudness { bits: db.to_bits() });
    resp.player_config = Some(PlayerConfig { audio_config: Some(AudioConfig { loudness_db }) });
    resp
}

type Answer = Box<dyn Fn() -> PlayerResponse>;

struct World {
    answers: Vec<(&'static str, Answer)>,
    session_token: Option<&'static str>,
    stream_token: Option<&'static str>,
    deciphered: Option<&'static str>,
    cookie: Option<&'static str>,
    barred: bool,
    served: fn(&str) -> bool,
    extracted: fn() -> Result<StreamCandidate, FallbackError>,
}

fn world() -> World {
    World {
        answers: vec![],
        session_token: Some("sess"),
        stream_token: Some("st/1"),
        deciphered: None,
        cookie: Some("SAPISID=secret"),
        barred: false,
        served: |_| true,
        extracted: || Err(FallbackError::RustyPipe("connection refused".to_owned())),
    }
}

impl World {
    fn answer(mut self, key: &'static str, f: impl Fn() -> PlayerResponse + 'static) -> World {
        self.answers.push((key, Box::new(f)));
        self
    }
}

fn request(is_upload: bool, logged_in: bool) -> ResolveRequest {
    ResolveRequest {
        video_id: "vid".to_owned(),
        is_upload,
        quality: AudioQuality::Auto,
        disabled: StringSet::new(),
        logged_in,
        visitor: Some("visitor".to_owned()),
    }
}

fn without(mut req: ResolveRequest, keys: &[&str]) -> ResolveRequest {
    for key in keys {
        req.disabled.insert((*key).to_owned());
    }
    req
}

fn call_text(call: &PlayerCall) -> String {
    format!(
        "player {} {:?} {:?} {:?}",
        call.client,
        call.playlist_id.as_deref(),
        call.sts,
        call.pot.as_deref()
    )
}

fn drive(world: &World, req: ResolveRequest) -> (Result<PlaybackData, ResolveError>, Vec<String>) {
    let orchestrator = Orchestrator::new(registry());
    let mut log = vec![];
    let mut asked: Vec<String> = vec![];
    let mut turn = orchestrator.resolve(req);
    loop {
        let (resolver, action) = turn;
        let event = match action {
            Action::Done(result) => {
                assert!(asked.len() <= MOST_CALLS);
                return (result, log);
            }
            Action::SignatureTimestamp => Event::Timestamp(Some(20000)),
            Action::SessionToken { visitor } => {
                log.push(format!("session-token {visitor}"));
                Event::Token(world.session_token.map(|t| t.to_owned()))
            }
            Action::Player(call) => {
                log.push(call_text(&call));
                let found = world.answers.iter().find(|(k, _)| *k == call.client);
                Event::Answer(found.map(|(_, f)| f()))
            }
            Action::CheckBar => Event::Barred(world.barred),
            Action::Decipher { cipher } => {
                log.push(format!("decipher {cipher}"));
                Event::Deciphered(world.deciphered.map(|u| u.to_owned()))
            }
            Action::TransformN { url } => {
                log.push("transform".to_owned());
                Event::Transformed(url.replace("n=x", "n=y"))
            }
            Action::StreamToken { visitor } => {
                log.push(format!("stream-token {visitor}"));
                Event::Token(world.stream_token.map(|t| t.to_owned()))
            }
            Action::ReadCookie => Event::Cookie(world.cookie.map(|c| c.to_owned())),
            Action::Probe { url, headers, content_length } => {
                let ua = headers.get("User-Agent").cloned().unwrap_or_default();
                log.push(format!("probe {url} {ua} {content_length:?}"));
                Event::Probed((world.served)(&url))
            }
            Action::SelfHeal => {
                log.push("heal".to_owned());
                Event::Healed
            }
            Action::Extract { prefer_high } => {
                log.push(format!("extract {prefer_high}"));
                Event::Extracted((world.extracted)())
            }
        };
        asked.push(String::new());
        assert!(resolver.accepts(&event));
        turn = orchestrator.advance(resolver, event);
    }
}

fn headers_of(data: &PlaybackData) -> Vec<(&str, &str)> {
    data.headers.entries().iter().map(|(k, v)| (k.as_str(), v.as_str())).collect()
}

#[test]
fn the_main_client_plays_when_its_url_is_served() {
    let w = world().answer("WEB_REMIX", || {
        loud(
            titled(
                serving(Some(format(&format!("{CDN}?n=x"), "AUDIO_QUALITY_MEDIUM", 128)), vec![]),
                "Main",
                Some("https://ping/main"),
            ),
            1.5,
        )
    });
    let (result, log) = drive(&w, request(false, false));
    let data = result.expect("plays");
    assert_eq!(data.video_id, "vid");
    assert_eq!(data.stream_url, format!("{CDN}?n=y&pot=st%2F1"));
    assert_eq!(data.stream_client, MAIN_CLIENT);
    assert_eq!(headers_of(&data), [("User-Agent", "UA/WEB_REMIX")]);
    assert_eq!((data.itag, data.expires_in_seconds), (128, 21540));
    assert_eq!(data.loudness_db, Some(Loudness { bits: 1.5f64.to_bits() }));
    let ping = data.playback_ping.expect("ping");
    assert_eq!((ping.url.as_str(), ping.client.as_str()), ("https://ping/main", "WEB_REMIX"));
    assert_eq!(data.title.as_deref(), Some("Main"));
    assert_eq!(data.thumbnail.as_deref(), Some("t1"));
    assert_eq!(data.is_video, Some(false));
    assert_eq!(
        log,
        [
            "session-token visitor".to_owned(),
            "player WEB_REMIX None Some(20000) Some(\"sess\")".to_owned(),
            "transform".to_owned(),
            "stream-token visitor".to_owned(),
            format!("probe {CDN}?n=y&pot=st%2F1 UA/WEB_REMIX Some(4194304)"),
        ]
    );
}

#[test]
fn metadata_stays_with_the_main_answer_when_a_fallback_plays() {
    let mut w = world()
        .answer("WEB_REMIX", || {
            titled(
                serving(Some(format(&format!("{CDN}?main"), "AUDIO_QUALITY_LOW", 1)), vec![]),
                "Main",
                None,
            )
        })
        .answer("VISIONOS", || {
            loud(
                titled(
                    serving(Some(format(&format!("{CDN}?vision"), "AUDIO_QUALITY_LOW", 2)), vec![]),
                    "Other",
                    Some("https://ping/vision"),
                ),
                -2.0,
            )
        });
    w.served = |url| url.contains("vision");
    let (result, log) = drive(&w, request(false, false));
    let data = result.expect("plays");
    assert_eq!(data.stream_client, "VISIONOS");
    assert_eq!(data.stream_url, format!("{CDN}?vision"), "a direct client's URL stays as it came");
    assert_eq!(data.title.as_deref(), Some("Main"));
    let ping = data.playback_ping.expect("ping");
    assert_eq!((ping.url.as_str(), ping.client.as_str()), ("https://ping/vision", "VISIONOS"));
    assert_eq!(data.loudness_db, Some(Loudness { bits: (-2.0f64).to_bits() }));
    assert!(log.contains(&"heal".to_owned()), "a refused web stream sets off a self-heal");
    assert!(log.contains(&"player VISIONOS None None None".to_owned()));
}

#[test]
fn a_barred_main_client_is_passed_over() {
    let mut w = world()
        .answer("WEB_REMIX", || {
            titled(serving(Some(format("https://h/m", "AUDIO_QUALITY_LOW", 1)), vec![]), "M", None)
        })
        .answer("VISIONOS", || serving(Some(format("https://h/v", "AUDIO_QUALITY_LOW", 2)), vec![]));
    w.barred = true;
    let data = drive(&w, request(false, false)).0.expect("plays");
    assert_eq!(data.stream_client, "VISIONOS");
    assert_eq!(data.title.as_deref(), Some("M"));
    w.barred = false;
    let data = drive(&w, request(false, false)).0.expect("plays");
    assert_eq!(data.stream_client, "WEB_REMIX");
}

#[test]
fn a_url_off_the_cdn_is_handed_no_token() {
    let w = world().answer("WEB_REMIX", || {
        let mut f = format("https://feed.example/e.mp3", "AUDIO_QUALITY_LOW", 1);
        f.content_length = Some("0".to_owned());
        serving(Some(f), vec![])
    });
    let (result, log) = drive(&w, request(false, false));
    assert_eq!(result.expect("plays").stream_url, "https://feed.example/e.mp3");
    assert_eq!(log.last().unwrap(), "probe https://feed.example/e.mp3 UA/WEB_REMIX None");
}

#[test]
fn a_missing_token_skips_the_clients_that_need_one() {
    let mut w = world()
        .answer("WEB_REMIX", || refusal("UNPLAYABLE", false))
        .answer("VISIONOS", || refusal("UNPLAYABLE", false));
    w.session_token = None;
    let (result, log) = drive(&w, request(false, false));
    assert!(matches!(result, Err(ResolveError::AllClientsFailed(id)) if id == "vid"));
    assert!(!log.iter().any(|l| l.contains("TVHTML5_SIMPLY")));
    assert_eq!(log.last().unwrap(), "extract true");
}

#[test]
fn switching_the_main_client_off_keeps_the_others_token() {
    let mut w = world()
        .answer("VISIONOS", || refusal("UNPLAYABLE", false))
        .answer("TVHTML5_SIMPLY", || {
            let mut f = format("", "AUDIO_QUALITY_LOW", 7);
            f.direct_url = None;
            f.cipher_string = Some("s=1".to_owned());
            serving(Some(f), vec![])
        });
    w.deciphered = Some("https://rr1.googlevideo.com/d?n=x");
    let (result, log) = drive(&w, without(request(false, false), &["WEB_REMIX"]));
    let data = result.expect("plays");
    assert_eq!(data.stream_url, "https://rr1.googlevideo.com/d?n=y&pot=st%2F1");
    assert_eq!((data.title, data.is_video), (None, None));
    assert_eq!(
        log[..4],
        [
            "session-token visitor",
            "player VISIONOS None None None",
            "player TVHTML5_SIMPLY None Some(20000) Some(\"sess\")",
            "decipher s=1",
        ]
    );
}

#[test]
fn a_broken_cipher_passes_to_the_next_client() {
    let w = world()
        .answer("WEB_REMIX", || {
            let mut f = format("", "AUDIO_QUALITY_LOW", 7);
            f.direct_url = None;
            f.cipher_string = Some("s=1".to_owned());
            serving(Some(f), vec![])
        })
        .answer("VISIONOS", || serving(Some(format("https://h/v", "AUDIO_QUALITY_LOW", 2)), vec![]));
    assert_eq!(drive(&w, request(false, false)).0.expect("plays").stream_client, "VISIONOS");
}

#[test]
fn without_a_token_client_no_token_is_minted() {
    let w = world();
    let req = without(request(false, false), &["WEB_REMIX", "TVHTML5_SIMPLY"]);
    let (_, log) = drive(&w, req);
    assert_eq!(log, ["player VISIONOS None None None", "extract true"]);
    let mut req = request(false, false);
    req.visitor = None;
    assert!(!drive(&w, req).1.iter().any(|l| l.starts_with("session-token")));
}

#[test]
fn the_best_quality_is_looked_for_and_the_best_other_kept() {
    let high = || format("https://h/high", "AUDIO_QUALITY_HIGH", 9);
    let w = world()
        .answer("WEB_REMIX", move || {
            serving(Some(format("https://h/a", "AUDIO_QUALITY_MEDIUM", 1)), vec![high()])
        })
        .answer("VISIONOS", || {
            serving(Some(format("https://h/b", "AUDIO_QUALITY_MEDIUM", 2)), vec![])
        })
        .answer("TVHTML5_SIMPLY", || {
            serving(Some(format("https://h/c", "AUDIO_QUALITY_LOW", 900)), vec![])
        });
    let (result, log) = drive(&w, request(false, false));
    let data = result.expect("plays");
    assert_eq!(data.stream_url, "https://h/b");
    assert_eq!(headers_of(&data), [("User-Agent", "UA/VISIONOS")]);
    let probes: Vec<&String> = log.iter().filter(|l| l.starts_with("probe")).collect();
    assert_eq!(
        probes,
        ["probe https://h/b UA/VISIONOS Some(4194304)"],
        "the best of the streams set aside is probed, once the clients are used up"
    );
    assert!(!log.iter().any(|l| l.starts_with("extract")));

    let mut req = request(false, false);
    req.quality = AudioQuality::Low;
    assert_eq!(drive(&w, req).0.expect("plays").stream_url, "https://h/a");

    let mut w = w;
    w.answers.pop();
    let w = w.answer("TVHTML5_SIMPLY", move || serving(Some(high()), vec![]));
    assert_eq!(drive(&w, request(false, false)).0.expect("plays").stream_url, "https://h/high");
}

#[test]
fn a_refused_stream_that_was_set_aside_is_not_played() {
    let answered = |key: &'static str| {
        world().answer(key, || {
            serving(
                Some(format(&format!("{CDN}?low&n=x"), "AUDIO_QUALITY_LOW", 1)),
                vec![format("https://h/high", "AUDIO_QUALITY_HIGH", 9)],
            )
        })
    };
    let mut w = answered("WEB_REMIX");
    w.extracted = found;
    w.served = |url| url.contains("?rp");
    let (result, log) = drive(&w, request(false, false));
    assert_eq!(result.expect("plays").stream_client, "rustypipe");
    assert_eq!(
        log[log.len() - 4..],
        [
            format!("probe {CDN}?low&n=y&pot=st%2F1 UA/WEB_REMIX Some(4194304)"),
            "heal".to_owned(),
            "extract true".to_owned(),
            format!("probe {CDN}?rp  Some(77)"),
        ]
    );

    w.extracted = || Err(FallbackError::Unavailable("gone".to_owned()));
    assert!(matches!(
        drive(&w, request(false, false)).0,
        Err(ResolveError::AllClientsFailed(_))
    ));

    let (result, log) = drive(&w, request(true, true));
    let data = result.expect("plays");
    assert_eq!(data.stream_client, "WEB_REMIX", "an upload's is demoted, not rejected");
    assert_eq!(log.last().unwrap(), "heal");
    assert_eq!(data.headers.get("Cookie").map(String::as_str), Some("SAPISID=secret"));
}

#[test]
fn an_upload_plays_its_best_other_before_a_refused_stream() {
    let high = |url: &str| format(url, "AUDIO_QUALITY_HIGH", 9);
    let mut w = world()
        .answer("WEB_REMIX", move || {
            serving(Some(high("https://h/main")), vec![high("https://h/main")])
        })
        .answer("TVHTML5", || {
            serving(Some(format("https://h/tv", "AUDIO_QUALITY_LOW", 1)), vec![])
        })
        .answer("WEB_CREATOR", move || serving(Some(high("https://h/creator")), vec![]));
    w.barred = true;
    w.served = |_| false;
    let (result, log) = drive(&w, request(true, true));
    let data = result.expect("plays");
    assert_eq!((data.stream_url.as_str(), data.stream_client.as_str()), ("https://h/tv", "TVHTML5"));
    assert_eq!(
        headers_of(&data),
        [("User-Agent", "UA/TVHTML5"), ("Cookie", "SAPISID=secret")]
    );
    assert_eq!(
        log[log.len() - 3..],
        [
            "probe https://h/creator UA/WEB_CREATOR Some(4194304)",
            "probe https://h/tv UA/TVHTML5 Some(4194304)",
            "heal",
        ]
    );

    // The same with the first refused stream in front of it.
    w.barred = false;
    let data = drive(&w, request(true, true)).0.expect("plays");
    assert_eq!(data.stream_client, "TVHTML5");

    // One that is served comes before all of them.
    w.served = |url| url.contains("creator");
    let data = drive(&w, request(true, true)).0.expect("plays");
    assert_eq!(data.stream_client, "WEB_CREATOR");
}

#[test]
fn no_call_is_made_twice() {
    let mut w = world()
        .answer("WEB_REMIX", || {
            serving(
                Some(format(&format!("{CDN}?main"), "AUDIO_QUALITY_LOW", 1)),
                vec![format("https://h/high", "AUDIO_QUALITY_HIGH", 9)],
            )
        })
        .answer("VISIONOS", || {
            serving(Some(format("https://h/v", "AUDIO_QUALITY_HIGH", 2)), vec![])
        })
        .answer("TVHTML5_SIMPLY", || {
            serving(Some(format("https://h/t", "AUDIO_QUALITY_HIGH", 3)), vec![])
        });
    w.served = |_| false;
    w.extracted = found;
    let (result, log) = drive(&w, request(false, false));
    assert!(matches!(result, Err(ResolveError::AllClientsFailed(_))));
    let unique: std::collections::HashSet<&String> = log.iter().collect();
    assert_eq!(unique.len(), log.len());
    assert_eq!(log.iter().filter(|l| l.starts_with("probe")).count(), 4);
}

#[test]
fn an_equal_stream_does_not_displace_the_one_kept() {
    let w = world()
        .answer("WEB_REMIX", || {
            serving(
                Some(format("https://h/a", "AUDIO_QUALITY_MEDIUM", 2)),
                vec![format("https://h/high", "AUDIO_QUALITY_HIGH", 9)],
            )
        })
        .answer("VISIONOS", || {
            serving(Some(format("https://h/b", "AUDIO_QUALITY_MEDIUM", 2)), vec![])
        });
    assert_eq!(drive(&w, request(false, false)).0.expect("plays").stream_url, "https://h/a");
}

#[test]
fn an_age_gate_is_retried_in_a_session() {
    let w = world()
        .answer("WEB_REMIX", || refusal("LOGIN_REQUIRED", true))
        .answer("WEB_CREATOR", || {
            titled(
                serving(Some(format(&format!("{CDN}?n=x"), "AUDIO_QUALITY_LOW", 1)), vec![]),
                "Gated",
                Some("https://ping/creator"),
            )
        });
    let (result, log) = drive(&w, request(false, true));
    let data = result.expect("plays");
    assert_eq!(data.title.as_deref(), Some("Gated"));
    assert_eq!(data.stream_client, "WEB_CREATOR", "the client that produced the stream");
    assert_eq!(
        data.stream_url,
        format!("{CDN}?n=y&pot=st%2F1"),
        "the first slot's token goes by the main client"
    );
    assert_eq!(headers_of(&data), [("User-Agent", "UA/WEB_CREATOR")]);
    assert_eq!(
        log[log.len() - 3..],
        [
            "transform".to_owned(),
            "stream-token visitor".to_owned(),
            format!("probe {CDN}?n=y&pot=st%2F1 UA/WEB_CREATOR Some(4194304)"),
        ]
    );
    let ping = data.playback_ping.expect("ping");
    assert_eq!((ping.url.as_str(), ping.client.as_str()), ("https://ping/creator", "WEB_CREATOR"));
    assert!(log.contains(&"player WEB_CREATOR None Some(20000) None".to_owned()));

    let (result, log) = drive(&w, request(false, false));
    assert!(matches!(result, Err(ResolveError::SignInRequired(_))));
    assert!(!log.iter().any(|l| l.contains("WEB_CREATOR")), "the retry needs a session");
}

#[test]
fn a_switched_off_client_is_not_asked() {
    let w = world()
        .answer("VISIONOS", || serving(Some(format("https://h/v", "AUDIO_QUALITY_LOW", 2)), vec![]))
        .answer("TVHTML5_SIMPLY", || {
            serving(Some(format("https://h/t", "AUDIO_QUALITY_LOW", 3)), vec![])
        });
    let (result, log) = drive(&w, without(request(false, false), &["WEB_REMIX", "VISIONOS"]));
    assert_eq!(result.expect("plays").stream_client, "TVHTML5_SIMPLY");
    assert!(!log.iter().any(|l| l.contains("VISIONOS") || l.contains("WEB_REMIX")));

    // The retry of a gated track is not one of the stream clients that can be switched off.
    let w = world().answer("WEB_REMIX", || refusal("LOGIN_REQUIRED", true));
    let (_, log) = drive(&w, without(request(false, true), &["WEB_CREATOR"]));
    assert!(log.iter().any(|l| l.starts_with("player WEB_CREATOR")));
}

#[test]
fn an_upload_carries_the_cookie_and_its_playlist() {
    let w = world().answer("WEB_REMIX", || {
        serving(Some(format("https://rr2.c.youtube.com/v?n=x", "AUDIO_QUALITY_LOW", 1)), vec![])
    });
    let (result, log) = drive(&w, request(true, true));
    let data = result.expect("plays");
    assert_eq!(data.stream_url, "https://rr2.c.youtube.com/v?n=y&pot=st%2F1");
    assert_eq!(
        headers_of(&data),
        [("User-Agent", "UA/WEB_REMIX"), ("Cookie", "SAPISID=secret")]
    );
    assert!(log.contains(&"player WEB_REMIX Some(\"MLPT\") Some(20000) Some(\"sess\")".to_owned()));
}

#[test]
fn a_refused_upload_stream_is_demoted_not_rejected() {
    let mut w = world()
        .answer("WEB_REMIX", || {
            serving(Some(format(&format!("{CDN}?main"), "AUDIO_QUALITY_LOW", 1)), vec![])
        })
        .answer("TVHTML5", || {
            serving(Some(format(&format!("{CDN}?tv"), "AUDIO_QUALITY_LOW", 2)), vec![])
        });
    w.served = |url| url.contains("tv");
    let (result, log) = drive(&w, request(true, true));
    assert_eq!(result.expect("plays").stream_client, UPLOAD_FALLBACK_ORDER[0]);
    assert!(!log.contains(&"heal".to_owned()));

    w.served = |_| false;
    let (result, log) = drive(&w, request(true, true));
    let data = result.expect("plays");
    assert_eq!(data.stream_client, "WEB_REMIX", "the first URL that a login client produced");
    assert_eq!(data.headers.get("Cookie").map(String::as_str), Some("SAPISID=secret"));
    assert_eq!(log.iter().filter(|l| *l == "heal").count(), 1);
    assert!(!log.iter().any(|l| l.starts_with("extract")));
}

#[test]
fn an_upload_without_a_stream_is_reported_as_one() {
    let (result, log) = drive(&world(), request(true, true));
    assert!(matches!(result, Err(ResolveError::UploadUnavailable(id)) if id == "vid"));
    assert!(!log.iter().any(|l| l.starts_with("extract")));

    let (_, log) = drive(&world(), request(true, false));
    assert_eq!(log.iter().filter(|l| l.starts_with("player")).count(), 1, "no session, no chain");
}

fn found() -> Result<StreamCandidate, FallbackError> {
    Ok(StreamCandidate {
        url: format!("{CDN}?rp"),
        itag: 251,
        mime: "audio/webm".to_owned(),
        size: 77,
        bitrate: 160_000,
        expires_in_seconds: 3600,
        loudness_db: None,
        title: Some("Extracted".to_owned()),
        duration_secs: Some(213),
    })
}

#[test]
fn the_extractor_is_the_last_resort() {
    let mut w = world();
    w.extracted = found;
    let (result, log) = drive(&w, request(false, false));
    let data = result.expect("plays");
    assert_eq!(data.stream_client, "rustypipe");
    assert_eq!(data.stream_url, format!("{CDN}?rp"));
    assert_eq!((data.itag, data.expires_in_seconds), (251, 3600));
    assert_eq!(data.title.as_deref(), Some("Extracted"));
    assert_eq!(data.duration.as_deref(), Some("213"));
    assert!(headers_of(&data).is_empty());
    assert!(data.artists.is_none() && data.thumbnail.is_none() && data.playback_ping.is_none());
    assert_eq!(log.last().unwrap(), &format!("probe {CDN}?rp  Some(77)"));

    w.served = |_| false;
    assert!(
        matches!(drive(&w, request(false, false)).0, Err(ResolveError::AllClientsFailed(_))),
        "the extractor answered, so this is about the track"
    );
}

#[test]
fn silence_is_an_outage_and_a_verdict_is_not() {
    let mut w = world();
    assert!(matches!(
        drive(&w, request(false, false)).0,
        Err(ResolveError::Unreachable(id)) if id == "vid"
    ));
    w.extracted = || Err(FallbackError::Unavailable("gone".to_owned()));
    assert!(matches!(
        drive(&w, request(false, false)).0,
        Err(ResolveError::AllClientsFailed(_))
    ));
    let w = world().answer("VISIONOS", || refusal("LOGIN_REQUIRED", false));
    assert!(matches!(drive(&w, request(false, false)).0, Err(ResolveError::SignInRequired(_))));
    assert!(matches!(drive(&w, request(false, true)).0, Err(ResolveError::AllClientsFailed(_))));
}

#[test]
fn signing_in_is_asked_for_when_every_answer_asks() {
    let off = &["TVHTML5_SIMPLY"];
    let mut w = world()
        .answer("WEB_REMIX", || refusal("LOGIN_REQUIRED", false))
        .answer("VISIONOS", || refusal("UNPLAYABLE", false));
    w.extracted = || Err(FallbackError::Unavailable("gone".to_owned()));
    assert!(
        matches!(
            drive(&w, without(request(false, false), off)).0,
            Err(ResolveError::AllClientsFailed(id)) if id == "vid"
        ),
        "one client refused the track itself"
    );

    let mut w = world()
        .answer("WEB_REMIX", || refusal("LOGIN_REQUIRED", false))
        .answer("VISIONOS", || refusal("LOGIN_REQUIRED", false));
    w.extracted = || Err(FallbackError::Unavailable("gone".to_owned()));
    assert!(matches!(
        drive(&w, without(request(false, false), off)).0,
        Err(ResolveError::SignInRequired(id)) if id == "vid"
    ));

    let w = world()
        .answer("VISIONOS", || serving(None, vec![]))
        .answer("TVHTML5_SIMPLY", || refusal("LOGIN_REQUIRED", false));
    assert!(matches!(
        drive(&w, without(request(false, false), &["WEB_REMIX"])).0,
        Err(ResolveError::AllClientsFailed(_))
    ));
}

#[test]
fn an_event_that_was_not_asked_for_is_not_accepted() {
    let orchestrator = Orchestrator::new(registry());
    let (resolver, action) = orchestrator.resolve(request(false, false));
    assert!(matches!(action, Action::SignatureTimestamp));
    assert!(resolver.accepts(&Event::Timestamp(None)));
    assert!(!resolver.accepts(&Event::Healed));
    assert!(!resolver.accepts(&Event::Answer(None)));
}

#[test]
fn the_orchestrator_remembers_and_forgets_failures() {
    let mut o = Orchestrator::new(registry());
    assert!(!o.web_remix_barred("a", 10));
    o.mark_web_remix_failed("a", 10);
    assert!(o.web_remix_barred("a", 11));
    assert!(!o.web_remix_barred("b", 11));
    assert!(o.self_heal(20));
    assert!(!o.self_heal(21));
    o.heal_finished(false);
    assert!(o.web_remix_barred("a", 22));
    o.heal_finished(true);
    assert!(!o.web_remix_barred("a", 23));
}

#[test]
fn each_kind_of_track_has_its_own_chain() {
    assert_eq!(STREAM_FALLBACK_ORDER, ["VISIONOS", "TVHTML5_SIMPLY"]);
    assert_eq!(UPLOAD_FALLBACK_ORDER, ["TVHTML5", "WEB_CREATOR"]);
    let w = world();
    let asked = |req| -> Vec<String> {
        let log = drive(&w, req).1;
        log.iter().filter_map(|l| l.split(' ').nth(1).filter(|_| l.starts_with("player"))).map(|k| k.to_owned()).collect()
    };
    assert_eq!(asked(request(false, true)), ["WEB_REMIX", "VISIONOS", "TVHTML5_SIMPLY"]);
    assert_eq!(asked(request(true, true)), ["WEB_REMIX", "TVHTML5", "WEB_CREATOR"]);
}

#[test]
fn a_cached_stream_gets_the_same_headers() {
    let o = Orchestrator::new(registry());
    let h = o.headers_for("TVHTML5", Some("c".to_owned()), true);
    assert_eq!(h.get("User-Agent").map(String::as_str), Some("UA/TVHTML5"));
    assert_eq!(h.get("Cookie").map(String::as_str), Some("c"));
    assert_eq!(o.headers_for("unknown", Some("c".to_owned()), false).len(), 0);

    for (key, is_upload) in [("WEB_REMIX", false), ("WEB_REMIX", true), ("TVHTML5", true)] {
        let w = world().answer(key, || {
            serving(Some(format(&format!("{CDN}?n=x"), "AUDIO_QUALITY_LOW", 1)), vec![])
        });
        let data = drive(&w, request(is_upload, true)).0.expect("plays");
        assert_eq!(data.stream_client, key);
        let again = o.headers_for(&data.stream_client, w.cookie.map(|c| c.to_owned()), is_upload);
        assert_eq!(again.entries(), data.headers.entries());
    }
    assert_eq!(o.client("VISIONOS").map(|c| c.user_agent.as_str()), Some("UA/VISIONOS"));
    assert!(o.client("IOS").is_none());
}

#[test]
fn a_video_is_asked_of_one_client_only() {
    let o = Orchestrator::new(registry());
    let call = o.resolve_video(&StringSet::new()).expect("call");
    assert_eq!(call_text(&call), "player VISIONOS None None None");
    let mut off = StringSet::new();
    off.insert("VISIONOS".to_owned());
    assert!(o.resolve_video(&off).is_none());
    let empty = Orchestrator::new(Clients::from_table(StringMap::new()));
    assert!(empty.resolve_video(&StringSet::new()).is_none());

    let url = |resp| Orchestrator::video_url(&resp);
    let plain = || serving(Some(format("https://h/v", "", 1)), vec![]);
    assert_eq!(url(Some(plain())).as_deref(), Some("https://h/v"));
    assert_eq!(url(None), None);
    assert_eq!(url(Some(refusal("UNPLAYABLE", false))), None);
    assert_eq!(url(Some(serving(None, vec![]))), None);
    let mut refused = plain();
    refused.playability_status.ok = false;
    assert_eq!(url(Some(refused)), None);
}
