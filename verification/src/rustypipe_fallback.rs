//! The last resort: an extractor that resolves a whole video id on its own, asked when every client
//! of the chain has failed.
use vstd::prelude::*;
use vstd::string::*;

use crate::model::{copy_text, Loudness};
use crate::playback::{self, codec_score};

verus! {

/// The audio track that a stream of a video with several belongs to.
#[derive(Debug)]
pub struct AudioTrack {
    pub is_default: bool,
}

/// One audio stream of an extracted video.
#[derive(Debug)]
pub struct AudioStream {
    pub url: String,
    pub itag: u32,
    pub mime: String,
    pub size: u64,
    pub bitrate: u32,
    pub loudness_db: Option<Loudness>,
    /// `None` when the video has one audio track only.
    pub track: Option<AudioTrack>,
}

/// An extracted video.
#[derive(Debug)]
pub struct VideoPlayer {
    pub audio_streams: Vec<AudioStream>,
    pub expires_in_seconds: u32,
    pub name: Option<String>,
    pub duration: u32,
}

/// How an extraction failed.
#[derive(Debug)]
pub enum ExtractorError {
    /// The service's own playability verdict.
    Unavailable { age_restricted: bool, msg: String },
    /// A transport, parse or cipher failure.
    Other(String),
}

/// A resolved stream.
#[derive(Debug)]
pub struct StreamCandidate {
    pub url: String,
    pub itag: u32,
    pub mime: String,
    /// Full file size in bytes.
    pub size: u64,
    pub bitrate: u32,
    pub expires_in_seconds: u32,
    pub loudness_db: Option<Loudness>,
    pub title: Option<String>,
    pub duration_secs: Option<u32>,
}

#[derive(Debug)]
pub enum FallbackError {
    AgeRestricted,
    Unavailable(String),
    NoAudio,
    RustyPipe(String),
}

impl FallbackError {
    /// Only a [`FallbackError::RustyPipe`] can be silence; the others are verdicts.
    pub open spec fn is_verdict(self) -> bool {
        !(self is RustyPipe)
    }

    /// Did the service answer? A refusal is a verdict on the track; only a failure of the extractor
    /// itself can be silence.
    pub fn answered(&self) -> (r: bool)
        ensures
            r == self.is_verdict(),
    {
        match self {
            FallbackError::AgeRestricted => true,
            FallbackError::Unavailable(_) => true,
            FallbackError::NoAudio => true,
            FallbackError::RustyPipe(_) => false,
        }
    }

    /// What the error says.
    pub open spec fn text(self) -> Seq<char> {
        match self {
            FallbackError::AgeRestricted => "age-restricted (rustypipe)"@,
            FallbackError::Unavailable(msg) => "unavailable: "@ + msg@,
            FallbackError::NoAudio => "no audio stream in rustypipe result"@,
            FallbackError::RustyPipe(msg) => "rustypipe: "@ + msg@,
        }
    }

    /// What the error says.
    pub fn message(&self) -> (r: String)
        ensures
            r@ == self.text(),
    {
        match self {
            FallbackError::AgeRestricted => "age-restricted (rustypipe)".to_owned(),
            FallbackError::Unavailable(msg) => "unavailable: ".to_owned().concat(msg.as_str()),
            FallbackError::NoAudio => "no audio stream in rustypipe result".to_owned(),
            FallbackError::RustyPipe(msg) => "rustypipe: ".to_owned().concat(msg.as_str()),
        }
    }
}

/// The highest bitrate that a stream may have when high quality is not asked for.
pub const LOW_BITRATE_CAP: u32 = 128_000;

/// A stream of the original audio track.
pub open spec fn original(s: AudioStream) -> bool {
    s.track matches Some(t) ==> t.is_default
}

/// A stream that may be picked: one of the original track, where there is one.
pub open spec fn eligible(streams: Seq<AudioStream>, i: int) -> bool {
    &&& 0 <= i < streams.len()
    &&& original(streams[i]) || forall|j: int|
        0 <= j < streams.len() ==> !original(#[trigger] streams[j])
}

/// An eligible stream under the cap.
pub open spec fn capped(streams: Seq<AudioStream>, i: int) -> bool {
    eligible(streams, i) && streams[i].bitrate <= LOW_BITRATE_CAP
}

/// `a` is at most as good as `b`: by codec, then by bitrate.
pub open spec fn no_better(a: AudioStream, b: AudioStream) -> bool {
    let ca = playback::codec_rank(a.mime@);
    let cb = playback::codec_rank(b.mime@);
    ca < cb || (ca == cb && a.bitrate <= b.bitrate)
}

/// The eligible stream with the best codec and, among those, the highest bitrate; the last one of
/// several equals.
pub open spec fn is_best(streams: Seq<AudioStream>, i: int) -> bool {
    &&& eligible(streams, i)
    &&& forall|j: int| #[trigger]
        eligible(streams, j) ==> no_better(streams[j], streams[i]) && (no_better(
            streams[i],
            streams[j],
        ) ==> j <= i)
}

/// The capped stream with the lowest bitrate; the first one of several equals.
pub open spec fn is_lowest_capped(streams: Seq<AudioStream>, i: int) -> bool {
    &&& capped(streams, i)
    &&& forall|j: int| #[trigger]
        capped(streams, j) ==> streams[j].bitrate >= streams[i].bitrate && (streams[j].bitrate
            == streams[i].bitrate ==> j >= i)
}

/// The eligible stream with the lowest bitrate; the first one of several equals.
pub open spec fn is_lowest(streams: Seq<AudioStream>, i: int) -> bool {
    &&& eligible(streams, i)
    &&& forall|j: int| #[trigger]
        eligible(streams, j) ==> streams[j].bitrate >= streams[i].bitrate && (streams[j].bitrate
            == streams[i].bitrate ==> j >= i)
}

/// The stream at `i` is the one to play. For high quality that is the best one; otherwise the
/// lowest at or under the cap or, where all are over it, the lowest of all.
pub open spec fn is_pick(streams: Seq<AudioStream>, prefer_high: bool, i: int) -> bool {
    if prefer_high {
        is_best(streams, i)
    } else if exists|j: int| capped(streams, j) {
        is_lowest_capped(streams, i)
    } else {
        is_lowest(streams, i)
    }
}

/// No two streams are both the one to play.
pub proof fn pick_is_unique(streams: Seq<AudioStream>, prefer_high: bool, i: int, j: int)
    requires
        is_pick(streams, prefer_high, i),
        is_pick(streams, prefer_high, j),
    ensures
        i == j,
{
    if prefer_high {
        assert(eligible(streams, i) && eligible(streams, j));
    } else if exists|k: int| capped(streams, k) {
        assert(capped(streams, i) && capped(streams, j));
    } else {
        assert(eligible(streams, i) && eligible(streams, j));
    }
}

/// A dubbed track is picked only where there is no original one.
pub proof fn pick_keeps_to_the_original_track(streams: Seq<AudioStream>, prefer_high: bool, i: int)
    requires
        is_pick(streams, prefer_high, i),
        exists|j: int| 0 <= j < streams.len() && original(#[trigger] streams[j]),
    ensures
        original(streams[i]),
{
}

/// Where high quality is not asked for, no eligible stream is below the one that is picked, which is
/// over the cap only if all of them are.
pub proof fn low_quality_stays_low(streams: Seq<AudioStream>, i: int, j: int)
    requires
        is_pick(streams, false, i),
        eligible(streams, j),
    ensures
        streams[i].bitrate <= streams[j].bitrate,
        capped(streams, j) ==> streams[i].bitrate <= LOW_BITRATE_CAP,
{
}

fn is_original(s: &AudioStream) -> (r: bool)
    ensures
        r == original(*s),
{
    match &s.track {
        Some(t) => t.is_default,
        None => true,
    }
}

/// Is there a stream of the original track?
fn any_original(streams: &Vec<AudioStream>) -> (r: bool)
    ensures
        r == exists|j: int| 0 <= j < streams@.len() && original(#[trigger] streams@[j]),
{
    let mut i: usize = 0;
    while i < streams.len()
        invariant
            i <= streams@.len(),
            forall|j: int| 0 <= j < i ==> !original(#[trigger] streams@[j]),
        decreases streams@.len() - i,
    {
        if is_original(&streams[i]) {
            return true;
        }
        i = i + 1;
    }
    false
}

fn at_least_as_good(a: &AudioStream, b: &AudioStream) -> (r: bool)
    ensures
        r == no_better(*b, *a),
{
    let ca: u8 = codec_score(a.mime.as_str());
    let cb: u8 = codec_score(b.mime.as_str());
    cb < ca || (cb == ca && b.bitrate <= a.bitrate)
}

/// The position of the best eligible stream.
fn pick_best(streams: &Vec<AudioStream>, any: bool) -> (r: Option<usize>)
    requires
        any == exists|j: int| 0 <= j < streams@.len() && original(#[trigger] streams@[j]),
    ensures
        match r {
            Some(i) => is_best(streams@, i as int),
            None => forall|j: int| !eligible(streams@, j),
        },
{
    let mut best: Option<usize> = None;
    let mut i: usize = 0;
    while i < streams.len()
        invariant
            i <= streams@.len(),
            any == exists|j: int| 0 <= j < streams@.len() && original(#[trigger] streams@[j]),
            match best {
                Some(b) => b < i && eligible(streams@, b as int) && forall|j: int|
                    j < i && #[trigger] eligible(streams@, j) ==> no_better(
                        streams@[j],
                        streams@[b as int],
                    ) && (no_better(streams@[b as int], streams@[j]) ==> j <= b),
                None => forall|j: int| j < i ==> !#[trigger] eligible(streams@, j),
            },
        decreases streams@.len() - i,
    {
        if !any || is_original(&streams[i]) {
            assert(eligible(streams@, i as int));
            match best {
                Some(b) => {
                    if at_least_as_good(&streams[i], &streams[b]) {
                        best = Some(i);
                    }
                },
                None => {
                    best = Some(i);
                },
            }
        } else {
            assert(!eligible(streams@, i as int));
        }
        i = i + 1;
    }
    best
}

/// The position of the lowest capped stream.
fn pick_capped(streams: &Vec<AudioStream>, any: bool) -> (r: Option<usize>)
    requires
        any == exists|j: int| 0 <= j < streams@.len() && original(#[trigger] streams@[j]),
    ensures
        match r {
            Some(i) => is_lowest_capped(streams@, i as int),
            None => forall|j: int| !capped(streams@, j),
        },
{
    let mut best: Option<usize> = None;
    let mut i: usize = 0;
    while i < streams.len()
        invariant
            i <= streams@.len(),
            any == exists|j: int| 0 <= j < streams@.len() && original(#[trigger] streams@[j]),
            match best {
                Some(b) => b < i && capped(streams@, b as int) && forall|j: int|
                    j < i && #[trigger] capped(streams@, j) ==> streams@[j].bitrate
                        >= streams@[b as int].bitrate && (streams@[j].bitrate
                        == streams@[b as int].bitrate ==> j >= b),
                None => forall|j: int| j < i ==> !#[trigger] capped(streams@, j),
            },
        decreases streams@.len() - i,
    {
        if (!any || is_original(&streams[i])) && streams[i].bitrate <= LOW_BITRATE_CAP {
            assert(capped(streams@, i as int));
            match best {
                Some(b) => {
                    if streams[i].bitrate < streams[b].bitrate {
                        best = Some(i);
                    }
                },
                None => {
                    best = Some(i);
                },
            }
        } else {
            assert(!capped(streams@, i as int));
        }
        i = i + 1;
    }
    best
}

/// The position of the lowest eligible stream.
fn pick_lowest(streams: &Vec<AudioStream>, any: bool) -> (r: Option<usize>)
    requires
        any == exists|j: int| 0 <= j < streams@.len() && original(#[trigger] streams@[j]),
    ensures
        match r {
            Some(i) => is_lowest(streams@, i as int),
            None => forall|j: int| !eligible(streams@, j),
        },
{
    let mut best: Option<usize> = None;
    let mut i: usize = 0;
    while i < streams.len()
        invariant
            i <= streams@.len(),
            any == exists|j: int| 0 <= j < streams@.len() && original(#[trigger] streams@[j]),
            match best {
                Some(b) => b < i && eligible(streams@, b as int) && forall|j: int|
                    j < i && #[trigger] eligible(streams@, j) ==> streams@[j].bitrate
                        >= streams@[b as int].bitrate && (streams@[j].bitrate
                        == streams@[b as int].bitrate ==> j >= b),
                None => forall|j: int| j < i ==> !#[trigger] eligible(streams@, j),
            },
        decreases streams@.len() - i,
    {
        if !any || is_original(&streams[i]) {
            assert(eligible(streams@, i as int));
            match best {
                Some(b) => {
                    if streams[i].bitrate < streams[b].bitrate {
                        best = Some(i);
                    }
                },
                None => {
                    best = Some(i);
                },
            }
        } else {
            assert(!eligible(streams@, i as int));
        }
        i = i + 1;
    }
    best
}

/// The audio stream to play. A dubbed video lists every language at the same bitrates, so the pick
/// keeps to the original track.
pub fn pick_audio(streams: &Vec<AudioStream>, prefer_high: bool) -> (r: Option<&AudioStream>)
    ensures
        match r {
            Some(s) => exists|i: int| is_pick(streams@, prefer_high, i) && *s == streams@[i],
            None => streams@.len() == 0,
        },
{
    let any: bool = any_original(streams);
    let found: Option<usize> = if prefer_high {
        pick_best(streams, any)
    } else {
        match pick_capped(streams, any) {
            Some(i) => Some(i),
            None => pick_lowest(streams, any),
        }
    };
    match found {
        Some(i) => {
            assert(is_pick(streams@, prefer_high, i as int));
            Some(&streams[i])
        },
        None => {
            proof {
                if streams@.len() > 0 {
                    if any {
                        let j = choose|j: int|
                            0 <= j < streams@.len() && original(#[trigger] streams@[j]);
                        assert(eligible(streams@, j));
                    } else {
                        assert(eligible(streams@, 0));
                    }
                }
            }
            None
        },
    }
}

/// What a failed extraction means for the track.
pub open spec fn failure_of(e: ExtractorError) -> FallbackError {
    match e {
        ExtractorError::Unavailable { age_restricted: true, msg: _ } =>
            FallbackError::AgeRestricted,
        ExtractorError::Unavailable { age_restricted: false, msg } => FallbackError::Unavailable(
            msg,
        ),
        ExtractorError::Other(msg) => FallbackError::RustyPipe(msg),
    }
}

/// What a failed extraction means for the track. The service's own playability verdict is told
/// apart from everything that may be silence.
pub fn map_err(e: ExtractorError) -> (r: FallbackError)
    ensures
        r == failure_of(e),
{
    match e {
        ExtractorError::Unavailable { age_restricted, msg } => if age_restricted {
            FallbackError::AgeRestricted
        } else {
            FallbackError::Unavailable(msg)
        },
        ExtractorError::Other(msg) => FallbackError::RustyPipe(msg),
    }
}

/// A failed extraction counts as an answer exactly when it is the service's own verdict.
pub proof fn only_the_extractor_itself_falls_silent(e: ExtractorError)
    ensures
        failure_of(e).is_verdict() <==> e is Unavailable,
{
}

/// A candidate carries the values of this stream of this video.
pub open spec fn candidate_of(c: StreamCandidate, player: VideoPlayer, s: AudioStream) -> bool {
    &&& c.url == s.url
    &&& c.itag == s.itag
    &&& c.mime == s.mime
    &&& c.size == s.size
    &&& c.bitrate == s.bitrate
    &&& c.expires_in_seconds == player.expires_in_seconds
    &&& c.loudness_db == s.loudness_db
    &&& c.title == player.name
    &&& c.duration_secs == Some(player.duration)
}

/// The best audio stream of what the extractor answered for a video id.
pub fn resolve(answer: Result<VideoPlayer, ExtractorError>, prefer_high: bool) -> (r: Result<
    StreamCandidate,
    FallbackError,
>)
    ensures
        match answer {
            Ok(player) => match r {
                Ok(c) => exists|i: int|
                    is_pick(player.audio_streams@, prefer_high, i) && candidate_of(
                        c,
                        player,
                        #[trigger] player.audio_streams@[i],
                    ),
                Err(e) => player.audio_streams@.len() == 0 && e is NoAudio,
            },
            Err(e) => r == Err::<StreamCandidate, FallbackError>(failure_of(e)),
        },
{
    let player: VideoPlayer = match answer {
        Ok(player) => player,
        Err(e) => {
            return Err(map_err(e));
        },
    };
    match pick_audio(&player.audio_streams, prefer_high) {
        Some(best) => Ok(
            StreamCandidate {
                url: best.url.clone(),
                itag: best.itag,
                mime: best.mime.clone(),
                size: best.size,
                bitrate: best.bitrate,
                expires_in_seconds: player.expires_in_seconds,
                loudness_db: best.loudness_db,
                title: copy_text(&player.name),
                duration_secs: Some(player.duration),
            },
        ),
        None => Err(FallbackError::NoAudio),
    }
}

} // verus!
