//! What the playback path reads of a `/player` answer.
use vstd::prelude::*;

verus! {

/// A loudness in decibels, as the bit pattern of an IEEE 754 double. It is carried through, never
/// computed with.
#[derive(Debug, Clone, Copy, PartialEq, Eq, Structural)]
pub struct Loudness {
    pub bits: u64,
}

/// The audio quality that the user asked for.
#[derive(Debug, Clone, Copy, PartialEq, Eq, Structural)]
pub enum AudioQuality {
    Auto,
    High,
    Low,
}

/// One downloadable format of a track.
#[derive(Debug)]
pub struct Format {
    pub itag: i32,
    pub mime_type: String,
    pub bitrate: i64,
    pub audio_quality: Option<String>,
    pub audio_channels: Option<i32>,
    /// The file's length in bytes, as the answer spells it.
    pub content_length: Option<String>,
    pub loudness_db: Option<Loudness>,
    /// The URL, where the format came with a plain one.
    pub direct_url: Option<String>,
    /// The `signatureCipher` that the URL has to be deciphered from otherwise.
    pub cipher_string: Option<String>,
}

/// A copy of an optional text.
pub fn copy_text(o: &Option<String>) -> (r: Option<String>)
    ensures
        r == *o,
{
    match o {
        Some(s) => Some(s.clone()),
        None => None,
    }
}

impl Clone for Format {
    fn clone(&self) -> (r: Self)
        ensures
            r == *self,
    {
        Format {
            itag: self.itag,
            mime_type: self.mime_type.clone(),
            bitrate: self.bitrate,
            audio_quality: copy_text(&self.audio_quality),
            audio_channels: self.audio_channels,
            content_length: copy_text(&self.content_length),
            loudness_db: self.loudness_db,
            direct_url: copy_text(&self.direct_url),
            cipher_string: copy_text(&self.cipher_string),
        }
    }
}

/// The answer's verdict on the track.
#[derive(Debug)]
pub struct PlayabilityStatus {
    pub status: String,
    /// The service's own sentence on why the track is not served.
    pub reason: Option<String>,
    /// The track is served.
    pub ok: bool,
    /// The track is held back behind an age or login gate.
    pub age_gated: bool,
}

/// The formats of one answer.
#[derive(Debug)]
pub struct StreamingData {
    pub expires_in_seconds: Option<i64>,
    pub adaptive_formats: Vec<Format>,
    /// The format selected out of the answer for what the caller asked for.
    pub picked: Option<Format>,
}

#[derive(Debug)]
pub struct Thumbnail {
    pub url: String,
}

/// Thumbnails, smallest first.
#[derive(Debug)]
pub struct ThumbnailList {
    pub thumbnails: Vec<Thumbnail>,
}

#[derive(Debug)]
pub struct VideoDetails {
    pub title: Option<String>,
    pub author: Option<String>,
    pub length_seconds: Option<String>,
    pub thumbnail: Option<ThumbnailList>,
    /// Whether the `musicVideoType` names a video upload, where it is given.
    pub is_music_video: Option<bool>,
}

#[derive(Debug)]
pub struct AudioConfig {
    pub loudness_db: Option<Loudness>,
}

#[derive(Debug)]
pub struct PlayerConfig {
    pub audio_config: Option<AudioConfig>,
}

#[derive(Debug)]
pub struct TrackingUrl {
    pub base_url: Option<String>,
}

#[derive(Debug)]
pub struct PlaybackTracking {
    pub videostats_playback_url: Option<TrackingUrl>,
}

/// One client's answer to a `/player` call.
#[derive(Debug)]
pub struct PlayerResponse {
    pub playability_status: PlayabilityStatus,
    pub streaming_data: Option<StreamingData>,
    pub video_details: Option<VideoDetails>,
    pub player_config: Option<PlayerConfig>,
    pub playback_tracking: Option<PlaybackTracking>,
}

} // verus!
