//! The client identities that requests are sent as.
//!
//! The registry is data (a JSON table that can be overridden without a new build); the orders in
//! which its clients are tried stand here.
use vstd::prelude::*;

use crate::model::copy_text;
use crate::string_map::StringMap;

verus! {

/// One identity: the strings a request carries and what the client needs or supports.
#[derive(Debug)]
pub struct YouTubeClient {
    /// Goes in `context.client.clientName`.
    pub client_name: String,
    pub client_version: String,
    /// The numeric id, sent as the `X-YouTube-Client-Name` header.
    pub client_id: String,
    pub user_agent: String,
    pub os_name: Option<String>,
    pub os_version: Option<String>,
    pub device_make: Option<String>,
    pub device_model: Option<String>,
    pub android_sdk_version: Option<String>,
    pub build_id: Option<String>,
    pub cronet_version: Option<String>,
    pub package_name: Option<String>,
    pub friendly_name: Option<String>,
    pub login_supported: bool,
    pub login_required: bool,
    pub use_signature_timestamp: bool,
    pub is_embedded: bool,
    /// A web client: its requests need a PoToken and its stream URLs the `n`-transform.
    pub use_web_po_tokens: bool,
}

impl Clone for YouTubeClient {
    fn clone(&self) -> (r: Self)
        ensures
            r == *self,
    {
        YouTubeClient {
            client_name: self.client_name.clone(),
            client_version: self.client_version.clone(),
            client_id: self.client_id.clone(),
            user_agent: self.user_agent.clone(),
            os_name: copy_text(&self.os_name),
            os_version: copy_text(&self.os_version),
            device_make: copy_text(&self.device_make),
            device_model: copy_text(&self.device_model),
            android_sdk_version: copy_text(&self.android_sdk_version),
            build_id: copy_text(&self.build_id),
            cronet_version: copy_text(&self.cronet_version),
            package_name: copy_text(&self.package_name),
            friendly_name: copy_text(&self.friendly_name),
            login_supported: self.login_supported,
            login_required: self.login_required,
            use_signature_timestamp: self.use_signature_timestamp,
            is_embedded: self.is_embedded,
            use_web_po_tokens: self.use_web_po_tokens,
        }
    }
}

/// The client registry: registry keys and the identities behind them.
pub struct Clients(StringMap<YouTubeClient>);

impl View for Clients {
    type V = Map<Seq<char>, YouTubeClient>;

    closed spec fn view(&self) -> Map<Seq<char>, YouTubeClient> {
        self.0@
    }
}

impl Clients {
    /// The registry that holds `table`.
    pub fn from_table(table: StringMap<YouTubeClient>) -> (r: Self)
        ensures
            r@ == table@,
    {
        Clients(table)
    }

    /// Looks up a client by its registry key, such as `"VISIONOS"`.
    pub fn get(&self, key: &str) -> (r: Option<&YouTubeClient>)
        ensures
            r == (if self@.contains_key(key@) {
                Some(&self@[key@])
            } else {
                None
            }),
    {
        self.0.get(key)
    }
}

/// The primary `/player` client. It is tried first, and track metadata comes from its response
/// even when another client wins the stream.
pub const MAIN_CLIENT: &'static str = "WEB_REMIX";

/// Registry keys of the clients tried after [`MAIN_CLIENT`] for an ordinary track.
///
/// `VISIONOS` needs neither cipher nor PoToken, so it still plays when both are unavailable.
/// `TVHTML5_SIMPLY` is a second anonymous identity for networks that refuse the web one. `IOS` is
/// absent: its stream URLs are served for bounded ranges only.
pub const STREAM_FALLBACK_ORDER: [&'static str; 2] = ["VISIONOS", "TVHTML5_SIMPLY"];

/// Registry keys of the clients tried after [`MAIN_CLIENT`] for one of the user's own uploads,
/// which are streamed to an authenticated client only.
pub const UPLOAD_FALLBACK_ORDER: [&'static str; 2] = ["TVHTML5", "WEB_CREATOR"];

/// The clients tried after [`MAIN_CLIENT`], in turn.
pub open spec fn fallback_order(is_upload: bool) -> Seq<Seq<char>> {
    if is_upload {
        UPLOAD_FALLBACK_ORDER@.map_values(|k: &str| k@)
    } else {
        STREAM_FALLBACK_ORDER@.map_values(|k: &str| k@)
    }
}

/// The number of clients tried after [`MAIN_CLIENT`].
pub const FALLBACKS: usize = 2;

/// The key at position `i` of the order that such a track is tried in.
pub fn fallback_key(is_upload: bool, i: usize) -> (r: &'static str)
    requires
        i < FALLBACKS,
    ensures
        fallback_order(is_upload).len() == FALLBACKS,
        r@ == fallback_order(is_upload)[i as int],
{
    if is_upload {
        UPLOAD_FALLBACK_ORDER[i]
    } else {
        STREAM_FALLBACK_ORDER[i]
    }
}

/// The client for search and next: the renderer shape only comes back to this one.
pub const METADATA_CLIENT: &'static str = "WEB_REMIX";

/// The client for timed lyrics, which only mobile clients are given.
pub const LYRICS_TIMED_CLIENT: &'static str = "IOS_MUSIC";

} // verus!
