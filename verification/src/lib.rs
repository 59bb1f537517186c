//! Turns a video id into a playable audio stream.
//!
//! The decisions of the playback path stand here, free of any I/O: which client is asked next,
//! which of the streams is worth keeping, what is sent along with the stream request and what a
//! track that nothing could play is reported as. The caller performs the calls and hands the
//! answers back, each with the format that its reader picked for the wanted quality.
use vstd::prelude::*;

pub mod calls;
pub mod chain;
pub mod clients;
pub mod failures;
pub mod laws;
pub mod legs;
pub mod model;
pub mod orchestrator;
pub mod outcome;
pub mod playback;
pub mod probe;
pub mod resolver;
pub mod rules;
pub mod runs;
pub mod rustypipe_fallback;
pub mod stream_url;
pub mod string_map;
pub mod text;

verus! {

} // verus!
