//! Playback queue and stream decryption.

pub mod decrypt;
pub mod queue;

pub use queue::PlayQueue;

use vstd::prelude::*;

verus! {

/// A prepared, decodable stream for one track.
#[derive(Debug, Clone)]
pub struct StreamHandle {
    pub track_id: u64,
    pub url: String,
    pub decryption_key: Option<[u8; 16]>,
    pub quality: String,
}

} // verus!
