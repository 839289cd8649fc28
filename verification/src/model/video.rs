//! A video, as stored in `public.video`.
use crate::time::Timestamp;
use vstd::prelude::*;

verus! {

/// A row of `public.video`.
#[derive(Clone, Debug)]
pub struct Entity {
    pub video_id: i32,
    pub hash_id: String,
    pub posted_at: Timestamp,
    pub is_partner: bool,
    pub speaker_ids: Vec<i32>,
    pub thumbnail: String,
    pub title: String,
    pub youtube_id: Option<String>,
    pub language: Option<String>,
    pub url: String,
    pub youtube_offset: i32,
    pub provider: String,
    pub provider_id: Option<String>,
}

} // verus!
