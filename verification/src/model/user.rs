//! A user of CaptainFact, as stored in `public.user`.
use crate::time::Timestamp;
use vstd::prelude::*;

verus! {

/// A row of `public.user`.
#[derive(Clone, Debug)]
pub struct Entity {
    pub user_id: i32,
    pub achievements: Vec<i16>,
    pub mini_picture_url: String,
    pub name: Option<String>,
    pub picture_url: String,
    pub registered_at: Timestamp,
    pub reputation: i32,
    pub speaker_id: Option<i32>,
    pub username: String,
}

} // verus!
