//! A statement made in a video, as stored in `public.statement`.
use vstd::prelude::*;

verus! {

/// A row of `public.statement`.
#[derive(Clone, Debug)]
pub struct Entity {
    pub statement_id: i32,
    pub speaker_id: Option<i32>,
    pub video_id: i32,
    pub text: String,
    pub time: i32,
}

/// The model of `public.statement`.
pub struct Model;

impl Model {
    /// A handle on the model.
    pub fn new() -> (m: Model) {
        Model
    }
}

/// The layout of `public.statement`.
pub struct Structure;

impl Structure {
    /// The name of the relation.
    pub fn relation() -> (r: &'static str)
        ensures
            r@ == "public.statement"@,
    {
        "public.statement"
    }

    /// The columns of the primary key.
    pub fn primary_key() -> (r: &'static [&'static str])
        ensures
            r@.len() == 1,
            r@[0]@ == "statement_id"@,
    {
        &["statement_id"]
    }

    /// The columns of the relation, in order.
    pub fn columns() -> (r: &'static [&'static str])
        ensures
            r@.len() == 5,
            r@[0]@ == "statement_id"@,
            r@[1]@ == "video_id"@,
            r@[2]@ == "speaker_id"@,
            r@[3]@ == "text"@,
            r@[4]@ == "time"@,
    {
        &["statement_id", "video_id", "speaker_id", "text", "time"]
    }
}

} // verus!
