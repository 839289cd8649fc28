//! A speaker of a video, as stored in `public.speaker`.
use vstd::prelude::*;

verus! {

/// A row of `public.speaker`.
#[derive(Clone, Debug)]
pub struct Entity {
    pub speaker_id: i32,
    pub full_name: String,
    pub slug: Option<String>,
    pub country: Option<String>,
    pub picture: Option<String>,
    pub title: Option<String>,
    pub wikidata_item_id: Option<String>,
}

/// The model of `public.speaker`.
pub struct Model;

impl Model {
    /// A handle on the model.
    pub fn new() -> (m: Model) {
        Model
    }
}

/// The layout of `public.speaker`.
pub struct Structure;

impl Structure {
    /// The name of the relation.
    pub fn relation() -> (r: &'static str)
        ensures
            r@ == "public.speaker"@,
    {
        "public.speaker"
    }

    /// The columns of the primary key.
    pub fn primary_key() -> (r: &'static [&'static str])
        ensures
            r@.len() == 1,
            r@[0]@ == "speaker_id"@,
    {
        &["speaker_id"]
    }

    /// The columns of the relation, in order.
    pub fn columns() -> (r: &'static [&'static str])
        ensures
            r@.len() == 7,
            r@[0]@ == "speaker_id"@,
            r@[1]@ == "full_name"@,
            r@[2]@ == "slug"@,
            r@[3]@ == "country"@,
            r@[4]@ == "picture"@,
            r@[5]@ == "title"@,
            r@[6]@ == "wikidata_item_id"@,
    {
        &["speaker_id", "full_name", "slug", "country", "picture", "title", "wikidata_item_id"]
    }
}

} // verus!
