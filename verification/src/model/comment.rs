//! A comment on a statement, as stored in `public.comment`.
use crate::time::Timestamp;
use vstd::prelude::*;

verus! {

/// A row of `public.comment`.
#[derive(Clone, Debug)]
pub struct Entity {
    pub comment_id: i32,
    pub approve: Option<bool>,
    pub inserted_at: Timestamp,
    pub is_reported: bool,
    pub reply_to_id: Option<i32>,
    pub score: Option<i32>,
    pub source_url: Option<String>,
    pub statement_id: i32,
    pub text: Option<String>,
    pub user_id: Option<i32>,
}

/// The model of `public.comment`.
pub struct Model;

impl Model {
    /// A handle on the model.
    pub fn new() -> (m: Model) {
        Model
    }
}

/// The layout of `public.comment`.
pub struct Structure;

impl Structure {
    /// The name of the relation.
    pub fn relation() -> (r: &'static str)
        ensures
            r@ == "public.comment"@,
    {
        "public.comment"
    }

    /// The columns of the primary key.
    pub fn primary_key() -> (r: &'static [&'static str])
        ensures
            r@.len() == 1,
            r@[0]@ == "id"@,
    {
        &["id"]
    }

    /// The columns of the relation, in order.
    pub fn columns() -> (r: &'static [&'static str])
        ensures
            r@.len() == 10,
            r@[0]@ == "comment_id"@,
            r@[1]@ == "approve"@,
            r@[2]@ == "inserted_at"@,
            r@[3]@ == "is_reported"@,
            r@[4]@ == "reply_to_id"@,
            r@[5]@ == "score"@,
            r@[6]@ == "source_url"@,
            r@[7]@ == "statement_id"@,
            r@[8]@ == "text"@,
            r@[9]@ == "user_id"@,
    {
        &[
            "comment_id",
            "approve",
            "inserted_at",
            "is_reported",
            "reply_to_id",
            "score",
            "source_url",
            "statement_id",
            "text",
            "user_id",
        ]
    }
}

} // verus!
