//! The source of a comment, as stored in `public.source`.
use vstd::prelude::*;

verus! {

/// A row of `public.source`.
#[derive(Clone, Debug)]
pub struct Entity {
    pub url: String,
    pub language: Option<String>,
    pub site_name: Option<String>,
    pub title: Option<String>,
}

} // verus!
