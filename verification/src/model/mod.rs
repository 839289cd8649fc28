//! The records stored in the database.
pub mod comment;
pub mod source;
pub mod speaker;
pub mod statement;
pub mod user;
pub mod video;

use vstd::prelude::*;

verus! {

/// The conflict target of an upsert that stops at the constraint `name`.
pub fn on_constraint(name: &str) -> (r: String)
    ensures
        r@ == "on constraint "@ + name@,
{
    String::from_str("on constraint ").concat(name)
}

} // verus!
