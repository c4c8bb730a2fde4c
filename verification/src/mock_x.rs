//! A stand-in publisher for X that posts nothing and hands out content ids.
use vstd::prelude::*;
use crate::ident::{fresh_uuid, is_hyphenated_uuid};
use crate::text::{append_str, copy_str};

verus! {

/// Publisher for X that only simulates posting.
pub struct MockXPublisher;

impl MockXPublisher {
    /// The platform's name.
    pub fn platform_name(&self) -> (r: &'static str)
        ensures
            r@ == "X"@,
    {
        "X"
    }

    /// "Publishes" a post and returns its content id: `x-` and a fresh UUID.
    pub fn publish(&self, content: &str, media_paths: &Vec<String>) -> (r: String)
        ensures
            r@.len() == 38,
            r@.take(2) == "x-"@,
            is_hyphenated_uuid(r@.skip(2)),
    {
        let id = fresh_uuid();
        let mut out = copy_str("x-");
        append_str(&mut out, id.as_str());
        proof {
            reveal_strlit("x-");
            assert(out@.take(2) =~= "x-"@);
            assert(out@.skip(2) =~= id@);
        }
        out
    }
}

} // verus!
