//! The paths under which the project pages are served.

use vstd::prelude::*;

use crate::text::{contains, lemma_contains_right, lemma_contains_self};

verus! {

/// Where every project page lives.
pub const SUB_DOMAIN: &'static str = "/projects";

/// The list of all projects, relative to `SUB_DOMAIN`.
pub const ROOT: &'static str = "/";

/// The new-project form (GET) and its submission (POST), relative to `SUB_DOMAIN`.
pub const NEW: &'static str = "/new";

/// One project's page, relative to `SUB_DOMAIN`; `:id` is the project's raw id.
pub const SHOW: &'static str = "/:id";

/// The path of the page of the project whose raw id is `key`.
pub open spec fn route_of(key: Seq<char>) -> Seq<char> {
    SUB_DOMAIN@ + "/"@ + key
}

/// Builds the path of the page of the project whose raw id is `key`.
pub fn route_for_key(key: &str) -> (r: String)
    ensures
        r@ == route_of(key@),
{
    let mut r = String::from_str(SUB_DOMAIN);
    r.append("/");
    r.append(key);
    r
}


/// No two raw ids share a path, and a project's path holds its raw id.
pub proof fn lemma_route_determines_the_id(a: Seq<char>, b: Seq<char>)
    ensures
        route_of(a) == route_of(b) ==> a == b,
        contains(route_of(a), a),
{
    reveal_strlit("/");
    let start: int = (SUB_DOMAIN@ + "/"@).len() as int;
    assert(route_of(a).subrange(start, route_of(a).len() as int) =~= a);
    assert(route_of(b).subrange(start, route_of(b).len() as int) =~= b);
    lemma_contains_self(a);
    lemma_contains_right(SUB_DOMAIN@ + "/"@, a, a);
}

} // verus!
