//! The paths that the server answers itself. No transfer goes through them.

use vstd::prelude::*;
use crate::text::text_eq;

verus! {

pub const INDEX: &'static str = "/";
pub const NO_SCRIPT: &'static str = "/noscript";
pub const VERSION: &'static str = "/version";
pub const HELP: &'static str = "/help";
pub const FAVICON_ICO: &'static str = "/favicon.ico";
pub const ROBOTS_TXT: &'static str = "/robots.txt";

/// Whether `p` is one of the reserved paths.
pub open spec fn is_reserved(p: Seq<char>) -> bool {
    p == INDEX@ || p == NO_SCRIPT@ || p == VERSION@ || p == HELP@ || p == FAVICON_ICO@
        || p == ROBOTS_TXT@
}

/// Whether `path` is one of the reserved paths.
pub fn contains(path: &str) -> (r: bool)
    ensures
        r == is_reserved(path@),
{
    text_eq(path, INDEX) || text_eq(path, NO_SCRIPT) || text_eq(path, VERSION) || text_eq(
        path,
        HELP,
    ) || text_eq(path, FAVICON_ICO) || text_eq(path, ROBOTS_TXT)
}

} // verus!
