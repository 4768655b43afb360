//! Which lines of the input are URLs to fetch.
use vstd::prelude::*;

verus! {

/// The marker that starts a comment line.
pub const COMMENT_MARKER: char = '#';

/// A line names a URL when it is not empty and does not start with the
/// comment marker.
pub open spec fn is_url_line(line: Seq<char>) -> bool {
    line.len() > 0 && line[0] != COMMENT_MARKER
}

/// Whether `line` is to be fetched: empty lines and comment lines are skipped.
pub fn is_url_line_exec(line: &str) -> (r: bool)
    ensures
        r == is_url_line(line@),
{
    let mut chars = line.chars();
    match chars.next() {
        Some(c) => c != COMMENT_MARKER,
        None => false,
    }
}

} // verus!
