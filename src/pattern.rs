//! Regular-expression matching, delegated to the `regex` crate.

use vstd::prelude::*;

verus! {

/// What `regex` reports for `pattern` on `text`: `None` when the pattern
/// does not compile or does not match, else the capture groups of the
/// leftmost-first match, group 0 being the whole match and a group that did
/// not take part being `None`.
pub uninterp spec fn regex_captures(pattern: Seq<char>, text: Seq<char>) -> Option<
    Seq<Option<Seq<char>>>,
>;

/// Capture group `k` of the match of `pattern` in `text`.
pub open spec fn group_spec(pattern: Seq<char>, text: Seq<char>, k: int) -> Option<Seq<char>> {
    match regex_captures(pattern, text) {
        Some(g) => if 0 <= k < g.len() {
            g[k]
        } else {
            None
        },
        None => None,
    }
}

pub open spec fn matches_spec(pattern: Seq<char>, text: Seq<char>) -> bool {
    regex_captures(pattern, text) is Some
}

pub open spec fn groups_view(g: Seq<Option<String>>) -> Seq<Option<Seq<char>>> {
    g.map_values(
        |o: Option<String>|
            match o {
                Some(s) => Some(s@),
                None => None,
            },
    )
}

/// Relies on `regex::Regex::new` and `regex::Regex::captures`: compiles the
/// pattern and returns the capture groups of its leftmost-first match in
/// `text`, in group order; a pattern that does not compile matches nothing.
#[verifier::external_body]
fn captures(pattern: &str, text: &str) -> (r: Option<Vec<Option<String>>>)
    ensures
        match r {
            Some(g) => regex_captures(pattern@, text@) == Some(groups_view(g@)),
            None => regex_captures(pattern@, text@) is None,
        },
{
    match regex::Regex::new(pattern) {
        Ok(re) => re.captures(text).map(
            |c| c.iter().map(|m| m.map(|m| m.as_str().to_string())).collect(),
        ),
        Err(_) => None,
    }
}

/// Capture group `k` of the match of `pattern` in `text`, if both exist.
pub fn group(pattern: &str, text: &str, k: usize) -> (r: Option<String>)
    ensures
        match r {
            Some(s) => group_spec(pattern@, text@, k as int) == Some(s@),
            None => group_spec(pattern@, text@, k as int) is None,
        },
{
    match captures(pattern, text) {
        Some(g) => {
            if k < g.len() {
                match &g[k] {
                    Some(s) => Some(s.clone()),
                    None => None,
                }
            } else {
                None
            }
        },
        None => None,
    }
}

/// Whether `pattern` matches somewhere in `text`.
pub fn is_match(pattern: &str, text: &str) -> (r: bool)
    ensures
        r == matches_spec(pattern@, text@),
{
    captures(pattern, text).is_some()
}

} // verus!
