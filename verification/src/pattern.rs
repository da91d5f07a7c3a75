//! Regular-expression search, taken on trust from the `regex` crate.

use crate::text::occurs_in;
use vstd::prelude::*;

verus! {

#[verifier::external_type_specification]
#[verifier::external_body]
pub struct ExRegexError(regex::Error);

/// For the regular expression `pattern`, what capture group `group` holds in
/// each of the successive non-overlapping matches in `text`, leftmost first;
/// an entry is `None` where the group took no part in the match. `None` as a
/// whole where `pattern` does not compile.
pub uninterp spec fn regex_groups(pattern: Seq<char>, text: Seq<char>, group: nat) -> Option<
    Seq<Option<Seq<char>>>,
>;

/// Compiles `pattern` with `regex::Regex::new`, walks `captures_iter` over
/// `text` and reads group `group` of each match with `Captures::get`.
/// Trusted: the outcome depends on the three arguments alone, so it is given
/// the name [`regex_groups`]; and what a group holds is a piece of `text`,
/// as `Match::as_str` slices it out of the text that was searched.
#[verifier::external_body]
pub(crate) fn capture_groups(pattern: &str, text: &str, group: usize) -> (r: Result<
    Vec<Option<String>>,
    regex::Error,
>)
    ensures
        match r {
            Ok(found) => {
                &&& regex_groups(pattern@, text@, group as nat) == Some(found.deep_view())
                &&& forall|i: int|
                    0 <= i < found.len() ==> match #[trigger] found.deep_view()[i] {
                        Some(piece) => occurs_in(text@, piece),
                        None => true,
                    }
            },
            Err(_) => regex_groups(pattern@, text@, group as nat) is None,
        },
{
    let re = regex::Regex::new(pattern)?;
    let mut found = Vec::new();
    for caps in re.captures_iter(text) {
        found.push(match caps.get(group) {
            Some(m) => Some(m.as_str().to_string()),
            None => None,
        });
    }
    Ok(found)
}

} // verus!
