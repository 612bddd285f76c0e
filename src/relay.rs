//! The chat notification sent when playback starts.

use vstd::prelude::*;

verus! {

/// A copy of an optional name.
fn copy_name(n: &Option<String>) -> (r: Option<String>)
    ensures
        r == *n,
{
    match n {
        Some(s) => Some(s.clone()),
        None => None,
    }
}

/// The names of the first two players, given each player's `name` where it is
/// a string (`players` is `None` where the metadata has no `players` array);
/// `None` for a player that is missing or has no string name.
pub fn first_two_players(players: &Option<Vec<Option<String>>>) -> (r: (Option<String>, Option<String>))
    ensures
        players is None ==> r == (None::<String>, None::<String>),
        players matches Some(l) ==> r.0 == (if l@.len() > 0 { l@[0] } else { None })
            && r.1 == (if l@.len() > 1 { l@[1] } else { None }),
{
    match players {
        None => (None, None),
        Some(list) => {
            let first = if list.len() > 0 {
                copy_name(&list[0])
            } else {
                None
            };
            let second = if list.len() > 1 {
                copy_name(&list[1])
            } else {
                None
            };
            (first, second)
        },
    }
}

/// The two chat lines announcing a playback at `url` between two named
/// players; none where either name is missing.
pub fn relay_lines(url: &String, first: Option<String>, second: Option<String>) -> (r: Option<(String, String)>)
    ensures
        (first is Some && second is Some) == r is Some,
        r matches Some((a, b)) ==> a@ == "Now watching '"@ + first->0@ + "' vs '"@ + second->0@ + "'"@
            && b@ == "Replay URL: "@ + url@,
{
    match (first, second) {
        (Some(a), Some(b)) => {
            let line = String::from_str("Now watching '").concat(a.as_str()).concat("' vs '").concat(
                b.as_str(),
            ).concat("'");
            let link = String::from_str("Replay URL: ").concat(url.as_str());
            Some((line, link))
        },
        _ => None,
    }
}

} // verus!
