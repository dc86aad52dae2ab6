//! Scenario matching: finds the single first-configured scenario whose path
//! pattern matches a request path. Matching is stateless and side-effect
//! free; each call behaves as if the pattern were compiled fresh.

use vstd::prelude::*;

use crate::config::Scenario;

verus! {

/// Whether `pattern` is a well-formed regular expression, that is, whether
/// compiling it succeeds. Depends on the pattern alone.
pub uninterp spec fn regex_is_valid(pattern: Seq<char>) -> bool;

/// Whether the regular expression `pattern` matches anywhere in `text`.
/// Depends on the pattern and the text alone.
pub uninterp spec fn regex_matches(pattern: Seq<char>, text: Seq<char>) -> bool;

/// Relies on regex::Regex::new: it returns `Ok` exactly when `pattern` is a
/// well-formed regular expression, a function of the pattern alone.
#[verifier::external_body]
pub(crate) fn pattern_is_valid(pattern: &str) -> (r: bool)
    ensures
        r == regex_is_valid(pattern@),
{
    regex::Regex::new(pattern).is_ok()
}

/// Relies on regex::Regex::new and regex::Regex::is_match: a freshly
/// compiled `pattern`, tested for a match anywhere in `text`. The result is
/// a function of the pattern and the text alone. For a pattern that does not
/// compile the call answers `false`; the contract promises nothing there.
#[verifier::external_body]
pub(crate) fn pattern_matches(pattern: &str, text: &str) -> (r: bool)
    requires
        regex_is_valid(pattern@),
    ensures
        r == regex_matches(pattern@, text@),
{
    match regex::Regex::new(pattern) {
        Ok(re) => re.is_match(text),
        Err(_) => false,
    }
}

/// Whether scenario `s` applies to a request with path `path`.
pub open spec fn spec_scenario_matches(s: Scenario, path: Seq<char>) -> bool {
    regex_matches(s.path@, path)
}

/// The index of the first scenario in `ss` that matches `path`, if any.
pub open spec fn spec_first_match(ss: Seq<Scenario>, path: Seq<char>) -> Option<int>
    decreases ss.len(),
{
    if ss.len() == 0 {
        None
    } else if spec_scenario_matches(ss[0], path) {
        Some(0)
    } else {
        match spec_first_match(ss.drop_first(), path) {
            None => None,
            Some(i) => Some(i + 1),
        }
    }
}

/// `spec_first_match` answers the least matching index: the scenario it
/// picks matches, no earlier scenario matches, and it answers `None` exactly
/// when no scenario matches at all.
pub proof fn lemma_first_match_least(ss: Seq<Scenario>, path: Seq<char>)
    ensures
        match spec_first_match(ss, path) {
            Some(i) => 0 <= i < ss.len() && spec_scenario_matches(ss[i], path) && (forall|j: int|
                0 <= j < i ==> !spec_scenario_matches(ss[j], path)),
            None => forall|j: int| 0 <= j < ss.len() ==> !spec_scenario_matches(ss[j], path),
        },
    decreases ss.len(),
{
    if ss.len() == 0 {
    } else if spec_scenario_matches(ss[0], path) {
    } else {
        lemma_first_match_least(ss.drop_first(), path);
        assert(forall|j: int|
            0 <= j < ss.drop_first().len() ==> ss.drop_first()[j] == ss[j + 1]);
        match spec_first_match(ss.drop_first(), path) {
            Some(i) => {
                assert forall|j: int| 0 <= j < i + 1 implies !spec_scenario_matches(
                    ss[j],
                    path,
                ) by {
                    if j > 0 {
                        assert(ss.drop_first()[j - 1] == ss[j]);
                    }
                }
            },
            None => {
                assert forall|j: int| 0 <= j < ss.len() implies !spec_scenario_matches(
                    ss[j],
                    path,
                ) by {
                    if j > 0 {
                        assert(ss.drop_first()[j - 1] == ss[j]);
                    }
                }
            },
        }
    }
}

/// Law: where two configured scenarios both match one path, the
/// first-configured one decides; the later one is never consulted.
pub proof fn lemma_first_match_wins(ss: Seq<Scenario>, path: Seq<char>, i: int, j: int)
    requires
        0 <= i < j < ss.len(),
        spec_scenario_matches(ss[i], path),
        spec_scenario_matches(ss[j], path),
    ensures
        spec_first_match(ss, path) matches Some(k) && 0 <= k <= i && spec_scenario_matches(
            ss[k],
            path,
        ),
{
    lemma_first_match_least(ss, path);
}

/// Iterates the configured scenarios in order and answers the index of the
/// first whose pattern matches anywhere in `path`, or `None` if no scenario
/// matches.
pub fn match_scenario(scenarios: &Vec<Scenario>, path: &str) -> (r: Option<usize>)
    requires
        forall|i: int|
            0 <= i < scenarios@.len() ==> regex_is_valid(
                (#[trigger] scenarios@[i]).path@,
            ),
    ensures
        match r {
            Some(i) => i < scenarios@.len() && spec_first_match(scenarios@, path@) == Some(
                i as int,
            ),
            None => spec_first_match(scenarios@, path@) is None,
        },
{
    let mut i: usize = 0;
    while i < scenarios.len()
        invariant
            i <= scenarios@.len(),
            forall|k: int|
                0 <= k < scenarios@.len() ==> regex_is_valid(
                    (#[trigger] scenarios@[k]).path@,
                ),
            forall|j: int| 0 <= j < i ==> !spec_scenario_matches(scenarios@[j], path@),
        decreases scenarios@.len() - i,
    {
        let s = &scenarios[i];
        if pattern_matches(s.path.as_str(), path) {
            proof {
                lemma_first_match_least(scenarios@, path@);
            }
            return Some(i);
        }
        i += 1;
    }
    proof {
        lemma_first_match_least(scenarios@, path@);
    }
    None
}

} // verus!
