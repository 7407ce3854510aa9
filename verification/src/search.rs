//! The runs to process: a glob over the directory of artifacts, built from what the caller
//! selects, and the entries of the directory that it matches.

use crate::error::{Fault, ProcessingError};
use crate::fuzzers::Fuzzer;
use crate::glob::{
    build, glob_compiles, glob_matches, path_matches, within_limits, words, Matcher,
    LONGEST_PATTERN, MOST_BRACES,
};
use crate::text::count_occurrences;
use crate::text::text_views;
use vstd::prelude::*;
use vstd::string::*;

verus! {

/// The items with commas between them.
pub open spec fn listed(items: Seq<Seq<char>>) -> Seq<char>
    decreases items.len(),
{
    if items.len() == 0 {
        Seq::empty()
    } else if items.len() == 1 {
        items[0]
    } else {
        listed(items.drop_last()) + ","@ + items.last()
    }
}

/// The glob for one part of a run's name: a star where nothing is selected, the item
/// itself where one is, and the items in braces, with commas between them, where several
/// are.
pub open spec fn alternation(items: Seq<Seq<char>>) -> Seq<char> {
    if items.len() == 0 {
        "*"@
    } else if items.len() == 1 {
        items[0]
    } else {
        "{"@ + listed(items) + "}"@
    }
}

/// The tokens of engines, one for one.
pub open spec fn tokens(fuzzers: Seq<Fuzzer>) -> Seq<Seq<char>> {
    fuzzers.map_values(|fuzzer: Fuzzer| fuzzer.token())
}

/// The glob for the runs under `directory`: a run's directory is named by its engine, its
/// target and its index, with hyphens between them.
pub open spec fn run_pattern(
    directory: Seq<char>,
    fuzzers: Seq<Seq<char>>,
    targets: Seq<Seq<char>>,
    indices: Seq<Seq<char>>,
) -> Seq<char> {
    directory + "/"@ + alternation(fuzzers) + "-"@ + alternation(targets) + "-"@ + alternation(
        indices,
    )
}

/// The paths that the glob matches, in their order.
pub open spec fn selected(pattern: Seq<char>, paths: Seq<Seq<char>>) -> Seq<Seq<char>>
    decreases paths.len(),
{
    if paths.len() == 0 {
        Seq::empty()
    } else if glob_matches(pattern, paths.last()) {
        selected(pattern, paths.drop_last()).push(paths.last())
    } else {
        selected(pattern, paths.drop_last())
    }
}

/// Whether a pattern makes a matcher: it is within the limits of length and of braces, and
/// the glob engine accepts it.
pub open spec fn glob_accepted(pattern: Seq<char>) -> bool {
    within_limits(pattern) && glob_compiles(pattern)
}

/// The runs that a selection picks among the entries of the directory of artifacts. A
/// directory whose name is no text cannot be searched; a selection that does not make a
/// valid glob is refused.
pub open spec fn located(
    directory: Option<Seq<char>>,
    fuzzers: Seq<Fuzzer>,
    targets: Seq<Seq<char>>,
    indices: Seq<Seq<char>>,
    entries: Seq<Seq<char>>,
) -> Result<Seq<Seq<char>>, Fault> {
    match directory {
        Some(directory) => {
            let pattern = run_pattern(directory, tokens(fuzzers), targets, indices);
            if glob_accepted(pattern) {
                Ok(selected(pattern, entries))
            } else {
                Err(Fault::Glob)
            }
        },
        None => Err(Fault::InvalidDirectoryName),
    }
}

/// The glob for one part of a run's name.
pub fn as_pattern(items: &Vec<String>) -> (pattern: String)
    ensures
        pattern@ == alternation(text_views(items@)),
{
    if items.len() == 0 {
        "*".to_owned()
    } else if items.len() == 1 {
        items[0].clone()
    } else {
        let ghost all = text_views(items@);
        let mut pattern = "{".to_owned();
        let mut list = items[0].clone();
        let mut at: usize = 1;
        proof {
            assert(all.take(1).len() == 1);
            assert(all.take(1)[0] == items@[0]@);
        }
        while at < items.len()
            invariant
                1 <= at <= items.len(),
                all == text_views(items@),
                list@ == listed(all.take(at as int)),
            decreases items.len() - at,
        {
            proof {
                assert(all.take(at + 1).drop_last() =~= all.take(at as int));
                assert(all.take(at + 1).last() == items@[at as int]@);
            }
            list.append(",");
            list.append(items[at].as_str());
            at = at + 1;
        }
        assert(all.take(at as int) =~= all);
        pattern.append(list.as_str());
        pattern.append("}");
        pattern
    }
}

/// The tokens of the engines, one for one.
pub fn fuzzer_tokens(fuzzers: &Vec<Fuzzer>) -> (names: Vec<String>)
    ensures
        text_views(names@) == tokens(fuzzers@),
{
    let mut names: Vec<String> = Vec::new();
    let mut at: usize = 0;
    while at < fuzzers.len()
        invariant
            at <= fuzzers.len(),
            text_views(names@) =~= tokens(fuzzers@).take(at as int),
        decreases fuzzers.len() - at,
    {
        let ghost before = text_views(names@);
        let token = fuzzers[at].to_string();
        names.push(token);
        assert(text_views(names@) =~= before.push(token@));
        at = at + 1;
    }
    assert(tokens(fuzzers@).take(at as int) =~= tokens(fuzzers@));
    names
}

/// The glob for the runs that are selected under `directory`, which is the directory's name
/// where that is text.
pub fn create_pattern(
    directory: Option<&str>,
    fuzzers: &Vec<Fuzzer>,
    targets: &Vec<String>,
    indices: &Vec<String>,
) -> (pattern: Result<String, ProcessingError>)
    ensures
        directory is None ==> pattern is Err && pattern->Err_0.fault()
            == Fault::InvalidDirectoryName,
        directory matches Some(name) ==> pattern is Ok && pattern->Ok_0@ == run_pattern(
            name@,
            tokens(fuzzers@),
            text_views(targets@),
            text_views(indices@),
        ),
{
    let directory = match directory {
        Some(directory) => directory,
        None => { return Err(ProcessingError::InvalidDirectoryName); },
    };
    let names = fuzzer_tokens(fuzzers);
    let mut pattern = directory.to_owned();
    pattern.append("/");
    pattern.append(as_pattern(&names).as_str());
    pattern.append("-");
    pattern.append(as_pattern(targets).as_str());
    pattern.append("-");
    pattern.append(as_pattern(indices).as_str());
    Ok(pattern)
}

/// A matcher for a glob. A pattern that is too long, that has too many braces or that the
/// glob engine refuses makes none.
pub fn compile(pattern: &str) -> (matcher: Result<Matcher, ProcessingError>)
    ensures
        matcher is Ok == glob_accepted(pattern@),
        matcher matches Ok(m) ==> m@ == pattern@,
        matcher matches Err(error) ==> error.fault() == Fault::Glob,
{
    if pattern.unicode_len() > LONGEST_PATTERN {
        return Err(ProcessingError::Glob("the pattern is too long".to_owned()));
    }
    if count_occurrences(pattern, "{") > MOST_BRACES {
        return Err(ProcessingError::Glob("the pattern has too many braces".to_owned()));
    }
    match build(pattern) {
        Ok(matcher) => Ok(matcher),
        Err(error) => Err(ProcessingError::Glob(words(&error))),
    }
}

/// A matcher for the runs that are selected under `directory`.
pub fn compile_glob(
    directory: Option<&str>,
    fuzzers: &Vec<Fuzzer>,
    targets: &Vec<String>,
    indices: &Vec<String>,
) -> (matcher: Result<Matcher, ProcessingError>)
    ensures
        directory is None ==> matcher is Err && matcher->Err_0.fault()
            == Fault::InvalidDirectoryName,
        directory matches Some(name) ==> {
            let pattern = run_pattern(
                name@,
                tokens(fuzzers@),
                text_views(targets@),
                text_views(indices@),
            );
            &&& matcher is Ok == glob_accepted(pattern)
            &&& matcher matches Ok(m) ==> m@ == pattern
            &&& matcher matches Err(error) ==> error.fault() == Fault::Glob
        },
{
    let pattern = create_pattern(directory, fuzzers, targets, indices)?;
    compile(pattern.as_str())
}

/// The paths that the matcher's glob matches, in their order.
pub fn select(matcher: &Matcher, paths: &Vec<String>) -> (kept: Vec<String>)
    ensures
        text_views(kept@) == selected(matcher@, text_views(paths@)),
{
    let ghost all = text_views(paths@);
    let mut kept: Vec<String> = Vec::new();
    let mut at: usize = 0;
    proof {
        assert(all.take(0) =~= Seq::empty());
        assert(text_views(kept@) =~= Seq::empty());
    }
    while at < paths.len()
        invariant
            at <= paths.len(),
            all == text_views(paths@),
            text_views(kept@) == selected(matcher@, all.take(at as int)),
        decreases paths.len() - at,
    {
        proof {
            assert(all.take(at + 1).drop_last() =~= all.take(at as int));
            assert(all.take(at + 1).last() == paths@[at as int]@);
        }
        let ghost before = text_views(kept@);
        if path_matches(matcher, paths[at].as_str()) {
            let path = paths[at].clone();
            kept.push(path);
            assert(text_views(kept@) =~= before.push(path@));
        }
        at = at + 1;
    }
    assert(all.take(at as int) =~= all);
    kept
}

/// The runs that a selection picks among the entries of the directory of artifacts, each
/// entry given by its path: exactly the entries that the selection's glob matches.
pub fn read_runs(
    directory: Option<&str>,
    fuzzers: &Vec<Fuzzer>,
    targets: &Vec<String>,
    indices: &Vec<String>,
    entries: &Vec<String>,
) -> (runs: Result<Vec<String>, ProcessingError>)
    ensures
        runs is Ok == located(
            name_view(directory),
            fuzzers@,
            text_views(targets@),
            text_views(indices@),
            text_views(entries@),
        ) is Ok,
        runs matches Ok(found) ==> located(
            name_view(directory),
            fuzzers@,
            text_views(targets@),
            text_views(indices@),
            text_views(entries@),
        ) == Ok::<Seq<Seq<char>>, Fault>(text_views(found@)),
        runs matches Err(error) ==> located(
            name_view(directory),
            fuzzers@,
            text_views(targets@),
            text_views(indices@),
            text_views(entries@),
        ) == Err::<Seq<Seq<char>>, Fault>(error.fault()),
{
    let matcher = compile_glob(directory, fuzzers, targets, indices)?;
    Ok(select(&matcher, entries))
}

/// The view of a name that may be missing.
pub open spec fn name_view(name: Option<&str>) -> Option<Seq<char>> {
    match name {
        Some(name) => Some(name@),
        None => None,
    }
}

/// The places of the paths that the glob matches, in rising order.
pub open spec fn matched_positions(pattern: Seq<char>, paths: Seq<Seq<char>>) -> Seq<int>
    decreases paths.len(),
{
    if paths.len() == 0 {
        Seq::empty()
    } else if glob_matches(pattern, paths.last()) {
        matched_positions(pattern, paths.drop_last()).push(paths.len() - 1)
    } else {
        matched_positions(pattern, paths.drop_last())
    }
}

/// Places as plain numbers.
pub open spec fn place_views(places: Seq<usize>) -> Seq<int> {
    places.map_values(|place: usize| place as int)
}

/// The places of the paths that the matcher's glob matches, in rising order. A caller
/// that holds more of each entry than its path finds the entries again by their places.
pub fn positions(matcher: &Matcher, paths: &Vec<String>) -> (places: Vec<usize>)
    ensures
        place_views(places@) == matched_positions(matcher@, text_views(paths@)),
        forall|i: int| 0 <= i < places@.len() ==> (#[trigger] places@[i]) < paths@.len(),
{
    let ghost all = text_views(paths@);
    let mut places: Vec<usize> = Vec::new();
    let mut at: usize = 0;
    proof {
        assert(all.take(0) =~= Seq::empty());
        assert(place_views(places@) =~= Seq::empty());
    }
    while at < paths.len()
        invariant
            at <= paths.len(),
            all == text_views(paths@),
            place_views(places@) == matched_positions(matcher@, all.take(at as int)),
            forall|i: int| 0 <= i < places@.len() ==> (#[trigger] places@[i]) < at,
        decreases paths.len() - at,
    {
        proof {
            assert(all.take(at + 1).drop_last() =~= all.take(at as int));
            assert(all.take(at + 1).last() == paths@[at as int]@);
        }
        let ghost before = place_views(places@);
        if path_matches(matcher, paths[at].as_str()) {
            places.push(at);
            assert(place_views(places@) =~= before.push(at as int));
        }
        at = at + 1;
    }
    assert(all.take(at as int) =~= all);
    places
}

/// The paths that are selected are the paths at the places that are matched.
pub proof fn lemma_selected_stand_at_the_matched_positions(
    pattern: Seq<char>,
    paths: Seq<Seq<char>>,
)
    ensures
        selected(pattern, paths).len() == matched_positions(pattern, paths).len(),
        forall|i: int|
            0 <= i < selected(pattern, paths).len() ==> 0 <= #[trigger] matched_positions(
                pattern,
                paths,
            )[i] < paths.len() && selected(pattern, paths)[i] == paths[matched_positions(
                pattern,
                paths,
            )[i]],
    decreases paths.len(),
{
    if paths.len() > 0 {
        lemma_selected_stand_at_the_matched_positions(pattern, paths.drop_last());
        let before = matched_positions(pattern, paths.drop_last());
        assert forall|i: int| 0 <= i < selected(pattern, paths).len() implies 0
            <= #[trigger] matched_positions(pattern, paths)[i] < paths.len() && selected(
            pattern,
            paths,
        )[i] == paths[matched_positions(pattern, paths)[i]] by {
            if i < before.len() {
                assert(matched_positions(pattern, paths)[i] == before[i]);
                assert(paths.drop_last()[before[i]] == paths[before[i]]);
            }
        }
    }
}

/// Whatever is selected, every run that is found is an entry of the directory that the
/// selection's glob matches, and every such entry is found.
pub proof fn lemma_selected_are_the_matches(pattern: Seq<char>, paths: Seq<Seq<char>>)
    ensures
        forall|path: Seq<char>|
            #[trigger] selected(pattern, paths).contains(path) <==> paths.contains(path)
                && glob_matches(pattern, path),
    decreases paths.len(),
{
    if paths.len() > 0 {
        let before = paths.drop_last();
        let last = paths.last();
        lemma_selected_are_the_matches(pattern, before);
        assert forall|path: Seq<char>| #[trigger]
            selected(pattern, paths).contains(path) <==> paths.contains(path) && glob_matches(
                pattern,
                path,
            ) by {
            assert(selected(pattern, before).contains(path) <==> before.contains(path)
                && glob_matches(pattern, path));
            if paths.contains(path) && path != last {
                let i = choose|i: int| 0 <= i < paths.len() && paths[i] == path;
                assert(before[i] == path);
            }
            if before.contains(path) {
                let i = choose|i: int| 0 <= i < before.len() && before[i] == path;
                assert(paths[i] == path);
            }
            if path == last {
                assert(paths[paths.len() - 1] == path);
            }
            if glob_matches(pattern, last) {
                let grown = selected(pattern, before).push(last);
                assert(grown[grown.len() - 1] == last);
                if selected(pattern, before).contains(path) {
                    let j = choose|j: int|
                        0 <= j < selected(pattern, before).len() && selected(pattern, before)[j]
                            == path;
                    assert(grown[j] == path);
                }
                if grown.contains(path) && path != last {
                    let j = choose|j: int| 0 <= j < grown.len() && grown[j] == path;
                    assert(selected(pattern, before)[j] == path);
                }
            }
        }
    }
}

} // verus!
