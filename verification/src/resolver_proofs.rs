//! What holds of the options that a prompt offers, for every path under
//! every home directory.

use vstd::prelude::*;
use crate::error::PromptError;
use crate::glob::{
    glob_from, glob_matches, lemma_common_prefix, lemma_glob_shift, lemma_matches_itself,
    lemma_star_takes_segment, lemma_trailing_double_star,
};
use crate::home_prompt::PatternOptionView;
use crate::paths::{
    first_index_of, last_index_of, lemma_first_index_of, lemma_last_index_of, name_of, parent_of,
    strip_slash,
};
use crate::resolver::{
    below, beside, candidate_options, enclosing_options, extension_options, first_of_each_pattern,
    home_base, home_option, lemma_anatomy, lexically_within, offers, pattern_options,
    requested_options, resolved, top_level_of, ResolutionView,
};

verus! {

/// Merging equal patterns brings in no option: each that is kept is one of
/// those given.
pub proof fn lemma_kept_were_given(options: Seq<PatternOptionView>, i: int)
    requires
        0 <= i < first_of_each_pattern(options).len(),
    ensures
        options.contains(first_of_each_pattern(options)[i]),
    decreases options.len(),
{
    if options.len() > 0 {
        let front = options.drop_last();
        let kept = first_of_each_pattern(front);
        if i < kept.len() {
            lemma_kept_were_given(front, i);
            let j = choose|j: int| 0 <= j < front.len() && front[j] == kept[i];
            assert(options[j] == kept[i]);
        } else {
            assert(options[options.len() - 1] == options.last());
        }
    }
}

/// Merging equal patterns keeps the first option where it is.
pub proof fn lemma_first_is_kept(options: Seq<PatternOptionView>)
    requires
        options.len() > 0,
    ensures
        first_of_each_pattern(options).len() > 0,
        first_of_each_pattern(options)[0] == options[0],
    decreases options.len(),
{
    let front = options.drop_last();
    let kept = first_of_each_pattern(front);
    if front.len() > 0 {
        lemma_first_is_kept(front);
        assert(front[0] == options[0]);
        if !offers(kept, options.last().path_pattern) {
            assert(kept.push(options.last())[0] == kept[0]);
        }
    } else {
        assert(kept.len() == 0);
        assert(!offers(kept, options.last().path_pattern));
        assert(kept.push(options.last())[0] == options.last());
    }
}

/// The pattern for what lies below a directory matches every path that
/// starts with the directory and a `/`.
pub proof fn lemma_below_matches(dir: Seq<char>, path: Seq<char>)
    requires
        dir.len() < path.len(),
        path.take(dir.len() as int) == dir,
        path[dir.len() as int] == '/',
    ensures
        glob_matches(below(dir), path),
{
    let suffix = seq!['/', '*', '*'];
    let tail = path.skip(dir.len() as int);
    lemma_trailing_double_star(suffix, tail, 1, 1);
    lemma_common_prefix(dir, suffix, tail);
    assert(dir + tail == path);
}

/// The pattern for the files of a directory that share an extension matches
/// a file of that directory whose name ends in the extension.
pub proof fn lemma_beside_matches(dir: Seq<char>, stem: Seq<char>, extension: Seq<char>)
    requires
        forall|k: int| 0 <= k < stem.len() ==> stem[k] != '/',
        extension.len() > 0,
        extension[0] != '*',
    ensures
        glob_matches(beside(dir, extension), dir + seq!['/'] + stem + extension),
{
    let pattern = seq!['/', '*'] + extension;
    let lead = seq!['/'] + stem;
    let tail = lead + extension;
    lemma_matches_itself(extension);
    lemma_glob_shift(seq!['/', '*'], extension, lead, extension, 0, 0);
    assert(glob_from(pattern, tail, 2, lead.len() as int));
    assert(pattern[2] == extension[0]);
    assert forall|x: int| 1 <= x < lead.len() implies tail[x] != '/' by {
        assert(tail[x] == stem[x - 1]);
    }
    lemma_star_takes_segment(pattern, tail, 1, 1, lead.len() as int);
    assert(tail[0] == '/');
    assert(glob_matches(pattern, tail));
    lemma_common_prefix(dir, pattern, tail);
    assert(dir + pattern == beside(dir, extension));
    assert(dir + tail == dir + seq!['/'] + stem + extension);
}

/// Each option that a path under the home directory gives rise to has a
/// pattern that matches the path.
pub proof fn lemma_candidates_match(path: Seq<char>, home: Seq<char>, i: int)
    requires
        lexically_within(path, home),
        0 <= i < candidate_options(path, home).len(),
    ensures
        glob_matches(candidate_options(path, home)[i].path_pattern, path),
{
    lemma_anatomy(path, home);
    let base = home_base(home);
    let entry = strip_slash(path);
    let cut = last_index_of(entry, '/');
    let requested = requested_options(path);
    let by_extension = extension_options(path);
    let enclosing = enclosing_options(path, home);
    let all = candidate_options(path, home);
    lemma_last_index_of(entry, '/');
    assert(path[cut] == entry[cut]);
    if i < requested.len() {
        assert(all[i] == requested[i]);
        if i == 0 {
            lemma_matches_itself(path);
        } else {
            lemma_below_matches(entry, path);
        }
    } else if i < requested.len() + by_extension.len() {
        assert(all[i] == by_extension[i - requested.len()]);
        let name = name_of(path);
        let dot = last_index_of(name, '.');
        let extension = name.skip(dot);
        let stem = name.take(dot);
        lemma_last_index_of(name, '.');
        assert(extension[0] == name[dot]);
        assert forall|k: int| 0 <= k < stem.len() implies stem[k] != '/' by {
            assert(stem[k] == entry[cut + 1 + k]);
        }
        lemma_beside_matches(parent_of(path), stem, extension);
        assert(parent_of(path) + seq!['/'] + stem + extension == path);
    } else if i < requested.len() + by_extension.len() + enclosing.len() {
        let k = i - requested.len() - by_extension.len();
        assert(all[i] == enclosing[k]);
        if k == 0 {
            assert(path.take(cut) == parent_of(path));
            lemma_below_matches(parent_of(path), path);
        } else {
            lemma_first_index_of(path, '/', base.len() + 1 as int);
            lemma_below_matches(top_level_of(path, home), path);
        }
    } else {
        assert(all[i] == home_option(home));
        assert(path.take(base.len() as int) == base) by {
            assert(path.take(base.len() as int) == entry.take(base.len() as int));
        }
        assert(path[base.len() as int] == entry[base.len() as int]);
        assert(entry[base.len() as int] == '/') by {
            assert(path.take(base.len() + 1 as int)[base.len() as int] == base.push('/')[base.len() as int]);
        }
        lemma_below_matches(base, path);
    }
}

/// No pattern is offered that fails to match the requested path.
pub proof fn lemma_offered_patterns_match(path: Seq<char>, home: Seq<char>)
    requires
        lexically_within(path, home),
    ensures
        forall|i: int|
            0 <= i < pattern_options(path, home).len() ==> glob_matches(
                #[trigger] pattern_options(path, home)[i].path_pattern,
                path,
            ),
{
    let all = candidate_options(path, home);
    let offered = pattern_options(path, home);
    assert forall|i: int| 0 <= i < offered.len() implies glob_matches(
        #[trigger] offered[i].path_pattern,
        path,
    ) by {
        lemma_kept_were_given(all, i);
        let j = choose|j: int| 0 <= j < all.len() && all[j] == offered[i];
        lemma_candidates_match(path, home, j);
    }
}

/// The option for the whole home directory is offered, and it is the last:
/// for every path but the file in the home directory whose name is `**`,
/// which is itself the pattern for the home directory and is offered as the
/// requested file.
pub proof fn lemma_home_directory_is_last(path: Seq<char>, home: Seq<char>)
    requires
        lexically_within(path, home),
        path != below(home_base(home)),
    ensures
        pattern_options(path, home).len() > 0,
        pattern_options(path, home).last() == home_option(home),
{
    lemma_anatomy(path, home);
    let base = home_base(home);
    let whole = below(base);
    let all = candidate_options(path, home);
    let front = all.drop_last();
    let kept = first_of_each_pattern(front);
    let requested = requested_options(path);
    let by_extension = extension_options(path);
    let enclosing = enclosing_options(path, home);
    assert(all.last() == home_option(home));
    assert(front == requested + by_extension + enclosing);
    if offers(kept, whole) {
        let i = choose|i: int| 0 <= i < kept.len() && kept[i].path_pattern == whole;
        lemma_kept_were_given(front, i);
        let j = choose|j: int| 0 <= j < front.len() && front[j] == kept[i];
        assert(front[j].path_pattern.len() == base.len() + 3);
        if j < requested.len() {
            assert(front[j] == requested[j]);
        } else if j < requested.len() + by_extension.len() {
            assert(front[j] == by_extension[j - requested.len()]);
        } else {
            assert(front[j] == enclosing[j - requested.len() - by_extension.len()]);
            lemma_first_index_of(path, '/', base.len() + 1 as int);
        }
        assert(false);
    }
}

/// The option to preselect is offered, and it is the most specific one: the
/// requested path itself, on view from the start.
pub proof fn lemma_initial_option_is_the_request(
    path: Seq<char>,
    home: Seq<char>,
    requested: Seq<Seq<char>>,
    available: Seq<Seq<char>>,
)
    requires
        resolved(path, home, requested, available) is Ok,
    ensures
        ({
            let resolution = resolved(path, home, requested, available)->Ok_0;
            let initial = resolution.initial_pattern_option;
            &&& 0 <= initial < resolution.pattern_options.len()
            &&& resolution.pattern_options[initial] == requested_options(path)[0]
            &&& resolution.pattern_options[initial].path_pattern == path
            &&& resolution.pattern_options[initial].show_initially
        }),
{
    let all = candidate_options(path, home);
    lemma_first_is_kept(all);
}

/// Resolving has no hidden input: two outcomes of resolving the same request
/// are the same outcome.
pub proof fn lemma_resolve_is_repeatable(
    path: Seq<char>,
    home: Seq<char>,
    requested: Seq<Seq<char>>,
    available: Seq<Seq<char>>,
    first: Result<ResolutionView, PromptError>,
    second: Result<ResolutionView, PromptError>,
)
    requires
        first == resolved(path, home, requested, available),
        second == resolved(path, home, requested, available),
    ensures
        first == second,
{
}

/// The permissions decide whether options are offered, never which: two
/// requests for the same path that both go through get the same options in
/// the same order.
pub proof fn lemma_permissions_do_not_reorder(
    path: Seq<char>,
    home: Seq<char>,
    requested: Seq<Seq<char>>,
    available: Seq<Seq<char>>,
    other_requested: Seq<Seq<char>>,
    other_available: Seq<Seq<char>>,
)
    requires
        resolved(path, home, requested, available) is Ok,
        resolved(path, home, other_requested, other_available) is Ok,
    ensures
        resolved(path, home, requested, available) == resolved(
            path,
            home,
            other_requested,
            other_available,
        ),
{
}

} // verus!
