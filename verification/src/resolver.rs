//! From a requested path and the user's home directory to the patterns that
//! a prompt offers.
//!
//! The patterns run from the requested path itself to the whole home
//! directory. Their order is fixed and does not depend on the permissions
//! asked for.

use vstd::prelude::*;
use crate::enums::HomePatternType;
use crate::error::PromptError;
use crate::home_prompt::{options_view, PatternOption, PatternOptionView};
use crate::paths::{
    check_clean, component_starts, extension_of, find_first, find_last, first_index_of, is_clean,
    is_directory, last_index_of, lemma_first_index_of, lemma_last_index_of, name_of, names_entry,
    parent_of, strip_slash,
};
use crate::permissions::{is_subset, subset_of, texts};
use crate::text::chars_of;

verus! {

/// The home directory without the `/` that may end it.
pub open spec fn home_base(home: Seq<char>) -> Seq<char> {
    strip_slash(home)
}

/// Whether `path` lies under `home`, going by the text of the two alone: the
/// home directory is absolute, and the path is the home directory, a `/`, and
/// a relative path made of names alone.
pub open spec fn lexically_within(path: Seq<char>, home: Seq<char>) -> bool {
    let base = home_base(home);
    &&& home.len() > 0
    &&& home[0] == '/'
    &&& !is_directory(base)
    &&& path.len() > base.len() + 1
    &&& path.take(base.len() + 1 as int) == base.push('/')
    &&& is_clean(path.skip(base.len() + 1 as int))
}

/// The directory directly under the home directory that holds the path.
pub open spec fn top_level_of(path: Seq<char>, home: Seq<char>) -> Seq<char> {
    path.take(first_index_of(path, '/', home_base(home).len() + 1 as int))
}

/// The pattern for everything below the directory `dir`.
pub open spec fn below(dir: Seq<char>) -> Seq<char> {
    dir + seq!['/', '*', '*']
}

/// The pattern for the files in `dir` whose names end in `extension`.
pub open spec fn beside(dir: Seq<char>, extension: Seq<char>) -> Seq<char> {
    dir + seq!['/', '*'] + extension
}

/// A pattern option.
pub open spec fn option(kind: HomePatternType, pattern: Seq<char>, shown: bool)
    -> PatternOptionView {
    PatternOptionView { home_pattern_type: kind, path_pattern: pattern, show_initially: shown }
}

/// The option for the requested path itself, and for a directory the one for
/// what it holds.
pub open spec fn requested_options(path: Seq<char>) -> Seq<PatternOptionView> {
    if is_directory(path) {
        seq![
            option(HomePatternType::RequestedDirectory, path, true),
            option(HomePatternType::RequestedDirectoryContents, below(strip_slash(path)), false),
        ]
    } else {
        seq![option(HomePatternType::RequestedFile, path, true)]
    }
}

/// For a file with an extension, the option for the files beside it that
/// share the extension.
pub open spec fn extension_options(path: Seq<char>) -> Seq<PatternOptionView> {
    if !is_directory(path) && extension_of(name_of(path)) is Some {
        seq![
            option(
                HomePatternType::MatchingFileExtension,
                beside(parent_of(path), extension_of(name_of(path))->0),
                false,
            ),
        ]
    } else {
        Seq::empty()
    }
}

/// For a path that does not lie directly in the home directory, the options
/// for the directory that holds it and for the top-level directory above it.
pub open spec fn enclosing_options(path: Seq<char>, home: Seq<char>) -> Seq<PatternOptionView> {
    if parent_of(path) != home_base(home) {
        seq![
            option(HomePatternType::ContainingDirectory, below(parent_of(path)), false),
            option(HomePatternType::TopLevelDirectory, below(top_level_of(path, home)), false),
        ]
    } else {
        Seq::empty()
    }
}

/// The option for the whole home directory.
pub open spec fn home_option(home: Seq<char>) -> PatternOptionView {
    option(HomePatternType::HomeDirectory, below(home_base(home)), true)
}

/// Every option that a path gives rise to, from the most specific to the
/// broadest, before equal patterns are merged.
pub open spec fn candidate_options(path: Seq<char>, home: Seq<char>) -> Seq<PatternOptionView> {
    requested_options(path) + extension_options(path) + enclosing_options(path, home)
        + seq![home_option(home)]
}

/// Whether one of the options has the pattern.
pub open spec fn offers(options: Seq<PatternOptionView>, pattern: Seq<char>) -> bool {
    exists|i: int| 0 <= i < options.len() && #[trigger] options[i].path_pattern == pattern
}

/// The options without those whose pattern an earlier option has.
pub open spec fn first_of_each_pattern(options: Seq<PatternOptionView>) -> Seq<PatternOptionView>
    decreases options.len(),
{
    if options.len() == 0 {
        Seq::empty()
    } else {
        let kept = first_of_each_pattern(options.drop_last());
        if offers(kept, options.last().path_pattern) {
            kept
        } else {
            kept.push(options.last())
        }
    }
}

/// The options that a prompt for `path` offers.
pub open spec fn pattern_options(path: Seq<char>, home: Seq<char>) -> Seq<PatternOptionView> {
    first_of_each_pattern(candidate_options(path, home))
}

/// Why no options can be offered, if so.
pub open spec fn resolve_failure(
    path: Seq<char>,
    home: Seq<char>,
    requested: Seq<Seq<char>>,
    available: Seq<Seq<char>>,
) -> Option<PromptError> {
    if !lexically_within(path, home) {
        Some(PromptError::PathOutsideHome)
    } else if requested.len() == 0 {
        Some(PromptError::EmptyPermissions)
    } else if !subset_of(requested, available) {
        Some(PromptError::PermissionNotAvailable)
    } else {
        None
    }
}

/// The length of the home directory without the `/` that may end it.
fn base_length(home: &Vec<char>) -> (len: usize)
    ensures
        len == home_base(home@).len(),
        home@.take(len as int) == home_base(home@),
{
    let n: usize = home.len();
    if n > 0 && home[n - 1] == '/' {
        n - 1
    } else {
        n
    }
}

/// Whether `path` lies under `home`, going by the text of the two alone.
pub fn is_within(path: &Vec<char>, home: &Vec<char>) -> (within: bool)
    ensures
        within == lexically_within(path@, home@),
{
    let len: usize = base_length(home);
    let ghost base = home_base(home@);
    if home.len() == 0 || home[0] != '/' {
        return false;
    }
    if len > 0 && home[len - 1] == '/' {
        assert(base.last() == home@[len - 1]);
        return false;
    }
    if path.len() <= len || path.len() - len <= 1 {
        return false;
    }
    let mut i: usize = 0;
    while i < len
        invariant
            i <= len < path.len(),
            len <= home.len(),
            base == home@.take(len as int),
            forall|k: int| 0 <= k < i ==> path@[k] == base[k],
        decreases len - i,
    {
        if path[i] != home[i] {
            assert(path@.take(len + 1)[i as int] != base.push('/')[i as int]);
            return false;
        }
        i = i + 1;
    }
    if path[len] != '/' {
        assert(path@.take(len + 1)[len as int] != base.push('/')[len as int]);
        return false;
    }
    assert(path@.take(len + 1) =~= base.push('/'));
    check_clean(path, len + 1)
}

/// How a path under the home directory is built: where its last `/` stands,
/// and where the first one behind the home directory.
pub proof fn lemma_anatomy(path: Seq<char>, home: Seq<char>)
    requires
        lexically_within(path, home),
    ensures
        strip_slash(path).len() >= home_base(home).len() + 2,
        strip_slash(path).last() != '/',
        home_base(home) == strip_slash(path).take(home_base(home).len() as int),
        home_base(home).len() <= last_index_of(strip_slash(path), '/') < strip_slash(path).len()
            - 1,
        (parent_of(path) == home_base(home)) == (last_index_of(strip_slash(path), '/')
            == home_base(home).len()),
        parent_of(path) != home_base(home) ==> home_base(home).len() + 1 < first_index_of(
            path,
            '/',
            home_base(home).len() + 1 as int,
        ) <= last_index_of(strip_slash(path), '/'),
{
    let base = home_base(home);
    let b = base.len() as int;
    let rest = path.skip(b + 1);
    let entry = strip_slash(path);
    let n = path.len() as int;
    assert(component_starts(rest, 0));
    assert(names_entry(rest, 0));
    assert(rest[0] == path[b + 1]);
    assert(path.take(b + 1)[b] == '/');
    assert(path[b] == '/');
    if is_directory(path) {
        assert(rest[n - b - 2] == path[n - 1]);
        assert(n - b - 2 > 0);
        if path[n - 2] == '/' {
            assert(rest[n - b - 3] == path[n - 2]);
            assert(component_starts(rest, n - b - 2));
            assert(names_entry(rest, n - b - 2));
        }
        assert(entry.last() == path[n - 2]);
    }
    assert(entry[b] == '/');
    lemma_last_index_of(entry, '/');
    let cut = last_index_of(entry, '/');
    assert(base =~= entry.take(b)) by {
        assert forall|k: int| 0 <= k < b implies base[k] == entry[k] by {
            assert(path.take(b + 1)[k] == base.push('/')[k]);
        }
    }
    if cut != b {
        assert(entry.take(cut).len() != base.len());
        lemma_first_index_of(path, '/', b + 1);
        let first = first_index_of(path, '/', b + 1);
        assert(path[cut] == entry[cut]);
        if first > cut {
            assert(path[cut] != '/');
        }
    }
}

/// The pattern for everything below the directory that the first `end`
/// characters of `text` name.
fn pattern_below(text: &str, end: usize) -> (pattern: String)
    requires
        end <= text@.len(),
    ensures
        pattern@ == below(text@.take(end as int)),
{
    let mut pattern: String = text.substring_char(0, end).to_owned();
    pattern.append("/**");
    proof {
        reveal_strlit("/**");
    }
    pattern
}

/// Every option that the path gives rise to, in order.
fn candidates(requested_path: &str, home_dir: &str, path: &Vec<char>, home: &Vec<char>) -> (options:
    Vec<PatternOption>)
    requires
        path@ == requested_path@,
        home@ == home_dir@,
        lexically_within(path@, home@),
    ensures
        options_view(options@) == candidate_options(path@, home@),
{
    let n: usize = path.len();
    let b: usize = base_length(home);
    let directory: bool = path[n - 1] == '/';
    let e: usize = if directory {
        n - 1
    } else {
        n
    };
    let ghost entry = strip_slash(path@);
    proof {
        lemma_anatomy(path@, home@);
        assert(entry == path@.subrange(0, e as int));
    }
    let cut: usize = match find_last(path, '/', 0, e) {
        Some(at) => at,
        None => 0,
    };
    assert(cut == last_index_of(entry, '/'));
    assert(parent_of(path@) == requested_path@.take(cut as int));
    let mut options: Vec<PatternOption> = Vec::new();
    let ghost mut expected: Seq<PatternOptionView> = Seq::empty();
    assert(options_view(options@) == expected);
    if directory {
        options.push(
            PatternOption {
                home_pattern_type: HomePatternType::RequestedDirectory,
                path_pattern: requested_path.to_owned(),
                show_initially: true,
            },
        );
        let mut contents: String = requested_path.to_owned();
        contents.append("**");
        proof {
            reveal_strlit("**");
            assert("**"@ == seq!['*', '*']);
            assert(contents@ == below(entry));
        }
        options.push(
            PatternOption {
                home_pattern_type: HomePatternType::RequestedDirectoryContents,
                path_pattern: contents,
                show_initially: false,
            },
        );
        proof {
            expected = requested_options(path@);
        }
        assert(options_view(options@) == expected);
    } else {
        options.push(
            PatternOption {
                home_pattern_type: HomePatternType::RequestedFile,
                path_pattern: requested_path.to_owned(),
                show_initially: true,
            },
        );
        proof {
            expected = requested_options(path@);
        }
        assert(options_view(options@) == expected);
        let ghost name = name_of(path@);
        assert(name == path@.subrange(cut + 1, e as int));
        match find_last(path, '.', cut + 1, e) {
            Some(dot) => {
                if 0 < dot && dot < e - (cut + 1) - 1 {
                    let mut pattern: String = requested_path.substring_char(0, cut).to_owned();
                    pattern.append("/*");
                    pattern.append(requested_path.substring_char(cut + 1 + dot, e));
                    proof {
                        reveal_strlit("/*");
                        assert("/*"@ == seq!['/', '*']);
                        assert(name.skip(dot as int) == path@.subrange(cut + 1 + dot, e as int));
                        assert(pattern@ == beside(parent_of(path@), extension_of(name)->0));
                    }
                    options.push(
                        PatternOption {
                            home_pattern_type: HomePatternType::MatchingFileExtension,
                            path_pattern: pattern,
                            show_initially: false,
                        },
                    );
                }
            },
            None => {},
        }
    }
    proof {
        expected = requested_options(path@) + extension_options(path@);
    }
    assert(options_view(options@) == expected);
    if cut > b {
        let containing: String = pattern_below(requested_path, cut);
        options.push(
            PatternOption {
                home_pattern_type: HomePatternType::ContainingDirectory,
                path_pattern: containing,
                show_initially: false,
            },
        );
        let top_end: usize = find_first(path, '/', b + 1);
        let top_level: String = pattern_below(requested_path, top_end);
        options.push(
            PatternOption {
                home_pattern_type: HomePatternType::TopLevelDirectory,
                path_pattern: top_level,
                show_initially: false,
            },
        );
    }
    proof {
        expected = requested_options(path@) + extension_options(path@) + enclosing_options(
            path@,
            home@,
        );
    }
    assert(options_view(options@) == expected);
    let whole: String = pattern_below(home_dir, b);
    options.push(
        PatternOption {
            home_pattern_type: HomePatternType::HomeDirectory,
            path_pattern: whole,
            show_initially: true,
        },
    );
    assert(options_view(options@) == expected + seq![home_option(home@)]);
    options
}

/// Whether one of the options has the pattern.
pub fn offers_pattern(options: &Vec<PatternOption>, pattern: &String) -> (found: bool)
    ensures
        found == offers(options_view(options@), pattern@),
{
    let mut i: usize = 0;
    while i < options.len()
        invariant
            i <= options.len(),
            forall|k: int| 0 <= k < i ==> options_view(options@)[k].path_pattern != pattern@,
        decreases options.len() - i,
    {
        if options[i].path_pattern == *pattern {
            assert(options_view(options@)[i as int].path_pattern == pattern@);
            return true;
        }
        i = i + 1;
    }
    false
}

/// The options without those whose pattern an earlier option has.
fn merge_equal_patterns(options: &Vec<PatternOption>) -> (kept: Vec<PatternOption>)
    ensures
        options_view(kept@) == first_of_each_pattern(options_view(options@)),
{
    let ghost all = options_view(options@);
    let mut kept: Vec<PatternOption> = Vec::new();
    let mut i: usize = 0;
    assert(all.take(0) == Seq::<PatternOptionView>::empty());
    while i < options.len()
        invariant
            i <= options.len(),
            all == options_view(options@),
            options_view(kept@) == first_of_each_pattern(all.take(i as int)),
        decreases options.len() - i,
    {
        let ghost before = options_view(kept@);
        assert(all.take(i + 1).drop_last() == all.take(i as int));
        assert(all.take(i + 1).last() == options@[i as int]@);
        if !offers_pattern(&kept, &options[i].path_pattern) {
            kept.push(options[i].duplicate());
            assert(options_view(kept@) == before.push(options@[i as int]@));
        }
        i = i + 1;
    }
    assert(all.take(options.len() as int) == all);
    kept
}

/// What a prompt offers for a path.
#[derive(Clone, Debug, PartialEq, Eq)]
pub struct Resolution {
    /// The patterns to choose from, the most specific first.
    pub pattern_options: Vec<PatternOption>,
    /// The position of the option to preselect.
    pub initial_pattern_option: i32,
}

/// A resolution as a mathematical value.
pub struct ResolutionView {
    pub pattern_options: Seq<PatternOptionView>,
    pub initial_pattern_option: int,
}

impl View for Resolution {
    type V = ResolutionView;

    open spec fn view(&self) -> ResolutionView {
        ResolutionView {
            pattern_options: options_view(self.pattern_options@),
            initial_pattern_option: self.initial_pattern_option as int,
        }
    }
}

/// What resolving a request comes to: the failure, or the options with the
/// first of them preselected.
pub open spec fn resolved(
    path: Seq<char>,
    home: Seq<char>,
    requested: Seq<Seq<char>>,
    available: Seq<Seq<char>>,
) -> Result<ResolutionView, PromptError> {
    match resolve_failure(path, home, requested, available) {
        Some(error) => Err(error),
        None => Ok(
            ResolutionView {
                pattern_options: pattern_options(path, home),
                initial_pattern_option: 0,
            },
        ),
    }
}

/// Derives the options that a prompt offers for `requested_path`.
///
/// Fails where the path does not lie under `home_dir`, where no permission is
/// requested, or where a requested permission is not available. Otherwise the
/// options are `pattern_options` of the path and the home directory, and the
/// first of them, the requested path itself, is the one to preselect.
pub fn resolve(
    requested_path: &str,
    home_dir: &str,
    requested_permissions: &Vec<String>,
    available_permissions: &Vec<String>,
) -> (result: Result<Resolution, PromptError>)
    ensures
        match result {
            Ok(resolution) => Ok::<ResolutionView, PromptError>(resolution@),
            Err(error) => Err(error),
        } == resolved(
            requested_path@,
            home_dir@,
            texts(requested_permissions@),
            texts(available_permissions@),
        ),
{
    let path: Vec<char> = chars_of(requested_path);
    let home: Vec<char> = chars_of(home_dir);
    if !is_within(&path, &home) {
        return Err(PromptError::PathOutsideHome);
    }
    if requested_permissions.len() == 0 {
        return Err(PromptError::EmptyPermissions);
    }
    if !is_subset(requested_permissions, available_permissions) {
        return Err(PromptError::PermissionNotAvailable);
    }
    let all: Vec<PatternOption> = candidates(requested_path, home_dir, &path, &home);
    let pattern_options: Vec<PatternOption> = merge_equal_patterns(&all);
    Ok(Resolution { pattern_options, initial_pattern_option: 0 })
}

/// What a path by itself stands for: the requested directory where it names
/// a directory, the requested file where it does not.
pub open spec fn kind_of(path: Seq<char>) -> HomePatternType {
    requested_options(path)[0].home_pattern_type
}

/// Classifies a single path, with no home directory to hold it against.
pub fn classify(path: &str) -> (kind: HomePatternType)
    ensures
        kind == kind_of(path@),
        kind == if is_directory(path@) {
            HomePatternType::RequestedDirectory
        } else {
            HomePatternType::RequestedFile
        },
{
    let chars: Vec<char> = chars_of(path);
    let n: usize = chars.len();
    if n > 0 && chars[n - 1] == '/' {
        HomePatternType::RequestedDirectory
    } else {
        HomePatternType::RequestedFile
    }
}

} // verus!
