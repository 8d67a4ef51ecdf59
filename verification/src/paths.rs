//! Lexical notions of paths: directories, parents, names and extensions.
//!
//! A path is read as text only; nothing is looked up on disk. A path that
//! ends in `/` names a directory, any other path names a file.

use vstd::prelude::*;

verus! {

/// Whether the path names a directory: it ends in `/`.
pub open spec fn is_directory(path: Seq<char>) -> bool {
    path.len() > 0 && path.last() == '/'
}

/// The path without the `/` that marks a directory.
pub open spec fn strip_slash(path: Seq<char>) -> Seq<char> {
    if is_directory(path) {
        path.drop_last()
    } else {
        path
    }
}

/// The directory that holds the path: the path up to its last `/`, the `/`
/// that marks a directory set aside.
pub open spec fn parent_of(path: Seq<char>) -> Seq<char> {
    let entry = strip_slash(path);
    entry.take(last_index_of(entry, '/'))
}

/// The last component of the path.
pub open spec fn name_of(path: Seq<char>) -> Seq<char> {
    let entry = strip_slash(path);
    entry.skip(last_index_of(entry, '/') + 1)
}

/// The extension of a file name, with its dot: what follows the last `.`,
/// where that dot neither starts nor ends the name.
pub open spec fn extension_of(name: Seq<char>) -> Option<Seq<char>> {
    let dot = last_index_of(name, '.');
    if 0 < dot < name.len() - 1 {
        Some(name.skip(dot))
    } else {
        None
    }
}

/// The position of the last `c` in `text`, or -1 where there is none.
pub open spec fn last_index_of(text: Seq<char>, c: char) -> int
    decreases text.len(),
{
    if text.len() == 0 {
        -1
    } else if text.last() == c {
        text.len() - 1
    } else {
        last_index_of(text.drop_last(), c)
    }
}

/// The position of the first `c` in `text` at or behind `from`, or the
/// length of `text` where there is none.
pub open spec fn first_index_of(text: Seq<char>, c: char, from: int) -> int
    decreases text.len() - from,
{
    if from < 0 || from >= text.len() {
        text.len() as int
    } else if text[from] == c {
        from
    } else {
        first_index_of(text, c, from + 1)
    }
}

/// What `last_index_of` finds is a `c` with no `c` behind it.
pub proof fn lemma_last_index_of(text: Seq<char>, c: char)
    ensures
        -1 <= last_index_of(text, c) < text.len(),
        last_index_of(text, c) >= 0 ==> text[last_index_of(text, c)] == c,
        forall|k: int| last_index_of(text, c) < k < text.len() ==> text[k] != c,
    decreases text.len(),
{
    if text.len() > 0 && text.last() != c {
        let front = text.drop_last();
        lemma_last_index_of(front, c);
        assert forall|k: int| last_index_of(text, c) < k < text.len() implies text[k] != c by {
            if k < front.len() {
                assert(front[k] == text[k]);
            }
        }
    }
}

/// A `c` with no `c` behind it is what `last_index_of` finds.
pub proof fn lemma_last_index_is(text: Seq<char>, c: char, at: int)
    requires
        -1 <= at < text.len(),
        at >= 0 ==> text[at] == c,
        forall|k: int| at < k < text.len() ==> text[k] != c,
    ensures
        last_index_of(text, c) == at,
{
    lemma_last_index_of(text, c);
}

/// What `first_index_of` finds is a `c` with no `c` between `from` and it.
pub proof fn lemma_first_index_of(text: Seq<char>, c: char, from: int)
    requires
        0 <= from <= text.len(),
    ensures
        from <= first_index_of(text, c, from) <= text.len(),
        first_index_of(text, c, from) < text.len() ==> text[first_index_of(text, c, from)] == c,
        forall|k: int| from <= k < first_index_of(text, c, from) ==> text[k] != c,
    decreases text.len() - from,
{
    if from < text.len() && text[from] != c {
        lemma_first_index_of(text, c, from + 1);
    }
}

/// The position of the last `c` in the part of `text` from `from` up to
/// `end`, counted from `from`.
pub fn find_last(text: &Vec<char>, c: char, from: usize, end: usize) -> (found: Option<usize>)
    requires
        from <= end <= text.len(),
    ensures
        match found {
            Some(at) => at == last_index_of(text@.subrange(from as int, end as int), c),
            None => last_index_of(text@.subrange(from as int, end as int), c) == -1,
        },
{
    let ghost part = text@.subrange(from as int, end as int);
    let mut i: usize = end;
    while i > from
        invariant
            from <= i <= end <= text.len(),
            part == text@.subrange(from as int, end as int),
            forall|k: int| i - from <= k < end - from ==> part[k] != c,
        decreases i,
    {
        i = i - 1;
        if text[i] == c {
            proof {
                lemma_last_index_is(part, c, i - from);
            }
            return Some(i - from);
        }
    }
    proof {
        lemma_last_index_is(part, c, -1);
    }
    None
}

/// The position of the first `c` in `text` at or behind `from`, or the
/// length of `text` where there is none.
pub fn find_first(text: &Vec<char>, c: char, from: usize) -> (at: usize)
    requires
        from <= text.len(),
    ensures
        at == first_index_of(text@, c, from as int),
{
    let mut i: usize = from;
    while i < text.len() && text[i] != c
        invariant
            from <= i <= text.len(),
            first_index_of(text@, c, from as int) == first_index_of(text@, c, i as int),
        decreases text.len() - i,
    {
        i = i + 1;
    }
    i
}

/// Whether a path component ends before position `at`: the text ends there
/// or a `/` stands there.
pub open spec fn component_ends(text: Seq<char>, at: int) -> bool {
    at == text.len() || (0 <= at < text.len() && text[at] == '/')
}

/// Whether a path component starts at position `at`.
pub open spec fn component_starts(text: Seq<char>, at: int) -> bool {
    at == 0 || (0 < at <= text.len() && text[at - 1] == '/')
}

/// Whether the component that starts at `at` is a name: not empty, and
/// neither `.` nor `..`.
pub open spec fn names_entry(text: Seq<char>, at: int) -> bool {
    &&& 0 <= at < text.len()
    &&& text[at] != '/'
    &&& !(text[at] == '.' && component_ends(text, at + 1))
    &&& !(text[at] == '.' && at + 1 < text.len() && text[at + 1] == '.' && component_ends(
        text,
        at + 2,
    ))
}

/// Whether a relative path is made of names alone: it is not empty, no
/// component of it is empty, `.` or `..`, and at most a single `/` ends it.
pub open spec fn is_clean(relative: Seq<char>) -> bool {
    &&& relative.len() > 0
    &&& forall|at: int|
        0 <= at < relative.len() && component_starts(relative, at) ==> names_entry(relative, at)
}

/// Whether the part of `text` from `from` on is a clean relative path.
pub fn check_clean(text: &Vec<char>, from: usize) -> (clean: bool)
    requires
        from <= text.len(),
    ensures
        clean == is_clean(text@.skip(from as int)),
{
    let ghost rest = text@.skip(from as int);
    let n: usize = text.len();
    if from == n {
        return false;
    }
    let mut i: usize = from;
    while i < n
        invariant
            from <= i <= n,
            n == text.len(),
            rest == text@.skip(from as int),
            forall|at: int|
                0 <= at < i - from && component_starts(rest, at) ==> names_entry(rest, at),
        decreases n - i,
    {
        let ghost at = i - from;
        assert(rest[at] == text@[i as int]);
        let starts: bool = i == from || text[i - 1] == '/';
        assert(starts == component_starts(rest, at)) by {
            if i > from {
                assert(rest[at - 1] == text@[i - 1]);
            }
        }
        if starts {
            let ends1: bool = i + 1 == n || text[i + 1] == '/';
            assert(ends1 == component_ends(rest, at + 1)) by {
                if i + 1 < n {
                    assert(rest[at + 1] == text@[i + 1]);
                }
            }
            let two: bool = i + 1 < n && text[i + 1] == '.' && (i + 2 == n || text[i + 2] == '/');
            assert(two == (at + 1 < rest.len() && rest[at + 1] == '.' && component_ends(
                rest,
                at + 2,
            ))) by {
                if i + 1 < n {
                    assert(rest[at + 1] == text@[i + 1]);
                }
                if i + 2 < n {
                    assert(rest[at + 2] == text@[i + 2]);
                }
            }
            if text[i] == '/' || (text[i] == '.' && (ends1 || two)) {
                assert(!names_entry(rest, at));
                return false;
            }
        }
        i = i + 1;
    }
    true
}

} // verus!
