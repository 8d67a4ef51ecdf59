//! Path patterns with glob-style wildcards, and which paths they match.
//!
//! A pattern is a string in which `*` stands for any run of characters
//! other than `/`, two adjacent stars `**` stand for any run of characters
//! at all, and every other character stands for itself.

use vstd::prelude::*;

verus! {

/// Whether `pattern[i]` opens a `**` wildcard.
pub open spec fn double_star_at(pattern: Seq<char>, i: int) -> bool {
    &&& 0 <= i
    &&& i + 1 < pattern.len()
    &&& pattern[i] == '*'
    &&& pattern[i + 1] == '*'
}

/// Whether the pattern from position `i` on matches the path from position
/// `j` on.
pub open spec fn glob_from(pattern: Seq<char>, path: Seq<char>, i: int, j: int) -> bool
    decreases pattern.len() - i, path.len() - j,
{
    if i < 0 || j < 0 || i > pattern.len() || j > path.len() {
        false
    } else if i == pattern.len() {
        j == path.len()
    } else if double_star_at(pattern, i) {
        glob_from(pattern, path, i + 2, j) || (j < path.len() && glob_from(
            pattern,
            path,
            i,
            j + 1,
        ))
    } else if pattern[i] == '*' {
        glob_from(pattern, path, i + 1, j) || (j < path.len() && path[j] != '/' && glob_from(
            pattern,
            path,
            i,
            j + 1,
        ))
    } else {
        j < path.len() && path[j] == pattern[i] && glob_from(pattern, path, i + 1, j + 1)
    }
}

/// Whether `pattern` matches the whole of `path`.
pub open spec fn glob_matches(pattern: Seq<char>, path: Seq<char>) -> bool {
    glob_from(pattern, path, 0, 0)
}

/// What the matcher's table holds for pattern position `i`: `row[j]` for
/// each path position but the last, and `end` for the position behind the
/// path.
spec fn row_holds(pattern: Seq<char>, path: Seq<char>, i: int, row: Seq<bool>, end: bool) -> bool {
    &&& row.len() == path.len()
    &&& end == glob_from(pattern, path, i, path.len() as int)
    &&& forall|j: int| 0 <= j < path.len() ==> row[j] == glob_from(pattern, path, i, j)
}

/// Decides whether `pattern` matches `path`, filling one table row for each
/// pattern position, from the last to the first.
pub fn is_match(pattern: &Vec<char>, path: &Vec<char>) -> (matched: bool)
    ensures
        matched == glob_matches(pattern@, path@),
{
    let m: usize = pattern.len();
    let n: usize = path.len();
    // Rows for the positions `i + 1` and `i + 2` of the pattern.
    let mut below: Vec<bool> = vec![false; n];
    let mut below_end: bool = true;
    let mut below2: Vec<bool> = vec![false; n];
    let mut below2_end: bool = false;
    let mut i: usize = m;
    while i > 0
        invariant
            m == pattern.len(),
            n == path.len(),
            i <= m,
            row_holds(pattern@, path@, i as int, below@, below_end),
            i + 1 <= m ==> row_holds(pattern@, path@, i + 1, below2@, below2_end),
        decreases i,
    {
        i = i - 1;
        let star: bool = pattern[i] == '*';
        let double: bool = star && i + 1 < m && pattern[i + 1] == '*';
        let end: bool = if double {
            below2_end
        } else if star {
            below_end
        } else {
            false
        };
        let mut row: Vec<bool> = vec![false; n];
        let mut j: usize = n;
        while j > 0
            invariant
                m == pattern.len(),
                n == path.len(),
                i < m,
                j <= n,
                row.len() == n,
                star == (pattern@[i as int] == '*'),
                double == double_star_at(pattern@, i as int),
                end == glob_from(pattern@, path@, i as int, n as int),
                row_holds(pattern@, path@, i + 1, below@, below_end),
                i + 2 <= m ==> row_holds(pattern@, path@, i + 2, below2@, below2_end),
                forall|k: int| j <= k < n ==> row@[k] == glob_from(pattern@, path@, i as int, k),
            decreases j,
        {
            j = j - 1;
            let after: bool = if j + 1 == n {
                end
            } else {
                row[j + 1]
            };
            let cell: bool = if double {
                below2[j] || after
            } else if star {
                below[j] || (path[j] != '/' && after)
            } else {
                path[j] == pattern[i] && (if j + 1 == n {
                    below_end
                } else {
                    below[j + 1]
                })
            };
            row.set(j, cell);
        }
        below2 = below;
        below2_end = below_end;
        below = row;
        below_end = end;
    }
    if n == 0 {
        below_end
    } else {
        below[0]
    }
}

/// Positions behind a common offset see only what follows the offset: a
/// pattern and a path that each carry a prefix match from behind the
/// prefixes as the remainders match.
pub proof fn lemma_glob_shift(
    head: Seq<char>,
    pattern: Seq<char>,
    lead: Seq<char>,
    path: Seq<char>,
    i: int,
    j: int,
)
    requires
        0 <= i <= pattern.len(),
        0 <= j <= path.len(),
    ensures
        glob_from(head + pattern, lead + path, head.len() + i, lead.len() + j) == glob_from(
            pattern,
            path,
            i,
            j,
        ),
    decreases pattern.len() - i, path.len() - j,
{
    if i < pattern.len() {
        if j < path.len() {
            lemma_glob_shift(head, pattern, lead, path, i, j + 1);
            lemma_glob_shift(head, pattern, lead, path, i + 1, j + 1);
        }
        lemma_glob_shift(head, pattern, lead, path, i + 1, j);
        if i + 1 < pattern.len() {
            lemma_glob_shift(head, pattern, lead, path, i + 2, j);
        }
    }
}

/// A pattern that ends in `**` at position `i` matches whatever is left of
/// the path.
pub proof fn lemma_trailing_double_star(pattern: Seq<char>, path: Seq<char>, i: int, j: int)
    requires
        double_star_at(pattern, i),
        i + 2 == pattern.len(),
        0 <= j <= path.len(),
    ensures
        glob_from(pattern, path, i, j),
    decreases path.len() - j,
{
    if j < path.len() {
        lemma_trailing_double_star(pattern, path, i, j + 1);
    } else {
        assert(glob_from(pattern, path, i + 2, j));
    }
}

/// A single `*` at position `i` may take the characters of the path from `j`
/// up to `k`, none of them a `/`.
pub proof fn lemma_star_takes_segment(
    pattern: Seq<char>,
    path: Seq<char>,
    i: int,
    j: int,
    k: int,
)
    requires
        0 <= i < pattern.len(),
        pattern[i] == '*',
        !double_star_at(pattern, i),
        0 <= j <= k <= path.len(),
        forall|x: int| j <= x < k ==> path[x] != '/',
        glob_from(pattern, path, i + 1, k),
    ensures
        glob_from(pattern, path, i, j),
    decreases k - j,
{
    if j < k {
        lemma_star_takes_segment(pattern, path, i, j + 1, k);
    }
}

/// Whether joining `head` and `tail` leaves the wildcards of each as they
/// were: no star at the end of `head` meets one at the start of `tail`.
pub open spec fn joins_cleanly(head: Seq<char>, tail: Seq<char>) -> bool {
    head.len() == 0 || tail.len() == 0 || head.last() != '*' || tail[0] != '*'
}

/// A text put before both a pattern and a path that it matches keeps the
/// match, from every position `k` of that text on: as a pattern the text
/// matches itself, stars included.
pub proof fn lemma_common_prefix_from(
    head: Seq<char>,
    pattern: Seq<char>,
    path: Seq<char>,
    k: int,
)
    requires
        glob_matches(pattern, path),
        joins_cleanly(head, pattern),
        0 <= k <= head.len(),
    ensures
        glob_from(head + pattern, head + path, k, k),
    decreases head.len() - k,
{
    let whole = head + pattern;
    let full = head + path;
    if k == head.len() {
        lemma_glob_shift(head, pattern, head, path, 0, 0);
    } else {
        if double_star_at(whole, k) {
            assert(k + 1 < head.len());
            lemma_common_prefix_from(head, pattern, path, k + 2);
            assert(glob_from(whole, full, k, k + 2));
            assert(glob_from(whole, full, k, k + 1));
        } else if head[k] == '*' {
            lemma_common_prefix_from(head, pattern, path, k + 1);
            assert(glob_from(whole, full, k, k + 1));
        } else {
            lemma_common_prefix_from(head, pattern, path, k + 1);
        }
    }
}

/// A text put before both a pattern and a path that it matches keeps the
/// match.
pub proof fn lemma_common_prefix(head: Seq<char>, pattern: Seq<char>, path: Seq<char>)
    requires
        glob_matches(pattern, path),
        joins_cleanly(head, pattern),
    ensures
        glob_matches(head + pattern, head + path),
{
    lemma_common_prefix_from(head, pattern, path, 0);
}

/// Every text, read as a pattern, matches itself.
pub proof fn lemma_matches_itself(text: Seq<char>)
    ensures
        glob_matches(text, text),
{
    let nothing = Seq::<char>::empty();
    lemma_common_prefix(text, nothing, nothing);
}

} // verus!
