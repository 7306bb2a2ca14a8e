//! Paths as text: joining a component to a directory and finding the
//! directory a path lies in.
//!
//! A path is a sequence of characters in which runs of separators part the
//! components. Nothing here touches the disk.

use crate::platform::Platform;
use vstd::prelude::*;

verus! {

/// Whether `c` can name a drive.
pub open spec fn is_drive_letter(c: char) -> bool {
    ('a' <= c && c <= 'z') || ('A' <= c && c <= 'Z')
}

/// The length of the drive prefix that opens `path`: on Windows a letter and
/// a colon, as in `C:`; nothing elsewhere.
pub open spec fn drive_len(platform: Platform, path: Seq<char>) -> nat {
    if platform is Windows && path.len() >= 2 && is_drive_letter(path[0]) && path[1] == ':' {
        2
    } else {
        0
    }
}

/// The relative name `name` placed under `base`: the two are written one
/// after the other, with the platform's separator between them unless `base`
/// is empty, already ends in one, or is a drive prefix and nothing more.
pub open spec fn joined(platform: Platform, base: Seq<char>, name: Seq<char>) -> Seq<char> {
    if base.len() == 0 || platform.separates(base.last()) || drive_len(platform, base)
        == base.len() {
        base + name
    } else {
        base + seq![platform.separator()] + name
    }
}

/// The length of `path` without the separators at its end.
pub open spec fn trimmed_len(platform: Platform, path: Seq<char>) -> nat
    decreases path.len(),
{
    if path.len() > 0 && platform.separates(path.last()) {
        trimmed_len(platform, path.drop_last())
    } else {
        path.len()
    }
}

/// The length of `path` without the component at its end: what is left ends
/// in a separator or is empty.
pub open spec fn stem_len(platform: Platform, path: Seq<char>) -> nat
    decreases path.len(),
{
    if path.len() > 0 && !platform.separates(path.last()) {
        stem_len(platform, path.drop_last())
    } else {
        path.len()
    }
}

/// The directory that holds the last component of `path`, for a path with
/// no drive prefix.
///
/// Separators at the end of `path` are ignored. A path with no component (an
/// empty one, or a root) has no parent. A single relative component lies in
/// the empty path; a component directly under a root lies in that root, which
/// keeps its separators; otherwise the parent is what stands before the
/// separators that precede the last component.
pub open spec fn parent_below(platform: Platform, path: Seq<char>) -> Option<Seq<char>> {
    let whole = path.take(trimmed_len(platform, path) as int);
    let stem = whole.take(stem_len(platform, whole) as int);
    let dir = stem.take(trimmed_len(platform, stem) as int);
    if whole.len() == 0 {
        None
    } else if dir.len() == 0 {
        Some(stem)
    } else {
        Some(dir)
    }
}

/// The directory that holds the last component of `path`.
///
/// A drive prefix is no component: it stays in front of the parent that the
/// rest of the path has by `parent_below`, and a path that holds nothing but
/// a drive prefix and separators, such as `C:` or `C:\`, has no parent.
/// Other prefixes that Windows knows, those of network shares among them, are
/// read as ordinary components.
pub open spec fn parent_of(platform: Platform, path: Seq<char>) -> Option<Seq<char>> {
    let drive = drive_len(platform, path) as int;
    match parent_below(platform, path.skip(drive)) {
        Some(dir) => Some(path.take(drive) + dir),
        None => None,
    }
}

/// The parent of `path`, or `path` itself where it has none.
pub open spec fn parent_or_self(platform: Platform, path: Seq<char>) -> Seq<char> {
    match parent_of(platform, path) {
        Some(dir) => dir,
        None => path,
    }
}

/// Both lengths stay within the path.
pub proof fn lemma_lengths_bounded(platform: Platform, path: Seq<char>)
    ensures
        trimmed_len(platform, path) <= path.len(),
        stem_len(platform, path) <= path.len(),
    decreases path.len(),
{
    if path.len() > 0 {
        lemma_lengths_bounded(platform, path.drop_last());
    }
}

/// A parent is a prefix of its path and strictly shorter; a path has one
/// exactly when some character after its drive prefix is no separator.
pub proof fn lemma_parent_is_prefix(platform: Platform, path: Seq<char>)
    ensures
        match parent_of(platform, path) {
            Some(dir) => dir.len() < path.len() && dir == path.take(dir.len() as int),
            None => forall|i: int|
                drive_len(platform, path) <= i < path.len() ==> platform.separates(
                    #[trigger] path[i],
                ),
        },
        parent_of(platform, path) is Some ==> exists|i: int|
            drive_len(platform, path) <= i < path.len() && !platform.separates(#[trigger] path[i]),
{
    let drive = drive_len(platform, path) as int;
    let body = path.skip(drive);
    lemma_parent_below_is_prefix(platform, body);
    match parent_below(platform, body) {
        Some(dir) => {
            assert(path.take(drive) + dir =~= path.take(drive + dir.len()));
            let i = choose|i: int| 0 <= i < body.len() && !platform.separates(#[trigger] body[i]);
            assert(body[i] == path[i + drive]);
        },
        None => {
            assert forall|i: int| drive <= i < path.len() implies platform.separates(
                #[trigger] path[i],
            ) by {
                assert(path[i] == body[i - drive]);
            }
        },
    }
}

/// The same of `parent_below`.
proof fn lemma_parent_below_is_prefix(platform: Platform, path: Seq<char>)
    ensures
        match parent_below(platform, path) {
            Some(dir) => dir.len() < path.len() && dir == path.take(dir.len() as int),
            None => forall|i: int| 0 <= i < path.len() ==> platform.separates(#[trigger] path[i]),
        },
        parent_below(platform, path) is Some ==> exists|i: int|
            0 <= i < path.len() && !platform.separates(#[trigger] path[i]),
{
    let whole = path.take(trimmed_len(platform, path) as int);
    lemma_lengths_bounded(platform, path);
    lemma_lengths_bounded(platform, whole);
    let stem = whole.take(stem_len(platform, whole) as int);
    lemma_lengths_bounded(platform, stem);
    lemma_trimmed_tail(platform, path);
    if whole.len() > 0 {
        lemma_stem_shorter(platform, whole);
        let dir = stem.take(trimmed_len(platform, stem) as int);
        assert(stem =~= path.take(stem.len() as int));
        assert(dir =~= path.take(dir.len() as int));
        assert(!platform.separates(path[whole.len() - 1]));
    }
}

/// What `trimmed_len` cuts off holds separators only, and what it leaves does
/// not end in one.
proof fn lemma_trimmed_tail(platform: Platform, path: Seq<char>)
    ensures
        forall|i: int|
            trimmed_len(platform, path) <= i < path.len() ==> platform.separates(#[trigger] path[i]),
        trimmed_len(platform, path) > 0 ==> !platform.separates(
            path[trimmed_len(platform, path) - 1],
        ),
    decreases path.len(),
{
    if path.len() > 0 && platform.separates(path.last()) {
        let front = path.drop_last();
        lemma_trimmed_tail(platform, front);
        lemma_lengths_bounded(platform, front);
        assert forall|i: int| trimmed_len(platform, path) <= i < path.len() implies platform.separates(
            #[trigger] path[i],
        ) by {
            if i < front.len() {
                assert(path[i] == front[i]);
            }
        }
        if trimmed_len(platform, path) > 0 {
            assert(path[trimmed_len(platform, path) - 1] == front[trimmed_len(platform, front) - 1]);
        }
    }
}

/// A path that does not end in a separator loses at least one character to
/// `stem_len`.
proof fn lemma_stem_shorter(platform: Platform, path: Seq<char>)
    requires
        path.len() > 0,
        !platform.separates(path.last()),
    ensures
        stem_len(platform, path) < path.len(),
{
    lemma_lengths_bounded(platform, path.drop_last());
}

/// Tells whether `c` can name a drive.
fn names_drive(c: char) -> (yes: bool)
    ensures
        yes == is_drive_letter(c),
{
    ('a' <= c && c <= 'z') || ('A' <= c && c <= 'Z')
}

/// Measures the drive prefix of `path`, which holds `len` characters.
fn drive_length(platform: Platform, path: &str, len: usize) -> (n: usize)
    requires
        len == path@.len(),
    ensures
        n == drive_len(platform, path@),
        n <= len,
{
    match platform {
        Platform::Windows => {
            if len >= 2 && names_drive(path.get_char(0)) && path.get_char(1) == ':' {
                2
            } else {
                0
            }
        },
        _ => 0,
    }
}

/// Joins the relative name `name` to `base`.
pub fn join(platform: Platform, base: &str, name: &str) -> (path: String)
    ensures
        path@ == joined(platform, base@, name@),
{
    let n: usize = base.unicode_len();
    let drive: usize = drive_length(platform, base, n);
    let mut path = String::from_str(base);
    if n > 0 && drive != n && !platform.is_separator(base.get_char(n - 1)) {
        path.append(platform.separator_text());
    }
    path.append(name);
    path
}

/// Counts the characters of the first `upto` of `path` that remain once the
/// separators at their end are dropped.
fn trimmed_length(platform: Platform, path: &str, upto: usize) -> (n: usize)
    requires
        upto <= path@.len(),
    ensures
        n == trimmed_len(platform, path@.take(upto as int)),
        n <= upto,
{
    let mut n: usize = upto;
    while n > 0 && platform.is_separator(path.get_char(n - 1))
        invariant
            n <= upto <= path@.len(),
            trimmed_len(platform, path@.take(upto as int)) == trimmed_len(
                platform,
                path@.take(n as int),
            ),
        decreases n,
    {
        assert(path@.take(n as int).drop_last() =~= path@.take(n - 1));
        n = n - 1;
    }
    n
}

/// Counts the characters of the first `upto` of `path` that remain once the
/// component at their end is dropped.
fn stem_length(platform: Platform, path: &str, upto: usize) -> (n: usize)
    requires
        upto <= path@.len(),
    ensures
        n == stem_len(platform, path@.take(upto as int)),
        n <= upto,
{
    let mut n: usize = upto;
    while n > 0 && !platform.is_separator(path.get_char(n - 1))
        invariant
            n <= upto <= path@.len(),
            stem_len(platform, path@.take(upto as int)) == stem_len(platform, path@.take(n as int)),
        decreases n,
    {
        assert(path@.take(n as int).drop_last() =~= path@.take(n - 1));
        n = n - 1;
    }
    n
}

/// Measures the parent of a path with no drive prefix.
fn parent_length(platform: Platform, path: &str) -> (cut: Option<usize>)
    ensures
        match cut {
            Some(n) => n <= path@.len() && parent_below(platform, path@) == Some(
                path@.take(n as int),
            ),
            None => parent_below(platform, path@) is None,
        },
{
    let len: usize = path.unicode_len();
    assert(path@.take(len as int) =~= path@);
    let whole: usize = trimmed_length(platform, path, len);
    if whole == 0 {
        return None;
    }
    let stem: usize = stem_length(platform, path, whole);
    let dir: usize = trimmed_length(platform, path, stem);
    proof {
        assert(path@.take(whole as int).take(stem as int) =~= path@.take(stem as int));
        assert(path@.take(stem as int).take(dir as int) =~= path@.take(dir as int));
    }
    if dir == 0 {
        Some(stem)
    } else {
        Some(dir)
    }
}

/// Finds the directory that holds the last component of `path`.
pub fn parent(platform: Platform, path: &str) -> (dir: Option<String>)
    ensures
        dir.is_some() == parent_of(platform, path@).is_some(),
        dir matches Some(d) ==> parent_of(platform, path@) == Some(d@) && d@.len() < path@.len()
            && d@ == path@.take(d@.len() as int),
{
    proof {
        lemma_parent_is_prefix(platform, path@);
    }
    let len: usize = path.unicode_len();
    let drive: usize = drive_length(platform, path, len);
    let body = path.substring_char(drive, len);
    assert(body@ =~= path@.skip(drive as int));
    match parent_length(platform, body) {
        None => None,
        Some(cut) => {
            let text = path.substring_char(0, drive + cut);
            assert(text@ =~= path@.take(drive as int) + body@.take(cut as int));
            Some(String::from_str(text))
        },
    }
}

/// Finds the parent of `path`, and falls back to `path` itself where it has
/// none.
pub fn parent_or_same(platform: Platform, path: &str) -> (dir: String)
    ensures
        dir@ == parent_or_self(platform, path@),
{
    match parent(platform, path) {
        Some(dir) => dir,
        None => String::from_str(path),
    }
}

} // verus!
