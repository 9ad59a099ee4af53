//! Paths as text, in the two notations that the launcher meets.

use crate::text::chars_of;
use vstd::prelude::*;
use vstd::string::*;

verus! {

/// How a platform writes its paths.
#[derive(Clone, Copy, Debug, PartialEq, Eq, Structural)]
pub enum Style {
    /// Components are separated by `/`.
    Unix,
    /// Components are separated by `\`; `/` is accepted too.
    Windows,
}

/// Whether `c` separates two components of a path.
pub open spec fn is_separator(style: Style, c: char) -> bool {
    c == '/' || (style == Style::Windows && c == '\\')
}

/// The separator that the platform itself writes.
pub open spec fn separator(style: Style) -> char {
    match style {
        Style::Unix => '/',
        Style::Windows => '\\',
    }
}

/// The path of `name` inside the directory `dir`: both are put together, with
/// a separator between them unless `dir` is empty or ends with one.
pub open spec fn join(style: Style, dir: Seq<char>, name: Seq<char>) -> Seq<char> {
    if dir.len() == 0 || is_separator(style, dir.last()) {
        dir + name
    } else {
        dir + seq![separator(style)] + name
    }
}

/// Where the last component of `path` begins: behind its last separator, or
/// at zero if it has none.
pub open spec fn name_start(style: Style, path: Seq<char>) -> int
    decreases path.len(),
{
    if path.len() == 0 || is_separator(style, path.last()) {
        path.len() as int
    } else {
        name_start(style, path.drop_last())
    }
}

/// The last component of `path`: what follows its last separator.
pub open spec fn file_name(style: Style, path: Seq<char>) -> Seq<char> {
    path.skip(name_start(style, path))
}

/// `path` without its last component: what stands before it, the separator
/// included.
pub open spec fn directory(style: Style, path: Seq<char>) -> Seq<char> {
    path.take(name_start(style, path))
}

/// Tells a separator from other characters.
pub fn char_is_separator(style: Style, c: char) -> (b: bool)
    ensures
        b == is_separator(style, c),
{
    match style {
        Style::Unix => c == '/',
        Style::Windows => c == '/' || c == '\\',
    }
}

/// Puts a directory and a name together.
pub fn join_path(style: Style, dir: &str, name: &str) -> (path: String)
    ensures
        path@ == join(style, dir@, name@),
{
    let n = dir.unicode_len();
    let mut path = String::from_str(dir);
    if n > 0 && !char_is_separator(style, dir.get_char(n - 1)) {
        proof {
            reveal_strlit("/");
            reveal_strlit("\\");
        }
        match style {
            Style::Unix => path.append("/"),
            Style::Windows => path.append("\\"),
        }
        assert(path@ =~= dir@ + seq![separator(style)]);
    }
    path.append(name);
    path
}

/// Parts a path into its directory and its last component.
pub fn split_path(style: Style, path: &str) -> (parts: (String, String))
    ensures
        parts.0@ == directory(style, path@),
        parts.1@ == file_name(style, path@),
{
    let chars = chars_of(path);
    let mut start: usize = chars.len();
    assert(path@.take(start as int) == path@);
    while start > 0 && !char_is_separator(style, chars[start - 1])
        invariant
            start <= chars.len(),
            chars@ == path@,
            name_start(style, path@) == name_start(style, path@.take(start as int)),
        decreases start,
    {
        assert(path@.take(start as int).drop_last() == path@.take(start as int - 1));
        start = start - 1;
    }
    let dir = path.substring_char(0, start);
    let name = path.substring_char(start, chars.len());
    (String::from_str(dir), String::from_str(name))
}

/// The last component of a path holds no separator, begins inside the path,
/// and follows a separator unless the whole path is that component.
pub proof fn lemma_name_start(style: Style, path: Seq<char>)
    ensures
        0 <= name_start(style, path) <= path.len(),
        forall|i: int|
            name_start(style, path) <= i < path.len() ==> !is_separator(style, #[trigger] path[i]),
        name_start(style, path) > 0 ==> is_separator(style, path[name_start(style, path) - 1]),
    decreases path.len(),
{
    if !(path.len() == 0 || is_separator(style, path.last())) {
        let shorter = path.drop_last();
        lemma_name_start(style, shorter);
        assert forall|i: int| name_start(style, path) <= i < path.len() implies !is_separator(
            style,
            #[trigger] path[i],
        ) by {
            if i < shorter.len() {
                assert(path[i] == shorter[i]);
            }
        }
    }
}

/// Parting a path and joining the parts again gives the path back.
pub proof fn lemma_split_join(style: Style, path: Seq<char>)
    ensures
        join(style, directory(style, path), file_name(style, path)) == path,
{
    lemma_name_start(style, path);
    assert(directory(style, path) + file_name(style, path) =~= path);
}

/// A name without separators, joined to a directory, is the last component
/// of the result, and what precedes it is the directory with a separator at
/// its end.
pub proof fn lemma_join_split(style: Style, dir: Seq<char>, name: Seq<char>)
    requires
        forall|i: int| 0 <= i < name.len() ==> !is_separator(style, #[trigger] name[i]),
    ensures
        file_name(style, join(style, dir, name)) == name,
        directory(style, join(style, dir, name)) == if dir.len() == 0 || is_separator(
            style,
            dir.last(),
        ) {
            dir
        } else {
            dir + seq![separator(style)]
        },
    decreases name.len(),
{
    let base = if dir.len() == 0 || is_separator(style, dir.last()) {
        dir
    } else {
        dir + seq![separator(style)]
    };
    assert(join(style, dir, name) =~= base + name);
    lemma_name_after(style, base, name);
    assert((base + name).skip(base.len() as int) =~= name);
    assert((base + name).take(base.len() as int) =~= base);
}

/// Behind a directory that is empty or ends with a separator, a name
/// without separators begins where the directory ends.
proof fn lemma_name_after(style: Style, base: Seq<char>, name: Seq<char>)
    requires
        base.len() == 0 || is_separator(style, base.last()),
        forall|i: int| 0 <= i < name.len() ==> !is_separator(style, #[trigger] name[i]),
    ensures
        name_start(style, base + name) == base.len(),
    decreases name.len(),
{
    if name.len() == 0 {
        assert(base + name =~= base);
    } else {
        assert((base + name).last() == name.last());
        assert((base + name).drop_last() =~= base + name.drop_last());
        lemma_name_after(style, base, name.drop_last());
    }
}

} // verus!
