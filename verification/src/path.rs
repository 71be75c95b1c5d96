//! The parts of a file's path that extraction goes by: the extension, which
//! selects how the file is handled, and the stem, which names the entry.
//!
//! A path is read as text with `/` between its segments. Its file name is
//! its last segment, where segments that name nothing, empty ones and lone
//! dots, do not count. Extension and stem are those of the file name: a dot
//! in the name of a directory is none of theirs.

use crate::text::chars_of;
use vstd::prelude::*;

verus! {

/// The position of the last `c` in `s`, or -1 where `s` holds none.
pub open spec fn last_index_of(s: Seq<char>, c: char) -> int
    decreases s.len(),
{
    if s.len() == 0 {
        -1
    } else if s.last() == c {
        s.len() - 1
    } else {
        last_index_of(s.drop_last(), c)
    }
}

/// Whether the path ends in something that names nothing: in a slash, or in
/// a segment that is a lone dot.
pub open spec fn ends_idle(path: Seq<char>) -> bool {
    path.len() > 0 && (path.last() == '/' || (path.last() == '.' && (path.len() == 1 || path[path.len()
        - 2] == '/')))
}

/// The path without what it ends in that names nothing.
pub open spec fn trimmed(path: Seq<char>) -> Seq<char>
    decreases path.len(),
{
    if ends_idle(path) {
        trimmed(path.drop_last())
    } else {
        path
    }
}

/// The last segment of the trimmed path: what follows its last slash.
pub open spec fn file_name_of(path: Seq<char>) -> Seq<char> {
    let kept = trimmed(path);
    kept.skip(last_index_of(kept, '/') + 1)
}

/// The extension of the file: what follows the last dot of its name, if
/// the name holds a dot at all.
pub open spec fn extension_of(path: Seq<char>) -> Option<Seq<char>> {
    let name = file_name_of(path);
    let dot = last_index_of(name, '.');
    if dot < 0 {
        None
    } else {
        Some(name.skip(dot + 1))
    }
}

/// Whether the path names a file: it has a last segment, and that is not
/// `..`.
pub open spec fn names_file(path: Seq<char>) -> bool {
    let name = file_name_of(path);
    name.len() > 0 && name != seq!['.', '.']
}

/// The file name without its extension: what stands before the last dot of
/// the name, or the whole name where it holds no dot or only a leading one.
pub open spec fn stem_of(path: Seq<char>) -> Seq<char> {
    let name = file_name_of(path);
    let dot = last_index_of(name, '.');
    if dot <= 0 {
        name
    } else {
        name.take(dot)
    }
}

/// [`last_index_of`] finds a `c`, and the last one.
pub proof fn lemma_last_index_of(s: Seq<char>, c: char)
    ensures
        -1 <= last_index_of(s, c) < s.len(),
        last_index_of(s, c) >= 0 ==> s[last_index_of(s, c)] == c,
        forall|j: int| last_index_of(s, c) < j < s.len() ==> s[j] != c,
    decreases s.len(),
{
    if s.len() > 0 && s.last() != c {
        let shorter = s.drop_last();
        lemma_last_index_of(shorter, c);
        assert forall|j: int| last_index_of(s, c) < j < s.len() implies s[j] != c by {
            if j < shorter.len() {
                assert(shorter[j] == s[j]);
            }
        }
    }
}

/// A position that holds `c`, with no `c` behind it, is the one that
/// [`last_index_of`] gives; and where no position holds `c`, it gives -1.
pub proof fn lemma_last_index_is(s: Seq<char>, c: char, at: int)
    requires
        -1 <= at < s.len(),
        at >= 0 ==> s[at] == c,
        forall|j: int| at < j < s.len() ==> s[j] != c,
    ensures
        last_index_of(s, c) == at,
{
    lemma_last_index_of(s, c);
}

/// The stem of a path that names a file is never empty.
pub proof fn lemma_stem_not_empty(path: Seq<char>)
    requires
        names_file(path),
    ensures
        stem_of(path).len() > 0,
{
    lemma_last_index_of(file_name_of(path), '.');
}

/// Where the file name holds a dot that is not its first character, the
/// name is the stem, a dot, and the extension.
pub proof fn lemma_name_is_stem_dot_extension(path: Seq<char>)
    requires
        last_index_of(file_name_of(path), '.') > 0,
    ensures
        extension_of(path) is Some,
        file_name_of(path) == stem_of(path) + seq!['.'] + extension_of(path)->0,
{
    let name = file_name_of(path);
    let dot = last_index_of(name, '.');
    lemma_last_index_of(name, '.');
    assert(name =~= name.take(dot) + seq!['.'] + name.skip(dot + 1));
}

/// The position of the last `c` among the first `end` of `chars`, if there
/// is one.
fn last_position(chars: &Vec<char>, end: usize, c: char) -> (at: Option<usize>)
    requires
        end <= chars.len(),
    ensures
        match at {
            Some(i) => i < end && i == last_index_of(chars@.take(end as int), c),
            None => last_index_of(chars@.take(end as int), c) == -1,
        },
{
    let ghost front = chars@.take(end as int);
    let mut at: usize = end;
    while at > 0
        invariant
            at <= end <= chars.len(),
            front == chars@.take(end as int),
            forall|j: int| at <= j < end ==> front[j] != c,
        decreases at,
    {
        at -= 1;
        if chars[at] == c {
            proof {
                lemma_last_index_is(front, c, at as int);
            }
            return Some(at);
        }
    }
    proof {
        lemma_last_index_is(front, c, -1);
    }
    None
}

/// How many of the characters of a path are left when it is trimmed.
fn trimmed_len(chars: &Vec<char>) -> (end: usize)
    ensures
        end <= chars.len(),
        trimmed(chars@) == chars@.take(end as int),
{
    let mut end: usize = chars.len();
    assert(chars@.take(end as int) =~= chars@);
    while end > 0 && (chars[end - 1] == '/' || (chars[end - 1] == '.' && (end == 1 || chars[end
        - 2] == '/')))
        invariant
            end <= chars.len(),
            trimmed(chars@) == trimmed(chars@.take(end as int)),
        decreases end,
    {
        assert(chars@.take(end as int).drop_last() =~= chars@.take(end - 1));
        end -= 1;
    }
    end
}

/// The file name of `path`.
fn name_of(path: &str) -> (name: &str)
    ensures
        name@ == file_name_of(path@),
{
    let chars = chars_of(path);
    let end = trimmed_len(&chars);
    let start: usize = match last_position(&chars, end, '/') {
        Some(slash) => slash + 1,
        None => 0,
    };
    let name = path.substring_char(start, end);
    assert(name@ =~= file_name_of(path@));
    name
}

/// The extension of the file at `path`: what follows the last dot of its
/// name. `None` where the name holds no dot; the empty string where it ends
/// in one.
pub fn extension(path: &str) -> (ext: Option<String>)
    ensures
        match ext {
            Some(e) => extension_of(path@) == Some(e@),
            None => extension_of(path@) is None,
        },
{
    let name = name_of(path);
    let letters = chars_of(name);
    let count = letters.len();
    assert(letters@.take(count as int) =~= letters@);
    match last_position(&letters, count, '.') {
        Some(dot) => Some(name.substring_char(dot + 1, count).to_owned()),
        None => None,
    }
}

/// The stem of `path`: its file name without the extension. `None` where the
/// path names no file: where it has no segment but empty ones and lone dots,
/// or where the last of the others is `..`.
pub fn filename(path: &str) -> (stem: Option<String>)
    ensures
        match stem {
            Some(s) => names_file(path@) && s@ == stem_of(path@),
            None => !names_file(path@),
        },
{
    let name = name_of(path);
    let letters = chars_of(name);
    let count = letters.len();
    if count == 0 || (count == 2 && letters[0] == '.' && letters[1] == '.') {
        assert(count == 0 || letters@ =~= seq!['.', '.']);
        return None;
    }
    assert(letters@ != seq!['.', '.']) by {
        if count == 2 {
            assert(seq!['.', '.'][0] == '.' && seq!['.', '.'][1] == '.');
        }
    }
    assert(letters@.take(count as int) =~= letters@);
    match last_position(&letters, count, '.') {
        Some(dot) => {
            if dot == 0 {
                Some(name.to_owned())
            } else {
                Some(name.substring_char(0, dot).to_owned())
            }
        },
        None => Some(name.to_owned()),
    }
}

} // verus!
