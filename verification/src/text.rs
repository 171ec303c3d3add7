//! Small operations on text that the record formatter is built from.

use vstd::prelude::*;
use vstd::string::*;
use vstd::utf8::*;

verus! {

/// The number of bytes that `text` takes in UTF-8; what `str::len` returns.
pub open spec fn byte_len(text: Seq<char>) -> nat {
    encode_utf8(text).len()
}

/// `count` blanks.
pub open spec fn blanks(count: nat) -> Seq<char> {
    Seq::new(count, |i: int| ' ')
}

/// `text`, followed by as many blanks as it takes to reach `width`
/// characters; unchanged where it is that long already.
pub open spec fn padded(text: Seq<char>, width: nat) -> Seq<char> {
    if text.len() < width {
        text + blanks((width - text.len()) as nat)
    } else {
        text
    }
}

/// Two colons stand at `at` and `at + 1`.
pub open spec fn separator_at(path: Seq<char>, at: int) -> bool {
    0 <= at && at + 1 < path.len() && path[at] == ':' && path[at + 1] == ':'
}

/// `at` is the first place in `path` where two colons stand.
pub open spec fn first_separator(path: Seq<char>, at: int) -> bool {
    separator_at(path, at) && forall|before: int| separator_at(path, before) ==> at <= before
}

/// The last of the segments that `path` falls into when it is cut at every
/// `::`, read from the left: a path without `::` is its own last segment,
/// any other path has the last segment of what follows its first `::`.
pub open spec fn last_segment_of(path: Seq<char>) -> Seq<char>
    decreases path.len(),
{
    if exists|at: int| first_separator(path, at) {
        let at = choose|at: int| first_separator(path, at);
        last_segment_of(path.skip(at + 2))
    } else {
        path
    }
}

/// Every character takes at least one byte.
pub proof fn lemma_byte_len_bounds(text: Seq<char>)
    ensures
        text.len() <= byte_len(text),
    decreases text.len(),
{
    if text.len() > 0 {
        lemma_byte_len_bounds(text.drop_first());
    }
}

/// Padding fills the column: the result is as long as the longer of the
/// text and the width, and begins with the text.
pub proof fn lemma_padded_length(text: Seq<char>, width: nat)
    ensures
        padded(text, width).len() == if text.len() < width { width } else { text.len() },
        text.is_prefix_of(padded(text, width)),
        forall|i: int| text.len() <= i < padded(text, width).len() ==> padded(text, width)[i] == ' ',
{
}

/// A path whose first `::` stands at `at` has the last segment of what
/// follows that `::`.
proof fn lemma_last_segment_step(path: Seq<char>, at: int)
    requires
        first_separator(path, at),
    ensures
        last_segment_of(path) == last_segment_of(path.skip(at + 2)),
{
    let chosen = choose|first: int| first_separator(path, first);
    assert(chosen == at);
}

/// A path in which no two colons stand side by side is its own last segment.
proof fn lemma_last_segment_whole(path: Seq<char>)
    requires
        forall|at: int| !separator_at(path, at),
    ensures
        last_segment_of(path) == path,
{
}

/// The last segment is the end of the path, holds no `::`, and is either the
/// whole path or stands right behind a `::`.
pub proof fn lemma_last_segment_is_suffix(path: Seq<char>)
    ensures
        last_segment_of(path).len() <= path.len(),
        last_segment_of(path) == path.skip(path.len() - last_segment_of(path).len()),
        forall|at: int| !separator_at(last_segment_of(path), at),
        last_segment_of(path).len() < path.len() ==> separator_at(
            path,
            path.len() - last_segment_of(path).len() - 2,
        ),
    decreases path.len(),
{
    if exists|at: int| first_separator(path, at) {
        let at = choose|at: int| first_separator(path, at);
        lemma_last_segment_is_suffix(path.skip(at + 2));
    } else {
        assert forall|at: int| !separator_at(path, at) by {
            if separator_at(path, at) {
                lemma_least_separator(path, at);
            }
        }
    }
}

/// Where two colons stand somewhere, there is a first such place.
proof fn lemma_least_separator(path: Seq<char>, at: int)
    requires
        separator_at(path, at),
    ensures
        exists|first: int| first_separator(path, first),
    decreases at,
{
    if exists|before: int| separator_at(path, before) && before < at {
        let before = choose|before: int| separator_at(path, before) && before < at;
        lemma_least_separator(path, before);
    } else {
        assert(first_separator(path, at));
    }
}

/// The module that a record's target names: the last segment of its path.
pub fn last_segment<'a>(target: &'a str) -> (segment: &'a str)
    ensures
        segment@ == last_segment_of(target@),
{
    let n: usize = target.unicode_len();
    let mut start: usize = 0;
    let mut at: usize = 0;
    assert(target@.skip(0) =~= target@);
    while n - at > 1
        invariant
            n == target@.len(),
            start <= at <= n,
            last_segment_of(target@) == last_segment_of(target@.skip(start as int)),
            forall|k: int| start <= k < at ==> !separator_at(target@, k),
        decreases n - at,
    {
        if target.get_char(at) == ':' && target.get_char(at + 1) == ':' {
            proof {
                let tail = target@.skip(start as int);
                assert forall|before: int| separator_at(tail, before) implies at - start
                    <= before by {
                    if before < at - start {
                        assert(separator_at(target@, start + before));
                    }
                }
                lemma_last_segment_step(tail, at - start);
                assert(tail.skip(at - start + 2) =~= target@.skip(at + 2));
            }
            at = at + 2;
            start = at;
        } else {
            at = at + 1;
        }
    }
    proof {
        let tail = target@.skip(start as int);
        assert forall|k: int| !separator_at(tail, k) by {
            if separator_at(tail, k) {
                assert(separator_at(target@, start + k));
            }
        }
        lemma_last_segment_whole(tail);
    }
    target.substring_char(start, n)
}

/// Pads `text` with blanks on the right to `width` characters.
pub fn pad_right(text: &str, width: usize) -> (out: String)
    ensures
        out@ == padded(text@, width as nat),
{
    let n: usize = text.unicode_len();
    let mut out = String::from_str(text);
    let mut at: usize = n;
    proof {
        reveal_strlit(" ");
    }
    while at < width
        invariant
            n == text@.len(),
            n <= at,
            at <= width || at == n,
            out@ == text@ + blanks((at - n) as nat),
            " "@ == seq![' '],
        decreases width - at,
    {
        out.append(" ");
        at = at + 1;
    }
    out
}

/// Whether `target` begins with `prefix`.
pub fn has_prefix(target: &str, prefix: &str) -> (found: bool)
    ensures
        found == prefix@.is_prefix_of(target@),
{
    let n: usize = prefix.unicode_len();
    if target.unicode_len() < n {
        return false;
    }
    let mut at: usize = 0;
    while at < n
        invariant
            n == prefix@.len(),
            n <= target@.len(),
            at <= n,
            forall|k: int| 0 <= k < at ==> prefix@[k] == target@[k],
        decreases n - at,
    {
        if prefix.get_char(at) != target.get_char(at) {
            return false;
        }
        at = at + 1;
    }
    true
}

} // verus!
