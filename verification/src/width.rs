//! The width of the module column: the longest module name seen so far.

use crate::text::byte_len;
use std::sync::atomic::AtomicUsize;
use vstd::prelude::*;
use vstd::string::*;

verus! {

/// The width of the module column before any name has been seen.
pub const DEFAULT_MODULE_WIDTH: usize = 20;

/// The width after a name of `len` bytes has been seen at width `current`.
pub open spec fn widened(current: nat, len: nat) -> nat {
    if current < len {
        len
    } else {
        current
    }
}

/// The width after `names` have been seen one after the other, starting
/// from `start`.
pub open spec fn width_after(start: nat, names: Seq<Seq<char>>) -> nat
    decreases names.len(),
{
    if names.len() == 0 {
        start
    } else {
        widened(width_after(start, names.drop_last()), byte_len(names.last()))
    }
}

/// The width that a tracker which started at `start` returns for `name`
/// where its cell held `seen`: the largest of `seen`, the length of the name
/// in bytes, and `start`.
pub open spec fn observed(start: nat, seen: nat, name: Seq<char>) -> nat {
    widened(widened(seen, byte_len(name)), start)
}

/// One step of the tracker on plain numbers: the larger of the width so far
/// and the length of the name just seen.
pub fn wider(current: usize, len: usize) -> (width: usize)
    ensures
        width == widened(current as nat, len as nat),
{
    if current < len {
        len
    } else {
        current
    }
}

/// The widest module name seen so far, shared by every thread that formats
/// records. The width only ever grows.
///
/// The widest length lives in a cell that every thread may raise; what the
/// cell holds is not visible to a proof. The width that the tracker started
/// at is kept beside it as a plain value, and no result is below it.
pub struct ModuleWidth {
    start: usize,
    widest: AtomicUsize,
}

impl ModuleWidth {
    /// The width that the tracker started at.
    pub closed spec fn start(&self) -> nat {
        self.start as nat
    }

    /// A tracker that has seen no name yet; it starts at
    /// `DEFAULT_MODULE_WIDTH`.
    pub fn new() -> (tracker: Self)
        ensures
            tracker.start() == DEFAULT_MODULE_WIDTH,
    {
        ModuleWidth {
            start: DEFAULT_MODULE_WIDTH,
            widest: AtomicUsize::new(DEFAULT_MODULE_WIDTH),
        }
    }

    /// Raises the stored width to `len` where it is below, in one atomic
    /// step, and returns the width that is stored after the step: the larger
    /// of what was stored before and `len`.
    fn raise(&self, len: usize) -> (raised: usize)
        ensures
            raised >= len,
    {
        let seen: usize = self.widest.fetch_max(len, std::sync::atomic::Ordering::AcqRel);
        wider(seen, len)
    }

    /// Records that `name` is about to be shown and returns the width to
    /// pad it to.
    ///
    /// The stored maximum is raised in one atomic step, so no update of
    /// another thread is lost. What the cell held is not visible to the
    /// proof: the result is the widening of some width `seen` by the name's
    /// length in bytes, and by the start of the tracker, so that the lower
    /// bound holds by proof and does not rest on what the cell held.
    pub fn observe(&self, name: &str) -> (width: usize)
        ensures
            exists|seen: nat| width == #[trigger] observed(self.start(), seen, name@),
            width >= byte_len(name@),
            width >= self.start(),
    {
        let len: usize = name.as_bytes().len();
        let raised: usize = self.raise(len);
        let width = wider(raised, self.start);
        assert(width == observed(self.start(), raised as nat, name@));
        width
    }
}

/// Looks up the width of the module column for `target` and widens the
/// column where the name is longer than all before it.
pub fn max_module_width(tracker: &ModuleWidth, target: &str) -> (width: usize)
    ensures
        exists|seen: nat| width == #[trigger] observed(tracker.start(), seen, target@),
        width >= byte_len(target@),
        width >= tracker.start(),
{
    tracker.observe(target)
}

/// A tracker whose cell holds the width after the names seen so far, as it
/// does where no other thread steps in, returns the width after one name
/// more: a run of observations is a run of widenings from the start.
pub proof fn lemma_observed_is_one_step(start: nat, names: Seq<Seq<char>>, name: Seq<char>)
    ensures
        width_after(start, names) >= start,
        observed(start, width_after(start, names), name) == width_after(start, names.push(name)),
{
    lemma_width_is_maximum(start, names);
    assert(names.push(name).drop_last() =~= names);
}

/// After any run of observations the width is the start or the length of
/// one of the names seen, and none of them exceeds it: it is their maximum.
pub proof fn lemma_width_is_maximum(start: nat, names: Seq<Seq<char>>)
    ensures
        width_after(start, names) >= start,
        forall|i: int| 0 <= i < names.len() ==> width_after(start, names) >= byte_len(names[i]),
        width_after(start, names) == start || exists|i: int|
            0 <= i < names.len() && width_after(start, names) == byte_len(names[i]),
    decreases names.len(),
{
    if names.len() > 0 {
        let before = names.drop_last();
        lemma_width_is_maximum(start, before);
        let w = width_after(start, before);
        assert forall|i: int| 0 <= i < names.len() implies width_after(start, names) >= byte_len(
            names[i],
        ) by {
            if i < before.len() {
                assert(before[i] == names[i]);
            }
        }
        if w < byte_len(names.last()) {
            assert(width_after(start, names) == byte_len(names[names.len() - 1]));
        } else if w != start {
            let i = choose|i: int| 0 <= i < before.len() && w == byte_len(before[i]);
            assert(width_after(start, names) == byte_len(names[i]));
        }
    }
}

/// The width never shrinks: what is returned after more observations is at
/// least what was returned after fewer.
pub proof fn lemma_width_never_shrinks(start: nat, names: Seq<Seq<char>>, earlier: int, later: int)
    requires
        0 <= earlier <= later <= names.len(),
    ensures
        width_after(start, names.take(earlier)) <= width_after(start, names.take(later)),
    decreases later - earlier,
{
    if earlier < later {
        lemma_width_never_shrinks(start, names, earlier, later - 1);
        assert(names.take(later).drop_last() =~= names.take(later - 1));
    }
}

} // verus!
