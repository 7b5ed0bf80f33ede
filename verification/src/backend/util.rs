//! Resolving range expressions against the length of an object.

use core::ops::Sub;
use vstd::prelude::*;
use vstd::std_specs::ops::SubSpec;

verus! {

/// Anything with a length that a range expression can be resolved against.
pub trait Lengthed {
    /// The length as contracts see it.
    spec fn length(&self) -> usize;

    fn len(&self) -> (n: usize)
        ensures
            n == self.length(),
    ;
}

impl<T> Lengthed for &[T] {
    open spec fn length(&self) -> usize {
        self@.len() as usize
    }

    fn len(&self) -> (n: usize) {
        <[T]>::len(self)
    }
}

impl<T, const N: usize> Lengthed for [T; N] {
    open spec fn length(&self) -> usize {
        N
    }

    fn len(&self) -> (n: usize) {
        N
    }
}

impl<T> Lengthed for Vec<T> {
    open spec fn length(&self) -> usize {
        self@.len() as usize
    }

    fn len(&self) -> (n: usize) {
        Vec::len(self)
    }
}

/// One end of a range expression.
#[derive(Copy, Clone, Debug, Hash, PartialEq, Eq)]
pub enum Bound {
    /// The range reaches this index and holds it.
    Included(usize),
    /// The range reaches this index and leaves it out.
    Excluded(usize),
    /// The range is open on this side.
    Unbounded,
}

impl Bound {
    /// The first index a range starts at when this is its lower bound.
    pub open spec fn lower(self) -> int {
        match self {
            Bound::Included(a) => a as int,
            Bound::Excluded(a) => a + 1,
            Bound::Unbounded => 0,
        }
    }

    /// One past the last index of a range over `len` items when this is its
    /// upper bound.
    pub open spec fn upper(self, len: int) -> int {
        match self {
            Bound::Included(b) => b + 1,
            Bound::Excluded(b) => b as int,
            Bound::Unbounded => len,
        }
    }
}

/// A range expression: a lower and an upper bound, either of which may be
/// open.
#[derive(Copy, Clone, Debug, Hash, PartialEq, Eq)]
pub struct Bounds {
    pub start: Bound,
    pub end: Bound,
}

impl Bounds {
    /// Where the window of this range over `len` items starts: at the lower
    /// bound, or at `len` if the lower bound lies beyond it.
    pub open spec fn window_start(self, len: int) -> int {
        if self.start.lower() <= len {
            self.start.lower()
        } else {
            len
        }
    }

    /// Where the window of this range over `len` items ends: at the upper
    /// bound, but neither beyond `len` nor before the window's start.
    pub open spec fn window_end(self, len: int) -> int {
        let upper = if self.end.upper(len) <= len {
            self.end.upper(len)
        } else {
            len
        };
        if upper >= self.window_start(len) {
            upper
        } else {
            self.window_start(len)
        }
    }

    /// Whether the upper bound leaves out index zero, so that the range is
    /// empty whatever it is resolved against.
    pub open spec fn ends_before_zero(self) -> bool {
        self.end == Bound::Excluded(0)
    }

    /// The range with the given bounds.
    pub fn new(start: Bound, end: Bound) -> (b: Bounds)
        ensures
            b.start == start,
            b.end == end,
    {
        Bounds { start, end }
    }

    /// The range `..`, open on both sides.
    pub fn full() -> (b: Bounds)
        ensures
            b.start == Bound::Unbounded,
            b.end == Bound::Unbounded,
    {
        Bounds { start: Bound::Unbounded, end: Bound::Unbounded }
    }

    /// The range `start..end`.
    pub fn half_open(start: usize, end: usize) -> (b: Bounds)
        ensures
            b.start == Bound::Included(start),
            b.end == Bound::Excluded(end),
    {
        Bounds { start: Bound::Included(start), end: Bound::Excluded(end) }
    }

    /// Tells whether the upper bound leaves out index zero. Such a range is
    /// empty before any length is looked at, which callers report as a
    /// mistake in the range.
    pub fn excludes_zero(&self) -> (r: bool)
        ensures
            r == self.ends_before_zero(),
    {
        match self.end {
            Bound::Excluded(b) => b == 0,
            _ => false,
        }
    }
}

/// A range resolved to the window `[start, end)`.
#[derive(Debug, Hash, PartialEq, Eq)]
pub struct MaterializedBound<T: Copy> {
    start: T,
    end: T,
}

impl<T: Copy> Clone for MaterializedBound<T> {
    fn clone(&self) -> (m: Self)
        ensures
            m == *self,
    {
        *self
    }
}

impl<T: Copy> Copy for MaterializedBound<T> {

}

impl<T: Copy> View for MaterializedBound<T> {
    type V = (T, T);

    closed spec fn view(&self) -> (T, T) {
        (self.start, self.end)
    }
}

impl<T: Copy> MaterializedBound<T> {
    pub fn start(&self) -> (s: T)
        ensures
            s == self@.0,
    {
        self.start
    }

    pub fn end(&self) -> (e: T)
        ensures
            e == self@.1,
    {
        self.end
    }

    /// The number of items in the window.
    pub fn len(&self) -> (n: T) where T: Sub<T, Output = T>
        requires
            self@.1.sub_req(self@.0),
        ensures
            T::obeys_sub_spec() ==> n == self@.1.sub_spec(self@.0),
    {
        self.end - self.start
    }
}

impl MaterializedBound<usize> {
    /// The window as a range expression: from `start`, which it includes, up
    /// to `end`, which it leaves out.
    pub open spec fn as_bounds(self) -> Bounds {
        Bounds { start: Bound::Included(self@.0), end: Bound::Excluded(self@.1) }
    }

    /// The lower bound of the window as a range expression.
    pub fn start_bound(&self) -> (b: Bound)
        ensures
            b == self.as_bounds().start,
    {
        Bound::Included(self.start)
    }

    /// The upper bound of the window as a range expression.
    pub fn end_bound(&self) -> (b: Bound)
        ensures
            b == self.as_bounds().end,
    {
        Bound::Excluded(self.end)
    }

    /// The window as a range expression.
    pub fn bounds(&self) -> (b: Bounds)
        ensures
            b == self.as_bounds(),
    {
        Bounds { start: Bound::Included(self.start), end: Bound::Excluded(self.end) }
    }
}

/// Resolves the range `b` against the length of `a`.
///
/// The window starts at the lower bound and ends at the upper bound, both
/// taken as Rust ranges take them, and is cut to fit: neither end lies beyond
/// the length, and a range whose upper bound lies before its lower bound
/// gives the empty window at its start.
pub fn materialize(b: Bounds, a: &impl Lengthed) -> (m: MaterializedBound<usize>)
    ensures
        m@.0 == b.window_start(a.length() as int),
        m@.1 == b.window_end(a.length() as int),
        m@.0 <= m@.1 <= a.length(),
{
    let len: usize = a.len();
    let start: usize = match b.start {
        Bound::Included(a) => if a <= len { a } else { len },
        Bound::Excluded(a) => if a < len { a + 1 } else { len },
        Bound::Unbounded => 0,
    };
    let upper: usize = match b.end {
        Bound::Included(b) => if b < len { b + 1 } else { len },
        Bound::Excluded(b) => if b <= len { b } else { len },
        Bound::Unbounded => len,
    };
    let end: usize = if upper >= start { upper } else { start };
    MaterializedBound { start, end }
}

/// The window of a range lies within the object: it starts no later than it
/// ends, and ends no later than the object does.
pub proof fn lemma_window_within(b: Bounds, len: usize)
    ensures
        0 <= b.window_start(len as int) <= b.window_end(len as int) <= len,
{
}

/// A range that is a window of the object already is resolved to itself:
/// for `start <= end <= len`, the range `start..end` over `len` items has the
/// window `[start, end)`.
pub proof fn lemma_concrete_range_is_kept(start: usize, end: usize, len: usize)
    requires
        start <= end <= len,
    ensures
        (Bounds { start: Bound::Included(start), end: Bound::Excluded(end) }).window_start(
            len as int,
        ) == start,
        (Bounds { start: Bound::Included(start), end: Bound::Excluded(end) }).window_end(
            len as int,
        ) == end,
{
}

/// Resolving is idempotent: the window of any range, taken as a range and
/// resolved against the same length, is that window again.
pub proof fn lemma_materialize_idempotent(b: Bounds, len: usize)
    ensures
        ({
            let start = b.window_start(len as int) as usize;
            let end = b.window_end(len as int) as usize;
            let again = Bounds { start: Bound::Included(start), end: Bound::Excluded(end) };
            &&& again.window_start(len as int) == b.window_start(len as int)
            &&& again.window_end(len as int) == b.window_end(len as int)
        }),
{
}

/// The full range covers the object, and a range whose upper bound leaves
/// out index zero has the empty window.
pub proof fn lemma_full_and_empty(b: Bounds, len: usize)
    ensures
        (Bounds { start: Bound::Unbounded, end: Bound::Unbounded }).window_start(len as int) == 0,
        (Bounds { start: Bound::Unbounded, end: Bound::Unbounded }).window_end(len as int) == len,
        b.ends_before_zero() ==> b.window_start(len as int) == b.window_end(len as int),
{
}

} // verus!
