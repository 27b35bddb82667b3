//! Bounded top-K retention: a structure that keeps, under a stream of
//! arriving elements, the K highest-ranked elements seen so far, always fully
//! sorted, deciding each arrival with a binary search.

use std::collections::VecDeque;
use vstd::prelude::*;

verus! {

/// The capability an element needs in order to be retained by a `Maximals`:
/// a total preorder (total, transitive, but two distinct elements may share a
/// rank) together with an executable strict comparison.
pub trait Ranked: Sized {
    /// `self` ranks no higher than `other`.
    spec fn le_rank(&self, other: &Self) -> bool;

    /// Any two elements are comparable.
    proof fn lemma_rank_total(a: &Self, b: &Self)
        ensures
            a.le_rank(b) || b.le_rank(a),
    ;

    /// The rank order is transitive.
    proof fn lemma_rank_trans(a: &Self, b: &Self, c: &Self)
        requires
            a.le_rank(b),
            b.le_rank(c),
        ensures
            a.le_rank(c),
    ;

    /// `self` ranks strictly above `other`.
    fn rank_gt(&self, other: &Self) -> (r: bool)
        ensures
            r == !self.le_rank(other),
    ;
}

impl Ranked for u8 {
    open spec fn le_rank(&self, other: &Self) -> bool {
        *self <= *other
    }

    proof fn lemma_rank_total(a: &Self, b: &Self) {
    }

    proof fn lemma_rank_trans(a: &Self, b: &Self, c: &Self) {
    }

    fn rank_gt(&self, other: &Self) -> (r: bool) {
        *self > *other
    }
}

/// A small ranked value: ordered by `cmp` first and by `data` second, the
/// lexicographic order a pair of plain fields compares under.
#[derive(Clone, Copy, Debug, PartialEq, Eq, Structural)]
pub struct Keyed {
    pub cmp: u8,
    pub data: u8,
}

impl Ranked for Keyed {
    open spec fn le_rank(&self, other: &Self) -> bool {
        if self.cmp != other.cmp {
            self.cmp < other.cmp
        } else {
            self.data <= other.data
        }
    }

    proof fn lemma_rank_total(a: &Self, b: &Self) {
    }

    proof fn lemma_rank_trans(a: &Self, b: &Self, c: &Self) {
    }

    fn rank_gt(&self, other: &Self) -> (r: bool) {
        self.cmp > other.cmp || (self.cmp == other.cmp && self.data > other.data)
    }
}

/// The contents run from highest rank to lowest.
pub open spec fn sorted_desc<T: Ranked>(s: Seq<T>) -> bool {
    forall|i: int, j: int| 0 <= i <= j < s.len() ==> #[trigger] s[j].le_rank(&s[i])
}

/// The position a candidate takes among sorted contents: the first index
/// whose element does not rank strictly above the candidate. A candidate of
/// rank equal to a retained element therefore lands immediately before it,
/// so among equally ranked elements the most recent arrival sorts first.
pub open spec fn insert_pos<T: Ranked>(s: Seq<T>, e: T) -> int
    decreases s.len(),
{
    if s.len() == 0 {
        0
    } else if s[0].le_rank(&e) {
        0
    } else {
        1 + insert_pos(s.drop_first(), e)
    }
}

/// What the contents become when a candidate arrives: unchanged if the
/// candidate's position falls outside the capacity; otherwise the lowest
/// element is dropped if the structure is full, and the candidate takes its
/// position, shifting lower elements down.
pub open spec fn spec_insert<T: Ranked>(s: Seq<T>, count: int, e: T) -> Seq<T> {
    let p = insert_pos(s, e);
    if p >= count {
        s
    } else {
        let kept = if s.len() >= count {
            s.subrange(0, count - 1)
        } else {
            s
        };
        kept.insert(p, e)
    }
}

/// `insert_pos` is within bounds, everything before it ranks strictly above
/// the candidate, and the element at it (if any) does not.
pub proof fn lemma_insert_pos_bounds<T: Ranked>(s: Seq<T>, e: T)
    ensures
        0 <= insert_pos(s, e) <= s.len(),
        forall|j: int| 0 <= j < insert_pos(s, e) ==> !(#[trigger] s[j].le_rank(&e)),
        insert_pos(s, e) < s.len() ==> s[insert_pos(s, e)].le_rank(&e),
    decreases s.len(),
{
    if s.len() == 0 {
    } else if s[0].le_rank(&e) {
    } else {
        let rest = s.drop_first();
        lemma_insert_pos_bounds(rest, e);
        assert forall|j: int| 0 <= j < insert_pos(s, e) implies !(#[trigger] s[j].le_rank(&e)) by {
            if j > 0 {
                assert(s[j] == rest[j - 1]);
            }
        }
        if insert_pos(s, e) < s.len() {
            assert(s[insert_pos(s, e)] == rest[insert_pos(rest, e)]);
        }
    }
}

/// Any index with the three properties of `lemma_insert_pos_bounds` is
/// `insert_pos` itself: the position is uniquely determined.
pub proof fn lemma_insert_pos_unique<T: Ranked>(s: Seq<T>, e: T, p: int)
    requires
        0 <= p <= s.len(),
        forall|j: int| 0 <= j < p ==> !(#[trigger] s[j].le_rank(&e)),
        p < s.len() ==> s[p].le_rank(&e),
    ensures
        p == insert_pos(s, e),
    decreases s.len(),
{
    if s.len() == 0 {
    } else if p == 0 {
    } else {
        let rest = s.drop_first();
        assert(!s[0].le_rank(&e));
        assert forall|j: int| 0 <= j < p - 1 implies !(#[trigger] rest[j].le_rank(&e)) by {
            assert(rest[j] == s[j + 1]);
        }
        if p - 1 < rest.len() {
            assert(rest[p - 1] == s[p]);
        }
        lemma_insert_pos_unique(rest, e, p - 1);
    }
}

/// Retention keeps the contents sorted and within capacity.
pub proof fn lemma_spec_insert_wf<T: Ranked>(s: Seq<T>, count: int, e: T)
    requires
        sorted_desc(s),
        s.len() <= count,
    ensures
        sorted_desc(spec_insert(s, count, e)),
        spec_insert(s, count, e).len() <= count,
{
    lemma_insert_pos_bounds(s, e);
    let p = insert_pos(s, e);
    if p < count {
        let kept = if s.len() >= count {
            s.subrange(0, count - 1)
        } else {
            s
        };
        let r = kept.insert(p, e);
        kept.insert_ensures(p, e);
        assert forall|i: int, j: int| 0 <= i <= j < r.len() implies #[trigger] r[j].le_rank(
            &r[i],
        ) by {
            if j < p {
                assert(r[i] == s[i] && r[j] == s[j]);
            } else if j == p {
                if i < p {
                    assert(r[i] == s[i]);
                    assert(!s[i].le_rank(&e));
                    T::lemma_rank_total(&s[i], &e);
                } else {
                    T::lemma_rank_total(&e, &e);
                }
            } else {
                assert(r[j] == s[j - 1]);
                assert(s[p].le_rank(&e));
                if i < p {
                    assert(r[i] == s[i]);
                    assert(s[j - 1].le_rank(&s[i]));
                } else if i == p {
                    assert(s[j - 1].le_rank(&s[p]));
                    T::lemma_rank_trans(&s[j - 1], &s[p], &e);
                } else {
                    assert(r[i] == s[i - 1]);
                    assert(s[j - 1].le_rank(&s[i - 1]));
                }
            }
        }
    }
}

/// Once the structure is full with elements all ranked strictly above a
/// candidate, that candidate is turned away and the contents do not change.
pub proof fn lemma_full_rejects<T: Ranked>(s: Seq<T>, count: int, e: T)
    requires
        sorted_desc(s),
        s.len() == count,
        forall|i: int| 0 <= i < s.len() ==> !(#[trigger] s[i].le_rank(&e)),
    ensures
        insert_pos(s, e) >= count,
        spec_insert(s, count, e) == s,
{
    lemma_insert_pos_unique(s, e, s.len() as int);
}

/// Bounded top-K retention. Holds at most `count` elements, always sorted
/// from highest rank to lowest; each arriving element is retained at its
/// sorted position (evicting the lowest element when full) or rejected if
/// it does not rank inside the top `count`.
#[derive(Debug)]
pub struct Maximals<T: Ranked> {
    count: usize,
    data: VecDeque<T>,
}

impl<T: Ranked> View for Maximals<T> {
    type V = Seq<T>;

    closed spec fn view(&self) -> Seq<T> {
        self.data@
    }
}

impl<T: Ranked> Maximals<T> {
    /// The capacity the structure was created with.
    pub closed spec fn capacity(&self) -> int {
        self.count as int
    }

    /// The retained contents are sorted from highest rank to lowest and
    /// never exceed the capacity.
    pub open spec fn wf(&self) -> bool {
        &&& sorted_desc(self@)
        &&& self@.len() <= self.capacity()
    }

    /// An empty structure with the given capacity. A capacity of zero is
    /// legal and makes every insertion a rejection.
    pub fn new(count: usize) -> (r: Maximals<T>)
        ensures
            r.wf(),
            r@ == Seq::<T>::empty(),
            r.capacity() == count,
    {
        Maximals { count, data: VecDeque::with_capacity(count) }
    }

    /// The first index whose element does not rank strictly above the
    /// candidate, found by binary search over the sorted contents.
    fn position(&self, element: &T) -> (r: usize)
        requires
            self.wf(),
        ensures
            r == insert_pos(self@, *element),
    {
        let ghost s = self@;
        let mut lo: usize = 0;
        let mut hi: usize = self.data.len();
        while lo < hi
            invariant
                lo <= hi <= s.len(),
                s == self@,
                self.wf(),
                forall|j: int| 0 <= j < lo ==> !(#[trigger] s[j].le_rank(element)),
                forall|j: int| hi <= j < s.len() ==> #[trigger] s[j].le_rank(element),
            decreases hi - lo,
        {
            let mid = lo + (hi - lo) / 2;
            if self.data[mid].rank_gt(element) {
                lo = mid + 1;
                assert forall|j: int| 0 <= j < lo implies !(#[trigger] s[j].le_rank(element)) by {
                    if j < mid && s[j].le_rank(element) {
                        T::lemma_rank_trans(&s[mid as int], &s[j], element);
                    }
                }
            } else {
                assert forall|j: int| mid <= j < s.len() implies #[trigger] s[j].le_rank(
                    element,
                ) by {
                    if j > mid {
                        T::lemma_rank_trans(&s[j], &s[mid as int], element);
                    }
                }
                hi = mid;
            }
        }
        proof {
            lemma_insert_pos_unique(s, *element, lo as int);
        }
        lo
    }

    /// Offer an element. If it ranks inside the top `count` it is stored at
    /// its sorted position (the lowest element making room when the
    /// structure is full) and the position is returned; otherwise nothing
    /// changes and `None` signals the rejection.
    pub fn insert(&mut self, element: T) -> (r: Option<usize>)
        requires
            old(self).wf(),
        ensures
            final(self).wf(),
            final(self).capacity() == old(self).capacity(),
            final(self)@ == spec_insert(old(self)@, old(self).capacity(), element),
            match r {
                Some(i) => i == insert_pos(old(self)@, element) && i < old(self).capacity(),
                None => insert_pos(old(self)@, element) >= old(self).capacity() && final(self)@
                    == old(self)@,
            },
    {
        let ghost s = old(self)@;
        proof {
            lemma_insert_pos_bounds(s, element);
            lemma_spec_insert_wf(s, self.count as int, element);
        }
        let idx = self.position(&element);
        if idx < self.count {
            if self.data.len() >= self.count {
                self.data.pop_back();
                proof {
                    assert(self@ =~= s.subrange(0, self.count - 1));
                }
            }
            self.data.insert(idx, element);
            Some(idx)
        } else {
            None
        }
    }

    /// The current contents, highest rank first. The returned slice of state
    /// is read-only; callers may walk it as often as they like.
    pub fn iter(&self) -> (r: &VecDeque<T>)
        ensures
            r@ == self@,
    {
        &self.data
    }

    /// Forget all retained elements; the capacity stays.
    pub fn clear(&mut self)
        ensures
            final(self).wf(),
            final(self)@ == Seq::<T>::empty(),
            final(self).capacity() == old(self).capacity(),
    {
        self.data.clear();
    }
}

} // verus!

