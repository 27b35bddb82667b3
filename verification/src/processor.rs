//! The per-line pipeline: a fixed-lookback window of the most recent raw
//! lines, and the stream processor that asks the timer for a reading, keeps
//! the window current, and offers every timestamped line to the top-K
//! retention structure together with a snapshot of its surrounding lines.

use crate::maximals::{spec_insert, Maximals, Ranked};
use crate::stamp::{stamp_le, Stamp};
use crate::timer::Timer;
use std::collections::VecDeque;
use vstd::prelude::*;

verus! {

/// A retained delay: the stamp that ranked it, plus a snapshot of the lines
/// around the line that produced it. The snapshot is a copy, not a live
/// reference: it survives while the window keeps moving.
#[derive(Debug)]
pub struct Entry {
    pub stamp: Stamp,
    pub lines: Vec<String>,
}

/// Entries rank by their stamp alone; the context lines ride along. Two
/// entries of equal stamp therefore tie, and the more recent arrival sorts
/// first in a `Maximals`.
impl Ranked for Entry {
    open spec fn le_rank(&self, other: &Self) -> bool {
        stamp_le(self.stamp, other.stamp)
    }

    proof fn lemma_rank_total(a: &Self, b: &Self) {
    }

    proof fn lemma_rank_trans(a: &Self, b: &Self, c: &Self) {
    }

    fn rank_gt(&self, other: &Self) -> (r: bool) {
        self.stamp.rank_gt(&other.stamp)
    }
}

/// The lines of the old window that survive the arrival of one more line:
/// all of them while the window still has room, and all but the oldest once
/// it holds `lookback + 1` lines.
pub open spec fn window_shift(w: Seq<String>, lookback: int) -> Seq<String> {
    if w.len() > lookback {
        w.drop_first()
    } else {
        w
    }
}

/// Top-K retention of stamps with their context: a `Maximals` of entries
/// beside the lookback window the context snapshots are drawn from.
pub struct MaximalsStampsBuffer {
    max: Maximals<Entry>,
    lines: VecDeque<String>,
    lines_count: usize,
}

impl MaximalsStampsBuffer {
    /// The lookback window, oldest line first; the line most recently seen
    /// is the last.
    pub closed spec fn window(&self) -> Seq<String> {
        self.lines@
    }

    /// The retained entries, largest delay first.
    pub closed spec fn retained(&self) -> Seq<Entry> {
        self.max@
    }

    /// How many entries can be retained.
    pub closed spec fn capacity(&self) -> int {
        self.max.capacity()
    }

    /// How many lines before the current one the window keeps.
    pub closed spec fn lookback(&self) -> int {
        self.lines_count as int
    }

    pub open spec fn wf(&self) -> bool {
        &&& crate::maximals::sorted_desc(self.retained())
        &&& self.retained().len() <= self.capacity()
        &&& self.window().len() <= self.lookback() + 1
    }

    /// An empty buffer: retention capacity `count`, window capacity `c + 1`
    /// lines (the current line plus `c` lines of lookback).
    pub fn new(count: usize, c: usize) -> (r: MaximalsStampsBuffer)
        ensures
            r.wf(),
            r.retained() == Seq::<Entry>::empty(),
            r.window() == Seq::<String>::empty(),
            r.capacity() == count,
            r.lookback() == c,
    {
        MaximalsStampsBuffer {
            max: Maximals::new(count),
            lines: VecDeque::with_capacity(c),
            lines_count: c,
        }
    }

    /// Make a line the newest in the window, evicting the oldest line if the
    /// window was full. Every incoming line passes through here, whether or
    /// not it yields a stamp.
    pub fn push_line(&mut self, line: &str)
        requires
            old(self).wf(),
        ensures
            final(self).wf(),
            final(self).capacity() == old(self).capacity(),
            final(self).lookback() == old(self).lookback(),
            final(self).retained() == old(self).retained(),
            final(self).window().len() == window_shift(
                old(self).window(),
                old(self).lookback(),
            ).len() + 1,
            final(self).window().drop_last() == window_shift(
                old(self).window(),
                old(self).lookback(),
            ),
            final(self).window().last()@ == line@,
    {
        let ghost w = self.lines@;
        self.lines.push_back(line.to_owned());
        if self.lines.len() - 1 > self.lines_count {
            self.lines.pop_front();
            proof {
                assert(self.lines@.drop_last() =~= w.drop_first());
            }
        } else {
            proof {
                assert(self.lines@.drop_last() =~= w);
            }
        }
    }

    /// Offer a stamp to the retention structure, its context being the
    /// window as it stands (the line that produced the stamp plus up to
    /// `lookback` lines before it). The snapshot is attached to the entry
    /// before insertion, so the stored entry is complete at once.
    pub fn insert(&mut self, stamp: Stamp)
        requires
            old(self).wf(),
        ensures
            final(self).wf(),
            final(self).capacity() == old(self).capacity(),
            final(self).lookback() == old(self).lookback(),
            final(self).window() == old(self).window(),
            exists|e: Entry|
                e.stamp == stamp && e.lines@ == old(self).window() && final(self).retained()
                    == spec_insert(old(self).retained(), old(self).capacity(), e),
    {
        let snap = self.snapshot_lines();
        let e = Entry { stamp, lines: snap };
        let ghost witness = e;
        let _ = self.max.insert(e);
        proof {
            assert(witness.stamp == stamp && witness.lines@ == old(self).window()
                && self.retained() == spec_insert(
                old(self).retained(),
                old(self).capacity(),
                witness,
            ));
        }
    }

    /// A copy of the window's lines, oldest first.
    fn snapshot_lines(&self) -> (r: Vec<String>)
        ensures
            r@ == self.window(),
    {
        let mut v: Vec<String> = Vec::new();
        let mut i: usize = 0;
        while i < self.lines.len()
            invariant
                i <= self.lines@.len(),
                v@ =~= self.lines@.subrange(0, i as int),
            decreases self.lines@.len() - i,
        {
            v.push(self.lines[i].clone());
            i = i + 1;
        }
        proof {
            assert(v@ =~= self.lines@);
        }
        v
    }

    /// The retained entries, largest delay first, for rendering.
    pub fn entries(&self) -> (r: &VecDeque<Entry>)
        ensures
            r@ == self.retained(),
    {
        self.max.iter()
    }
}

/// The stream processor: drives the timer, the window and the retention
/// structure once per incoming line. Which timer strategy is behind `T` is
/// of no concern here.
pub struct Handler<T: Timer> {
    timer: T,
    max: MaximalsStampsBuffer,
}

impl<T: Timer> Handler<T> {
    /// The timer's state.
    pub closed spec fn timer(&self) -> T {
        self.timer
    }

    /// The buffer's state: window, retained entries, and their bounds.
    pub closed spec fn buf(&self) -> MaximalsStampsBuffer {
        self.max
    }

    pub open spec fn wf(&self) -> bool {
        &&& self.timer().wf()
        &&& self.buf().wf()
    }

    /// A processor over a fresh stream: retention capacity `count`, lookback
    /// `lines_before`, measuring with `timer`.
    pub fn new(timer: T, count: usize, lines_before: usize) -> (r: Handler<T>)
        requires
            timer.wf(),
        ensures
            r.wf(),
            r.timer() == timer,
            r.buf().retained() == Seq::<Entry>::empty(),
            r.buf().window() == Seq::<String>::empty(),
            r.buf().capacity() == count,
            r.buf().lookback() == lines_before,
    {
        Handler { timer, max: MaximalsStampsBuffer::new(count, lines_before) }
    }

    /// One incoming line: ask the timer for a reading, give the line its
    /// window slot (stamped or not), and offer the stamp with the window
    /// snapshot to the retention structure when there is one. The stamp is
    /// returned so the caller can display it; the line itself is the
    /// caller's to relay.
    pub fn process_line(&mut self, line: &str) -> (r: Option<Stamp>)
        requires
            old(self).wf(),
        ensures
            final(self).wf(),
            final(self).buf().capacity() == old(self).buf().capacity(),
            final(self).buf().lookback() == old(self).buf().lookback(),
            final(self).buf().window().len() == window_shift(
                old(self).buf().window(),
                old(self).buf().lookback(),
            ).len() + 1,
            final(self).buf().window().drop_last() == window_shift(
                old(self).buf().window(),
                old(self).buf().lookback(),
            ),
            final(self).buf().window().last()@ == line@,
            r is None ==> final(self).buf().retained() == old(self).buf().retained()
                && final(self).timer() == old(self).timer(),
            r matches Some(st) ==> st.wf() && exists|e: Entry|
                e.stamp == st && e.lines@ == final(self).buf().window()
                    && final(self).buf().retained() == spec_insert(
                    old(self).buf().retained(),
                    old(self).buf().capacity(),
                    e,
                ),
    {
        let r = self.timer.stamp(line);
        self.max.push_line(line);
        if let Some(st) = r {
            self.max.insert(st);
        }
        r
    }

    /// The retained entries, largest delay first, for the final report.
    pub fn entries(&self) -> (r: &VecDeque<Entry>)
        ensures
            r@ == self.buf().retained(),
    {
        self.max.entries()
    }
}

} // verus!

