use vstd::prelude::*;

use crate::text::{contains_seq, contains_text};

verus! {

/// The text that the worker prints on its standard output once it is ready
/// to serve.
pub open spec fn ready_marker() -> Seq<char> {
    "STATUS: SERVER_STARTED"@
}

/// The readiness marker, for executable code.
pub fn ready_marker_text() -> (r: &'static str)
    ensures
        r@ == ready_marker(),
{
    "STATUS: SERVER_STARTED"
}

/// A line of standard output that announces readiness.
pub open spec fn is_marker_line(line: Seq<char>) -> bool {
    contains_seq(line, ready_marker())
}

/// The readiness state after `lines` were observed from state `initial`.
pub open spec fn ready_after(initial: bool, lines: Seq<Seq<char>>) -> bool
    decreases lines.len(),
{
    if lines.len() == 0 {
        initial
    } else {
        ready_after(initial, lines.drop_last()) || is_marker_line(lines.last())
    }
}

/// The views of a list of strings.
pub open spec fn views_of(lines: Seq<String>) -> Seq<Seq<char>> {
    lines.map_values(|s: String| s@)
}

/// Scans standard-output lines for the readiness marker. Once ready, it stays
/// ready.
pub struct ReadinessDetector {
    pub ready: bool,
}

impl ReadinessDetector {
    /// A detector that has seen no line.
    pub fn new() -> (r: ReadinessDetector)
        ensures
            !r.ready,
    {
        ReadinessDetector { ready: false }
    }

    pub fn is_ready(&self) -> (r: bool)
        ensures
            r == self.ready,
    {
        self.ready
    }

    /// Observes one line; returns true exactly when this line is the first
    /// to announce readiness.
    pub fn observe(&mut self, line: &str) -> (became_ready: bool)
        ensures
            final(self).ready == (old(self).ready || is_marker_line(line@)),
            became_ready == (!old(self).ready && is_marker_line(line@)),
    {
        if self.ready {
            return false;
        }
        let seen = contains_text(line, ready_marker_text());
        self.ready = seen;
        seen
    }

    /// Observes `lines` in order; returns how many of them announced
    /// readiness for the first time (never more than one).
    pub fn observe_all(&mut self, lines: &Vec<String>) -> (events: usize)
        ensures
            final(self).ready == ready_after(old(self).ready, views_of(lines@)),
            events == (if !old(self).ready && final(self).ready { 1usize } else { 0usize }),
    {
        let ghost start = self.ready;
        let mut events: usize = 0;
        let mut i: usize = 0;
        while i < lines.len()
            invariant
                i <= lines@.len(),
                start ==> self.ready,
                self.ready == ready_after(start, views_of(lines@.subrange(0, i as int))),
                events == (if !start && self.ready { 1usize } else { 0usize }),
            decreases lines@.len() - i,
        {
            let line = &lines[i];
            proof {
                let pre = lines@.subrange(0, i as int);
                let next = lines@.subrange(0, i + 1);
                assert(views_of(next).drop_last() =~= views_of(pre));
                assert(views_of(next).last() == lines@[i as int]@);
            }
            if self.observe(line.as_str()) {
                events = events + 1;
            }
            i = i + 1;
        }
        assert(lines@.subrange(0, lines@.len() as int) =~= lines@);
        events
    }
}

/// Readiness after a sequence of lines holds exactly when one of them carries
/// the marker, for a detector that starts not ready.
pub proof fn lemma_ready_iff_marker_seen(lines: Seq<Seq<char>>)
    ensures
        ready_after(false, lines) <==> exists|k: int| 0 <= k < lines.len() && is_marker_line(#[trigger] lines[k]),
    decreases lines.len(),
{
    if lines.len() > 0 {
        let prev = lines.drop_last();
        lemma_ready_iff_marker_seen(prev);
        if ready_after(false, prev) {
            let k = choose|k: int| 0 <= k < prev.len() && is_marker_line(#[trigger] prev[k]);
            assert(lines[k] == prev[k]);
        }
        if exists|k: int| 0 <= k < lines.len() && is_marker_line(#[trigger] lines[k]) {
            let k = choose|k: int| 0 <= k < lines.len() && is_marker_line(#[trigger] lines[k]);
            if k < lines.len() - 1 {
                assert(prev[k] == lines[k]);
            }
        }
    }
}

/// Once ready, a detector stays ready whatever lines follow, duplicate
/// markers included.
pub proof fn lemma_ready_is_permanent(initial: bool, lines: Seq<Seq<char>>, more: Seq<Seq<char>>)
    requires
        ready_after(initial, lines),
    ensures
        ready_after(initial, lines + more),
    decreases more.len(),
{
    if more.len() > 0 {
        lemma_ready_is_permanent(initial, lines, more.drop_last());
        assert((lines + more).drop_last() =~= lines + more.drop_last());
    }
}

/// Feeding lines of which the first marker stands at index `k`: the detector
/// is not ready before line `k`, and ready after it and after every later line.
pub proof fn lemma_ready_from_first_marker(lines: Seq<Seq<char>>, k: int, j: int)
    requires
        0 <= k < lines.len(),
        is_marker_line(lines[k]),
        forall|i: int| 0 <= i < k ==> !is_marker_line(#[trigger] lines[i]),
        0 <= j <= lines.len(),
    ensures
        ready_after(false, lines.subrange(0, j)) == (j > k),
{
    let pre = lines.subrange(0, j);
    lemma_ready_iff_marker_seen(pre);
    if j > k {
        assert(pre[k] == lines[k]);
    } else {
        assert forall|i: int| 0 <= i < pre.len() implies !is_marker_line(#[trigger] pre[i]) by {
            assert(pre[i] == lines[i]);
        }
    }
}

} // verus!
