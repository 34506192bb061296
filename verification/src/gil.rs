//! The interpreter lock, modeled as the trace of critical sections it
//! grants. The lock is one per process and shared by every node instance;
//! everything that touches interpreter objects runs inside a granted
//! section, so the law here is the bridge's whole concurrency story:
//! granted sections never overlap.
use vstd::prelude::*;

verus! {

/// One critical section: a node instance held the interpreter lock from
/// `enter` to `exit`, measured on a single process-wide clock.
#[derive(Clone, Copy, PartialEq, Eq, Structural)]
pub struct GilSection {
    pub node: u64,
    pub enter: u64,
    pub exit: u64,
}

impl GilSection {
    /// A section ends no earlier than it begins.
    pub open spec fn wf(self) -> bool {
        self.enter <= self.exit
    }
}

/// Two sections overlap when some instant lies strictly inside both.
pub open spec fn overlap(a: GilSection, b: GilSection) -> bool {
    a.enter < b.exit && b.enter < a.exit
}

/// A trace of granted sections, in grant order: each section has ended by
/// the time the lock grants the next. This is what scoped acquisition of a
/// single mutual-exclusion lock yields, release being guaranteed on every
/// exit path.
pub open spec fn serialized(trace: Seq<GilSection>) -> bool {
    forall|i: int, j: int|
        0 <= i < j < trace.len() ==> (#[trigger] trace[i]).exit <= (#[trigger] trace[j]).enter
}

/// The single interpreter lock serializes all script execution in the
/// process: two distinct granted sections never overlap. In particular, two
/// concurrent `run` calls on two different node instances never execute
/// interpreter code at the same time.
pub proof fn lemma_lock_serializes(trace: Seq<GilSection>, i: int, j: int)
    requires
        serialized(trace),
        0 <= i < trace.len(),
        0 <= j < trace.len(),
        i != j,
        trace[i].wf(),
        trace[j].wf(),
    ensures
        !overlap(trace[i], trace[j]),
{
}

/// Checks a recorded trace for pairwise non-overlap, as an instrumented
/// script's entry and exit timestamps would be checked.
pub fn all_disjoint(trace: &Vec<GilSection>) -> (r: bool)
    ensures
        r == (forall|i: int, j: int|
            0 <= i < j < trace@.len() ==> !overlap(#[trigger] trace@[i], #[trigger] trace@[j])),
{
    let n = trace.len();
    let mut i: usize = 0;
    while i < n
        invariant
            n == trace@.len(),
            0 <= i <= n,
            forall|a: int, b: int|
                0 <= a < b < trace@.len() && a < i ==> !overlap(
                    #[trigger] trace@[a],
                    #[trigger] trace@[b],
                ),
        decreases n - i,
    {
        let mut j: usize = i + 1;
        while j < n
            invariant
                n == trace@.len(),
                0 <= i < j <= n,
                forall|a: int, b: int|
                    0 <= a < b < trace@.len() && a < i ==> !overlap(
                        #[trigger] trace@[a],
                        #[trigger] trace@[b],
                    ),
                forall|b: int| i < b < j ==> !overlap(trace@[i as int], #[trigger] trace@[b]),
            decreases n - j,
        {
            let a = trace[i];
            let b = trace[j];
            if a.enter < b.exit && b.enter < a.exit {
                return false;
            }
            j = j + 1;
        }
        i = i + 1;
    }
    true
}

} // verus!
