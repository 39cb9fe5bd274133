use vstd::prelude::*;
use crate::laws::law_wraparound;

verus! {

/// The modulus of the 32-bit pulse counter.
pub open spec fn counter_modulus() -> int {
    0x1_0000_0000
}

/// The value of a counter that started at `start` after `edges` increments,
/// each of which adds one and wraps to zero past `u32::MAX`.
pub open spec fn count_after(start: u32, edges: nat) -> u32
    decreases edges,
{
    if edges == 0 {
        start
    } else {
        let prev = count_after(start, (edges - 1) as nat);
        if prev == u32::MAX {
            0
        } else {
            (prev + 1) as u32
        }
    }
}

/// The number of qualifying edges seen on the sensor input, as a ring of
/// 32-bit values.
#[derive(Clone, Copy, Debug, PartialEq, Eq, Structural)]
pub struct PulseCounter {
    pub count: u32,
}

impl PulseCounter {
    /// A counter that starts at `initial`.
    pub fn new(initial: u32) -> (r: PulseCounter)
        ensures
            r.count == initial,
    {
        PulseCounter { count: initial }
    }

    /// The current value of the counter.
    pub fn value(&self) -> (r: u32)
        ensures
            r == self.count,
    {
        self.count
    }

    /// Records one edge: adds one, wrapping on overflow.
    pub fn on_edge(&mut self)
        ensures
            final(self).count == count_after(old(self).count, 1),
            final(self).count as int == (old(self).count as int + 1) % counter_modulus(),
    {
        self.count = self.count.wrapping_add(1);
        proof {
            reveal_with_fuel(count_after, 2);
        }
    }

    /// Records `edges` edges, one at a time.
    pub fn on_edges(&mut self, edges: u64)
        ensures
            final(self).count == count_after(old(self).count, edges as nat),
            final(self).count as int == (old(self).count as int + edges) % counter_modulus(),
    {
        let ghost start = self.count;
        let mut i: u64 = 0;
        while i < edges
            invariant
                i <= edges,
                self.count == count_after(start, i as nat),
            decreases edges - i,
        {
            self.on_edge();
            proof {
                assert(count_after(start, (i + 1) as nat) == count_after(start, 1 + i as nat));
            }
            i = i + 1;
        }
        proof {
            law_wraparound(start, edges as nat);
        }
    }
}

} // verus!
