//! Port selection: scan a closed range of loopback ports in ascending
//! order and take the first one that is free.
//!
//! Probing a port (trying to bind it) is left to the caller; the
//! library decides which port to probe next and which one to select.
//! [`PortScan`] drives that loop one step at a time, and
//! [`find_open_port_in_range`] states the allocator's contract over a
//! snapshot of the whole range's availability: the lowest free port in
//! the range is selected, and a bound port never is.

use vstd::prelude::*;

verus! {

/// First port of the default probe range.
pub const PORT_RANGE_START: u16 = 9899;

/// Last port of the default probe range.
pub const PORT_RANGE_END: u16 = 10199;

/// The state of an ascending scan over the closed port range
/// `[start, end]`.  `next` is the first port not yet ruled out; it is
/// held as `u32` so that a fully exhausted range (`next == end + 1`)
/// is representable even when `end` is the largest port number.
pub struct PortScan {
    start: u16,
    end: u16,
    next: u32,
}

impl PortScan {
    /// The scan never leaves this state space.
    pub closed spec fn wf(self) -> bool {
        &&& self.start <= self.end
        &&& self.start <= self.next <= self.end + 1
    }

    pub closed spec fn spec_start(self) -> u16 {
        self.start
    }

    pub closed spec fn spec_end(self) -> u16 {
        self.end
    }

    /// The first port of the range not yet ruled out.
    pub closed spec fn spec_next(self) -> u32 {
        self.next
    }

    /// Starts a scan that will probe `start`, then `start + 1`, and so
    /// on up to `end`.
    pub fn new(start: u16, end: u16) -> (s: Self)
        requires
            start <= end,
        ensures
            s.wf(),
            s.spec_start() == start,
            s.spec_end() == end,
            s.spec_next() == start,
    {
        PortScan { start, end, next: start as u32 }
    }

    /// The port to probe next, or `None` once every port in the range
    /// has been ruled out.
    pub fn candidate(&self) -> (r: Option<u16>)
        requires
            self.wf(),
        ensures
            r matches Some(p) ==> p == self.spec_next() && self.spec_start() <= p
                <= self.spec_end(),
            r is None <==> self.spec_next() > self.spec_end(),
    {
        if self.next <= self.end as u32 {
            Some(self.next as u16)
        } else {
            None
        }
    }

    /// Records that the current candidate port was found bound, ruling
    /// it out and moving the scan to the next port.
    pub fn mark_bound(&mut self)
        requires
            old(self).wf(),
            old(self).spec_next() <= old(self).spec_end(),
        ensures
            final(self).wf(),
            final(self).spec_start() == old(self).spec_start(),
            final(self).spec_end() == old(self).spec_end(),
            final(self).spec_next() == old(self).spec_next() + 1,
    {
        self.next = self.next + 1;
    }
}

/// Selects the port the allocator must return for the closed range
/// `[start, end]`, given a snapshot of which ports in it are free:
/// `free[i]` tells whether port `start + i` could be bound.
///
/// The lowest free port of the range is returned; a port that is bound
/// in the snapshot is never returned; `None` is returned exactly when
/// the whole range is bound.
pub fn find_open_port_in_range(start: u16, end: u16, free: &Vec<bool>) -> (r: Option<u16>)
    requires
        start <= end,
        free@.len() == end - start + 1,
    ensures
        r matches Some(p) ==> {
            &&& start <= p <= end
            &&& free@[p - start]
            &&& forall|i: int| 0 <= i < p - start ==> !free@[i]
        },
        r is None <==> (forall|i: int| 0 <= i < free@.len() ==> !free@[i]),
{
    let mut scan = PortScan::new(start, end);
    loop
        invariant
            scan.wf(),
            scan.spec_start() == start,
            scan.spec_end() == end,
            start <= end,
            free@.len() == end - start + 1,
            forall|i: int| 0 <= i < scan.spec_next() - start ==> !free@[i],
        decreases end + 1 - scan.spec_next(),
    {
        match scan.candidate() {
            Some(p) => {
                if free[(p - start) as usize] {
                    return Some(p);
                }
                scan.mark_bound();
            },
            None => {
                return None;
            },
        }
    }
}

} // verus!
