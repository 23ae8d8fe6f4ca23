use vstd::prelude::*;

verus! {

/// Issues process-wide monotonically increasing identifiers: one stream for
/// window instances, one for viewport-recreation generations.
///
/// Window labels and base-viewport labels are derived from the window
/// stream; recreated-viewport labels from the recreation stream, which is
/// global across all windows. Strict growth of each stream is what makes
/// every derived label unique. The host process serialises access to the
/// single allocator value — commands may race on allocation ahead of
/// serialised execution, so the host shell must guard it with a lock or
/// atomic — and each call then observes the state its contract speaks of.
pub struct IdentifierAllocator {
    pub window_counter: u32,
    pub recreation_counter: u32,
}

impl IdentifierAllocator {
    /// A fresh allocator: both streams start at zero.
    pub fn new() -> (r: IdentifierAllocator)
        ensures
            r.window_counter == 0,
            r.recreation_counter == 0,
    {
        IdentifierAllocator { window_counter: 0, recreation_counter: 0 }
    }

    /// Mint the next window-instance id: returns the current counter and
    /// steps it, so no two calls ever observe the same value.
    pub fn next_window_id(&mut self) -> (id: u32)
        requires
            old(self).window_counter < u32::MAX,
        ensures
            id == old(self).window_counter,
            final(self).window_counter == old(self).window_counter + 1,
            final(self).recreation_counter == old(self).recreation_counter,
    {
        let id = self.window_counter;
        self.window_counter = self.window_counter + 1;
        id
    }

    /// Mint the next viewport-recreation generation: returns the current
    /// counter and steps it, so generations grow strictly across the
    /// whole process, whichever window asks.
    pub fn next_recreation_id(&mut self) -> (id: u32)
        requires
            old(self).recreation_counter < u32::MAX,
        ensures
            id == old(self).recreation_counter,
            final(self).recreation_counter == old(self).recreation_counter + 1,
            final(self).window_counter == old(self).window_counter,
    {
        let id = self.recreation_counter;
        self.recreation_counter = self.recreation_counter + 1;
        id
    }
}

} // verus!
