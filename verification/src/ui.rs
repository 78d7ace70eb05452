//! Tab-selection cursor for the display layer, and a small helper for
//! breaking a duration in seconds into days / hours / minutes / seconds.
use vstd::prelude::*;

verus! {

/// Number of tabs the display layer cycles through.
pub const TAB_COUNT: usize = 3;

/// Cursor over the display tabs; the input loop moves it left and right,
/// the render loop only reads it.
pub struct TabsState {
    pub index: usize,
}

impl TabsState {
    /// A tab cursor is meaningful only while it points at one of the tabs.
    pub open spec fn wf(&self) -> bool {
        self.index < TAB_COUNT
    }

    pub fn new() -> (s: TabsState)
        ensures
            s.index == 0,
            s.wf(),
    {
        TabsState { index: 0 }
    }

    /// Move to the next tab, wrapping around after the last one.
    pub fn next(&mut self)
        requires
            old(self).wf(),
        ensures
            final(self).index == (old(self).index + 1) % (TAB_COUNT as int),
            final(self).wf(),
    {
        self.index = (self.index + 1) % TAB_COUNT;
    }

    /// Move to the previous tab, wrapping around before the first one.
    pub fn previous(&mut self)
        requires
            old(self).wf(),
        ensures
            final(self).index == if old(self).index > 0 {
                (old(self).index - 1) as int
            } else {
                TAB_COUNT - 1
            },
            final(self).wf(),
    {
        if self.index > 0 {
            self.index -= 1;
        } else {
            self.index = TAB_COUNT - 1;
        }
    }
}

impl Default for TabsState {
    fn default() -> (s: Self)
        ensures
            s.index == 0,
            s.wf(),
    {
        Self::new()
    }
}

/// Break a duration in seconds into whole days, hours, minutes and
/// leftover seconds.
pub fn splitTime(time: u64) -> (r: (u64, u64, u64, u64))
    ensures
        r.0 == time / 86400,
        r.1 < 24 && r.2 < 60 && r.3 < 60,
        r.0 * 86400 + r.1 * 3600 + r.2 * 60 + r.3 == time,
{
    let days = time / 86400;
    let rem = time % 86400;
    let hours = rem / 3600;
    let rem = rem % 3600;
    let minutes = rem / 60;
    let secs = rem % 60;
    (days, hours, minutes, secs)
}

} // verus!
