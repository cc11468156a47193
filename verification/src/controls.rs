//! Input monitor decision logic: the selection cursor the two buttons
//! drive, and the event each hardware notification turns into. The
//! interrupt plumbing that delivers the notifications owns the pins and
//! lives outside the core.

use vstd::prelude::*;
use crate::event::DeviceEvent;

verus! {

/// Notification value the select button's interrupt raises.
pub const SELECT_NOTIFICATION: u32 = 1;

/// Notification value the confirm button's interrupt raises.
pub const ENTER_NOTIFICATION: u32 = 2;

/// Where the cursor moves on a select press: one step down, wrapping from
/// the last option back to the first.
pub open spec fn next_selection(s: u8) -> u8 {
    if s >= 3 {
        0
    } else {
        (s + 1) as u8
    }
}

/// The monitor's state: the current selection index, in `[0, 4)`.
pub struct Controls {
    pub selection: u8,
}

impl Controls {
    /// The selection index always stays on one of the four options.
    pub open spec fn wf(self) -> bool {
        self.selection < 4
    }

    /// Fresh monitor state, cursor on the first option.
    pub fn new() -> (c: Controls)
        ensures
            c.selection == 0,
    {
        Controls { selection: 0 }
    }

    /// The decision taken when a button notification arrives: a select
    /// press advances the cursor and reports the new index, a confirm
    /// press reports the current index, anything else is ignored.
    pub fn handle_notification(&mut self, btn_num: u32) -> (r: Option<DeviceEvent>)
        requires
            old(self).wf(),
        ensures
            final(self).wf(),
            btn_num == SELECT_NOTIFICATION ==> final(self).selection == next_selection(
                old(self).selection,
            ) && r == Some(DeviceEvent::Select { data: final(self).selection }),
            btn_num == ENTER_NOTIFICATION ==> *final(self) == *old(self) && r == Some(
                DeviceEvent::Enter { data: old(self).selection },
            ),
            btn_num != SELECT_NOTIFICATION && btn_num != ENTER_NOTIFICATION ==> *final(self)
                == *old(self) && r is None,
    {
        if btn_num == SELECT_NOTIFICATION {
            self.selection = self.selection + 1;
            if self.selection > 3 {
                self.selection = 0;
            }
            Some(DeviceEvent::Select { data: self.selection })
        } else if btn_num == ENTER_NOTIFICATION {
            Some(DeviceEvent::Enter { data: self.selection })
        } else {
            None
        }
    }
}

/// Law: a select press steps the cursor to the previous value plus one,
/// modulo four, so four consecutive presses return it to where it was.
pub proof fn lemma_selection_wraparound(s: u8)
    requires
        s < 4,
    ensures
        next_selection(s) == (s + 1) % 4,
        next_selection(next_selection(next_selection(next_selection(s)))) == s,
{
}

} // verus!
