//! A pending change of a window's position and size.
//!
//! Before the operating system moves or resizes a window it shows the window
//! the change it is about to make. Two flags in that request tell it to
//! leave the position, or the size, as it is.

use vstd::prelude::*;
use crate::handlers::lock_flags;
use crate::win32::{swp_nomove, swp_nosize, SWP_NOMOVE, SWP_NOSIZE};

verus! {

/// Where a window stands and how large it is.
#[derive(Clone, Copy, Debug, PartialEq, Eq, Structural)]
pub struct Placement {
    /// Left edge.
    pub x: i32,
    /// Top edge.
    pub y: i32,
    /// Width.
    pub cx: i32,
    /// Height.
    pub cy: i32,
}

/// The change that the operating system is about to make to a window.
#[derive(Clone, Copy, Debug, PartialEq, Eq, Structural)]
pub struct WindowPos {
    /// Requested left edge.
    pub x: i32,
    /// Requested top edge.
    pub y: i32,
    /// Requested width.
    pub cx: i32,
    /// Requested height.
    pub cy: i32,
    /// Flags that qualify the request.
    pub flags: u32,
}

impl WindowPos {
    /// The request with `flags` switched on as well.
    pub open spec fn with_flags(self, flags: u32) -> WindowPos {
        WindowPos { flags: self.flags | flags, ..self }
    }

    /// Whether the request leaves the window's size as it is.
    pub open spec fn keeps_size(self) -> bool {
        self.flags & SWP_NOSIZE == SWP_NOSIZE
    }

    /// Whether the request leaves the window's position as it is.
    pub open spec fn keeps_position(self) -> bool {
        self.flags & SWP_NOMOVE == SWP_NOMOVE
    }

    /// The placement of a window that stood at `current` once the operating
    /// system has applied the request: requested coordinates count only
    /// where the matching flag is off.
    pub open spec fn applied_to(self, current: Placement) -> Placement {
        Placement {
            x: if self.keeps_position() { current.x } else { self.x },
            y: if self.keeps_position() { current.y } else { self.y },
            cx: if self.keeps_size() { current.cx } else { self.cx },
            cy: if self.keeps_size() { current.cy } else { self.cy },
        }
    }

    /// Switches `flags` on in the request. The requested geometry and the
    /// flags that were on already stay.
    pub fn set_flags(&mut self, flags: u32)
        ensures
            *final(self) == old(self).with_flags(flags),
    {
        self.flags = self.flags | flags;
    }

    /// The placement of a window that stood at `current` once the operating
    /// system has applied the request.
    pub fn placement_after(&self, current: Placement) -> (placement: Placement)
        ensures
            placement == self.applied_to(current),
    {
        let size_flag = swp_nosize();
        let move_flag = swp_nomove();
        let keeps_size = self.flags & size_flag == size_flag;
        let keeps_position = self.flags & move_flag == move_flag;
        Placement {
            x: if keeps_position { current.x } else { self.x },
            y: if keeps_position { current.y } else { self.y },
            cx: if keeps_size { current.cx } else { self.cx },
            cy: if keeps_size { current.cy } else { self.cy },
        }
    }
}

/// A request that the position handler has dealt with carries both freezing
/// flags, whatever it asked for, and loses nothing of what it held.
pub proof fn law_lock_sets_both_flags(request: WindowPos)
    ensures
        request.with_flags(lock_flags()).keeps_size(),
        request.with_flags(lock_flags()).keeps_position(),
        request.with_flags(lock_flags()).flags & request.flags == request.flags,
        request.with_flags(lock_flags()).x == request.x,
        request.with_flags(lock_flags()).y == request.y,
        request.with_flags(lock_flags()).cx == request.cx,
        request.with_flags(lock_flags()).cy == request.cy,
{
    let flags = request.flags;
    assert((flags | (1u32 | 2u32)) & 1u32 == 1u32) by (bit_vector);
    assert((flags | (1u32 | 2u32)) & 2u32 == 2u32) by (bit_vector);
    assert((flags | (1u32 | 2u32)) & flags == flags) by (bit_vector);
}

/// The geometry of a request that the position handler has dealt with does
/// not take effect: the window stays where it stood, at the size it had.
pub proof fn law_locked_request_changes_nothing(request: WindowPos, current: Placement)
    ensures
        request.with_flags(lock_flags()).applied_to(current) == current,
{
    law_lock_sets_both_flags(request);
}

} // verus!
