//! What the engine asks the embedding layer to do.
//!
//! Each effect is one operation of the operating system. The engine returns
//! them in the order in which they are to be carried out.

use vstd::prelude::*;
use crate::window::{ProcedureRef, WindowHandle};

verus! {

/// One operation for the embedding layer to carry out.
#[derive(Clone, Copy, Debug, PartialEq, Eq)]
pub enum Effect {
    /// Begin painting `window`. The operating system answers with the region
    /// that needs painting, which the effects up to `EndPaint` refer to.
    BeginPaint { window: WindowHandle },
    /// Fill the region that needs painting with the solid colour `color`.
    FillRegion { color: u32 },
    /// Draw `text` into the region that needs painting, laid out as `format` says.
    DrawText { text: &'static str, format: u32 },
    /// End painting `window`.
    EndPaint { window: WindowHandle },
    /// Switch on `flags` in the position change that the message announces.
    SetPositionFlags { flags: u32 },
    /// Make the interceptor's dispatch function the active procedure of
    /// `window`, reading and replacing in one step, and report the procedure
    /// that was active before.
    Install { window: WindowHandle },
    /// Make `procedure` the active procedure of `window`.
    Restore { window: WindowHandle, procedure: ProcedureRef },
    /// Hand the message to the system's default handler.
    CallDefault { window: WindowHandle, message: u32, wparam: usize, lparam: isize },
    /// Hand the message to `procedure`.
    CallProcedure {
        procedure: ProcedureRef,
        window: WindowHandle,
        message: u32,
        wparam: usize,
        lparam: isize,
    },
}

/// How the result of a dispatch is arrived at.
#[derive(Clone, Copy, Debug, PartialEq, Eq, Structural)]
pub enum Reply {
    /// The result is this value, whatever the effects returned.
    Value(isize),
    /// The result is what the call among the effects returned, unchanged.
    OfCall,
}

impl Reply {
    /// The result of a dispatch whose call, if it made one, returned `returned`.
    pub open spec fn settled(self, returned: isize) -> isize {
        match self {
            Reply::Value(value) => value,
            Reply::OfCall => returned,
        }
    }

    /// The result of a dispatch whose call, if it made one, returned `returned`.
    pub fn settle(self, returned: isize) -> (result: isize)
        ensures
            result == self.settled(returned),
    {
        match self {
            Reply::Value(value) => value,
            Reply::OfCall => returned,
        }
    }
}

impl Effect {
    /// Whether the effect hands the message to another procedure.
    pub open spec fn is_call(self) -> bool {
        self is CallDefault || self is CallProcedure
    }

    /// Whether the effect hands the message to the procedure that was active
    /// before the interceptor.
    pub open spec fn delegates(self) -> bool {
        self is CallProcedure
    }
}

} // verus!
