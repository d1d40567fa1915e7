//! Identifiers that the engine borrows from the operating system.

use vstd::prelude::*;

verus! {

/// Identifies one window. The engine never owns a window; it only names it.
#[derive(Clone, Copy, Debug, PartialEq, Eq, Hash, Structural)]
pub struct WindowHandle(pub isize);

impl WindowHandle {
    /// The handle that names no window.
    pub open spec fn null() -> WindowHandle {
        WindowHandle(0)
    }

    /// Whether this handle names no window.
    pub open spec fn is_null(self) -> bool {
        self.0 == 0
    }
}

/// A reference to a message procedure's entry point.
#[derive(Clone, Copy, Debug, PartialEq, Eq, Hash, Structural)]
pub enum ProcedureRef {
    /// No procedure.
    Unset,
    /// The procedure at this address, which is not zero.
    Valid(isize),
}

impl ProcedureRef {
    /// A valid reference never holds the address zero: zero is how the
    /// operating system writes "no procedure".
    pub open spec fn wf(self) -> bool {
        self matches ProcedureRef::Valid(address) ==> address != 0
    }

    /// The number that the operating system uses for this reference.
    pub open spec fn raw(self) -> isize {
        match self {
            ProcedureRef::Unset => 0,
            ProcedureRef::Valid(address) => address,
        }
    }

    /// The reference that the operating system writes as `raw`.
    pub open spec fn of_raw(raw: isize) -> ProcedureRef {
        if raw == 0 {
            ProcedureRef::Unset
        } else {
            ProcedureRef::Valid(raw)
        }
    }

    /// Reads a reference from the number that the operating system handed out.
    pub fn from_raw(raw: isize) -> (procedure: ProcedureRef)
        ensures
            procedure == ProcedureRef::of_raw(raw),
            procedure.wf(),
            procedure.raw() == raw,
    {
        if raw == 0 {
            ProcedureRef::Unset
        } else {
            ProcedureRef::Valid(raw)
        }
    }

    /// Writes the reference as the number that the operating system expects.
    pub fn to_raw(self) -> (raw: isize)
        ensures
            raw == self.raw(),
            self.wf() ==> ProcedureRef::of_raw(raw) == self,
    {
        match self {
            ProcedureRef::Unset => 0,
            ProcedureRef::Valid(address) => address,
        }
    }
}

/// What the operating system reports about one top-level window.
#[derive(Clone, Copy, Debug, PartialEq, Eq, Structural)]
pub struct WindowInfo {
    /// The window itself.
    pub handle: WindowHandle,
    /// The process that created the window.
    pub process_id: u32,
    /// The window that owns this one; null for a window without an owner.
    pub owner: WindowHandle,
    /// Whether the window is shown.
    pub visible: bool,
}

} // verus!
