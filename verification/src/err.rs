//! The closed error enumeration shared by the kernel core.

use vstd::prelude::*;

verus! {

/// Which coordinate of a display access was out of range.
#[derive(Clone, Copy, Debug, PartialEq, Eq, Structural)]
pub enum Axis {
    X,
    Y,
}

/// Every error the kernel core can hand back to a caller. Errors are
/// returned as values and decided locally by the caller; nothing here
/// is propagated further.
#[derive(Clone, Copy, Debug, PartialEq, Eq, Structural)]
pub enum KernelError {
    /// A display-buffer access named a cell outside the grid; carries the
    /// failing axis and the attempted coordinate.
    CoordinateOutOfRange { axis: Axis, value: usize },
    /// A handler registration named a slot past the end of the handler
    /// table; carries the attempted index and the table's bound.
    HandlerIndexOutOfRange { index: usize, bound: usize },
}

/// Result type used throughout the kernel core.
pub type KernelResult<T> = Result<T, KernelError>;

} // verus!
