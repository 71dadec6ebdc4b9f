//! Hardware port transactions as data.
//!
//! The kernel core never touches an I/O port itself. A routine that
//! programs hardware computes the exact, ordered sequence of transactions
//! as a `Vec<PortOp>`, and its contract pins that sequence down; the
//! embedder performs the operations in order.

use vstd::prelude::*;

verus! {

/// One 8-bit transaction on a 16-bit I/O port.
#[derive(Clone, Copy, Debug, PartialEq, Eq, Structural)]
pub enum PortOp {
    /// Write `value` to `port`.
    Out { port: u16, value: u8 },
    /// Read one byte from `port`.
    In { port: u16 },
}

} // verus!
