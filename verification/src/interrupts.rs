//! The interrupt subsystem's outward face: one-time initialization and
//! handler registration over the full table.

use vstd::prelude::*;

use crate::err::{KernelError, KernelResult};
use crate::idt::{Idt, InterruptHandler, HANDLER_COUNT, PIC_MASTER_OFFSET, PIC_SLAVE_OFFSET,
    WIRED_VECTORS};
use crate::pics::spec_remap_ops;
use crate::port::PortOp;

verus! {

/// One-time interrupt setup. Always succeeds at this layer; the embedder
/// performs the returned remap writes with interrupts disabled, binds the
/// returned vectors to its trampolines, and loads the CPU table once.
pub fn init(master_mask: u8, slave_mask: u8) -> (r: KernelResult<(Idt, Vec<PortOp>, Vec<u8>)>)
    ensures
        r is Ok,
        r matches Ok(v) ==> {
            &&& v.0.wf()
            &&& v.0.pics.master_offset == PIC_MASTER_OFFSET
            &&& v.0.pics.slave_offset == PIC_SLAVE_OFFSET
            &&& forall|i: int| 0 <= i < 16 ==> v.0.handlers@[i] == 0
            &&& v.1@ == spec_remap_ops(PIC_MASTER_OFFSET, PIC_SLAVE_OFFSET, master_mask, slave_mask)
            &&& v.2@.len() == WIRED_VECTORS
            &&& forall|i: int| 0 <= i < WIRED_VECTORS ==> v.2@[i] == PIC_MASTER_OFFSET + i
        },
{
    Ok(Idt::init(master_mask, slave_mask))
}

/// Replaces the callback for `index`. Callers address the full
/// [`crate::idt::MAX_INTERRUPTS`]-entry vector space, but only the
/// table's 16 hardware lines are wired, so registration succeeds exactly
/// on indices below the table's bound; anything else is rejected with an
/// out-of-range error carrying that bound, and the table is untouched.
pub fn set_handler(idt: &mut Idt, index: usize, handler: InterruptHandler) -> (r: KernelResult<()>)
    requires
        old(idt).wf(),
    ensures
        final(idt).wf(),
        index < HANDLER_COUNT ==> {
            &&& r == Ok::<(), KernelError>(())
            &&& final(idt).handlers@ == old(idt).handlers@.update(index as int, handler)
            &&& final(idt).pics == old(idt).pics
        },
        index >= HANDLER_COUNT ==> {
            &&& r == Err::<(), KernelError>(
                (KernelError::HandlerIndexOutOfRange { index: index, bound: HANDLER_COUNT }),
            )
            &&& *final(idt) == *old(idt)
        },
{
    if index >= HANDLER_COUNT {
        return Err(KernelError::HandlerIndexOutOfRange { index, bound: HANDLER_COUNT });
    }
    idt.set_isr(index as u8, handler);
    Ok(())
}

} // verus!
