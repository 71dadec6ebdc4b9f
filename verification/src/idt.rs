//! The interrupt dispatch table.
//!
//! [`Idt`] holds the remapped controller state and the table of registered
//! handler callbacks. Callbacks are identified by plain
//! [`InterruptHandler`] values; the embedder keeps the matching code
//! pointers and its trampolines call [`Idt::dispatch`] to learn which
//! callback to invoke and which acknowledgment writes to issue. Every slot
//! always holds a handler — the no-op default at first — so dispatch never
//! has an "unset" case to check.

use vstd::prelude::*;

use crate::pics::{spec_eoi_ops, spec_remap_ops, eoi, Pics};
use crate::port::PortOp;

verus! {

/// Number of hardware IRQ lines across both chips.
pub const HANDLER_COUNT: usize = 16;
/// Size of the CPU's vector space.
pub const MAX_INTERRUPTS: usize = 256;

/// Vector base the master chip is remapped to, clear of the CPU's
/// exception vectors.
pub const PIC_MASTER_OFFSET: u8 = 0x20;
/// Vector base the slave chip is remapped to.
pub const PIC_SLAVE_OFFSET: u8 = PIC_MASTER_OFFSET + 8;

/// Number of vectors past the master base that are bound to trampoline
/// entry points in this build.
pub const WIRED_VECTORS: usize = 10;

/// Identifier of a registered callback. The embedder maps each identifier
/// to the code it runs; the table only decides which one dispatch invokes.
pub type InterruptHandler = usize;

/// Identifier of the no-op callback every slot starts with.
pub const DEFAULT_HANDLER: InterruptHandler = 0;

/// The no-op default handler's identifier.
pub fn default_isr() -> (h: InterruptHandler)
    ensures
        h == DEFAULT_HANDLER,
{
    DEFAULT_HANDLER
}

/// Controller offsets plus the handler table. The embedder owns the one
/// instance and mutates it only inside an interrupts-disabled critical
/// section, so a dispatch trampoline never observes a half-updated table.
pub struct Idt {
    /// The remapped controller state.
    pub pics: Pics,
    /// One callback identifier per hardware IRQ line.
    pub handlers: Vec<InterruptHandler>,
}

impl Idt {
    /// The handler table covers exactly the 16 hardware lines.
    pub open spec fn wf(self) -> bool {
        self.handlers@.len() == 16
    }

    /// Builds the dispatch state: the controllers remapped to bases 0x20
    /// and 0x28, every handler slot on the no-op default. Returns the
    /// port-write sequence that performs the remap (`master_mask` and
    /// `slave_mask` are the masks previously read from the data ports),
    /// and the list of CPU vectors to bind to trampolines, to be loaded
    /// into the CPU exactly once.
    pub fn init(master_mask: u8, slave_mask: u8) -> (r: (Idt, Vec<PortOp>, Vec<u8>))
        ensures
            r.0.wf(),
            r.0.pics.master_offset == PIC_MASTER_OFFSET,
            r.0.pics.slave_offset == PIC_SLAVE_OFFSET,
            r.0.pics.configured(),
            forall|i: int| 0 <= i < 16 ==> r.0.handlers@[i] == DEFAULT_HANDLER,
            r.1@ == spec_remap_ops(PIC_MASTER_OFFSET, PIC_SLAVE_OFFSET, master_mask, slave_mask),
            r.2@.len() == WIRED_VECTORS,
            forall|i: int| 0 <= i < WIRED_VECTORS ==> r.2@[i] == PIC_MASTER_OFFSET + i,
    {
        let mut pics = Pics::new();
        let ops = pics.remap(PIC_MASTER_OFFSET, PIC_SLAVE_OFFSET, master_mask, slave_mask);
        let mut handlers: Vec<InterruptHandler> = Vec::new();
        let mut i: usize = 0;
        while i < HANDLER_COUNT
            invariant
                i <= 16,
                handlers@.len() == i,
                forall|j: int| 0 <= j < i ==> handlers@[j] == DEFAULT_HANDLER,
            decreases 16 - i,
        {
            handlers.push(DEFAULT_HANDLER);
            i += 1;
        }
        let mut vectors: Vec<u8> = Vec::new();
        let mut v: usize = 0;
        while v < WIRED_VECTORS
            invariant
                v <= 10,
                vectors@.len() == v,
                forall|j: int| 0 <= j < v ==> vectors@[j] == PIC_MASTER_OFFSET + j,
            decreases 10 - v,
        {
            vectors.push(PIC_MASTER_OFFSET + (v as u8));
            v += 1;
        }
        (Idt { pics, handlers }, ops, vectors)
    }

    /// Replaces the callback for `irq`. The caller wraps this in the same
    /// critical section dispatch runs under.
    pub fn set_isr(&mut self, irq: u8, handler: InterruptHandler)
        requires
            old(self).wf(),
            irq < 16,
        ensures
            final(self).wf(),
            final(self).handlers@ == old(self).handlers@.update(irq as int, handler),
            final(self).pics == old(self).pics,
    {
        self.handlers.set(irq as usize, handler);
    }

    /// The dispatch protocol for one hardware interrupt: the callback
    /// registered for `irq` — to be invoked exactly once — and the
    /// acknowledgment writes to issue afterwards, slave-then-master
    /// end-of-interrupt for the slave's lines, master-only otherwise.
    pub fn dispatch(&self, irq: u8) -> (r: (InterruptHandler, Vec<PortOp>))
        requires
            self.wf(),
            irq < 16,
        ensures
            r.0 == self.handlers@[irq as int],
            r.1@ == spec_eoi_ops(irq),
    {
        let handler = self.handlers[irq as usize];
        let acks = eoi(irq);
        (handler, acks)
    }
}

/// Registering a handler and then dispatching that IRQ invokes exactly the
/// registered handler, and the acknowledgment sequence is slave-then-master
/// end-of-interrupt precisely when the line is the slave's, else
/// master-only — for every line and every handler.
pub proof fn lemma_register_then_dispatch(handlers: Seq<InterruptHandler>, irq: u8, h: InterruptHandler)
    requires
        handlers.len() == 16,
        irq < 16,
    ensures
        handlers.update(irq as int, h)[irq as int] == h,
        irq >= 8 ==> spec_eoi_ops(irq) == seq![
            PortOp::Out { port: crate::pics::SLAVE_COMM, value: crate::pics::EOI },
            PortOp::Out { port: crate::pics::MASTER_COMM, value: crate::pics::EOI },
        ],
        irq < 8 ==> spec_eoi_ops(irq) == seq![
            PortOp::Out { port: crate::pics::MASTER_COMM, value: crate::pics::EOI },
        ],
{
}

} // verus!
