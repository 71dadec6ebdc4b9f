//! The two cascaded 8259 programmable interrupt controllers.
//!
//! [`Pics`] tracks the vector offsets the chips were programmed with.
//! Routines that would program the chips return the exact port-write
//! sequence to issue; the sequences are hardware-ordering-sensitive and
//! must be performed as returned, with interrupts disabled.

use vstd::prelude::*;

use crate::port::PortOp;

verus! {

/// Command port of the master chip.
pub const MASTER_COMM: u16 = 0x20;
/// Data port of the master chip.
pub const MASTER_DATA: u16 = 0x21;
/// Command port of the slave chip.
pub const SLAVE_COMM: u16 = 0xA0;
/// Data port of the slave chip.
pub const SLAVE_DATA: u16 = 0xA1;

/// Bit mask naming the master pin the slave cascades on (pin 2), as told
/// to the master in its ICW3 word.
pub const SLAVE_IRQ: u8 = 0x04;
/// The slave's cascade identity (2), as told to the slave in its ICW3
/// word.
pub const SLAVE_CASCADE: u8 = 0x02;

/// End-of-interrupt command byte.
pub const EOI: u8 = 0x20;

/// ICW1 flag: an ICW4 word will follow.
pub const ICW1_ICW4: u8 = 0x01;
/// ICW1 flag: begin initialization.
pub const ICW1_INIT: u8 = 0x10;
/// ICW4 word: 8086-compatible mode.
pub const ICW4_8086: u8 = 0x01;

/// OCW3 command selecting the interrupt-request register.
pub const OCW3_IRR: u8 = 0x0A;
/// OCW3 command selecting the in-service register.
pub const OCW3_ISR: u8 = 0x0B;

/// Vector-offset state of the two chips. Set once by [`Pics::remap`],
/// read by every vector-index computation.
#[derive(Clone, Copy, Debug, PartialEq, Eq, Structural)]
pub struct Pics {
    /// Vector number of the master chip's IRQ 0.
    pub master_offset: u8,
    /// Vector number of the slave chip's IRQ 8.
    pub slave_offset: u8,
}

/// The exact port-write sequence that reprograms both chips to the given
/// vector offsets, restoring the previously saved IRQ masks at the end.
pub open spec fn spec_remap_ops(master: u8, slave: u8, master_mask: u8, slave_mask: u8) -> Seq<
    PortOp,
> {
    seq![
        PortOp::Out { port: MASTER_COMM, value: ICW1_ICW4 | ICW1_INIT },
        PortOp::Out { port: SLAVE_COMM, value: ICW1_ICW4 | ICW1_INIT },
        PortOp::Out { port: MASTER_DATA, value: master },
        PortOp::Out { port: SLAVE_DATA, value: slave },
        PortOp::Out { port: MASTER_DATA, value: SLAVE_IRQ },
        PortOp::Out { port: SLAVE_DATA, value: SLAVE_CASCADE },
        PortOp::Out { port: MASTER_DATA, value: ICW4_8086 },
        PortOp::Out { port: SLAVE_DATA, value: ICW4_8086 },
        PortOp::Out { port: MASTER_DATA, value: master_mask },
        PortOp::Out { port: SLAVE_DATA, value: slave_mask },
    ]
}

/// The acknowledgment sequence for `irq`: end-of-interrupt to the slave
/// first when the line is the slave's, then unconditionally to the master.
pub open spec fn spec_eoi_ops(irq: u8) -> Seq<PortOp> {
    if irq >= 8 {
        seq![
            PortOp::Out { port: SLAVE_COMM, value: EOI },
            PortOp::Out { port: MASTER_COMM, value: EOI },
        ]
    } else {
        seq![PortOp::Out { port: MASTER_COMM, value: EOI }]
    }
}

/// The port transactions that read back one OCW3-selected register from
/// both chips: select on both command ports, then read the slave's byte,
/// then the master's.
pub open spec fn spec_ocw3_ops(ocw3: u8) -> Seq<PortOp> {
    seq![
        PortOp::Out { port: MASTER_COMM, value: ocw3 },
        PortOp::Out { port: SLAVE_COMM, value: ocw3 },
        PortOp::In { port: SLAVE_COMM },
        PortOp::In { port: MASTER_COMM },
    ]
}

impl Pics {
    /// Offsets programmed so hardware IRQs sit above the CPU exception
    /// vectors, with the slave chip 8 vectors past the master.
    pub open spec fn configured(self) -> bool {
        &&& 0x20 <= self.master_offset
        &&& self.slave_offset == self.master_offset + 8
    }

    /// Vector number `irq` maps to: the master offset plus the raw line
    /// number, for lines of both chips.
    pub open spec fn spec_interrupt_index(self, irq: u8) -> int {
        self.master_offset + irq
    }

    /// State before any remap: both offsets zero.
    pub fn new() -> (p: Pics)
        ensures
            p.master_offset == 0,
            p.slave_offset == 0,
    {
        Pics { master_offset: 0, slave_offset: 0 }
    }

    /// CPU vector for hardware line `irq`.
    pub fn interrupt_index(&self, irq: u8) -> (v: u8)
        requires
            self.master_offset + irq <= u8::MAX,
        ensures
            v == self.spec_interrupt_index(irq),
    {
        self.master_offset + irq
    }

    /// Reprograms both chips' vector bases. The returned writes must be
    /// issued exactly in order, with interrupts disabled for the duration;
    /// `master_mask` and `slave_mask` are the IRQ masks previously read
    /// from the two data ports, restored at the end of the sequence.
    pub fn remap(&mut self, master: u8, slave: u8, master_mask: u8, slave_mask: u8) -> (ops: Vec<
        PortOp,
    >)
        requires
            0x20 <= master,
            slave == master + 8,
        ensures
            final(self).master_offset == master,
            final(self).slave_offset == slave,
            final(self).configured(),
            ops@ == spec_remap_ops(master, slave, master_mask, slave_mask),
    {
        let mut ops: Vec<PortOp> = Vec::new();
        // Start initializing both chips, announcing an ICW4 word.
        ops.push(PortOp::Out { port: MASTER_COMM, value: ICW1_ICW4 | ICW1_INIT });
        ops.push(PortOp::Out { port: SLAVE_COMM, value: ICW1_ICW4 | ICW1_INIT });
        // The new vector offsets.
        ops.push(PortOp::Out { port: MASTER_DATA, value: master });
        ops.push(PortOp::Out { port: SLAVE_DATA, value: slave });
        // Cascade wiring: the master learns the slave's pin, the slave its
        // identity.
        ops.push(PortOp::Out { port: MASTER_DATA, value: SLAVE_IRQ });
        ops.push(PortOp::Out { port: SLAVE_DATA, value: SLAVE_CASCADE });
        // 8086-compatible mode.
        ops.push(PortOp::Out { port: MASTER_DATA, value: ICW4_8086 });
        ops.push(PortOp::Out { port: SLAVE_DATA, value: ICW4_8086 });
        // Restore the saved masks.
        ops.push(PortOp::Out { port: MASTER_DATA, value: master_mask });
        ops.push(PortOp::Out { port: SLAVE_DATA, value: slave_mask });
        self.master_offset = master;
        self.slave_offset = slave;
        proof {
            assert(ops@ =~= spec_remap_ops(master, slave, master_mask, slave_mask));
        }
        ops
    }
}

/// Acknowledgment writes for hardware line `irq`: cascaded lines require
/// acknowledging both chips, slave first; the master is always acknowledged.
pub fn eoi(irq: u8) -> (ops: Vec<PortOp>)
    ensures
        ops@ == spec_eoi_ops(irq),
{
    let mut ops: Vec<PortOp> = Vec::new();
    if irq >= 8 {
        ops.push(PortOp::Out { port: SLAVE_COMM, value: EOI });
    }
    ops.push(PortOp::Out { port: MASTER_COMM, value: EOI });
    proof {
        assert(ops@ =~= spec_eoi_ops(irq));
    }
    ops
}

/// Transactions that read back the register OCW3 command `ocw3` selects,
/// from both chips.
pub fn get_ocw3(ocw3: u8) -> (ops: Vec<PortOp>)
    ensures
        ops@ == spec_ocw3_ops(ocw3),
{
    let mut ops: Vec<PortOp> = Vec::new();
    ops.push(PortOp::Out { port: MASTER_COMM, value: ocw3 });
    ops.push(PortOp::Out { port: SLAVE_COMM, value: ocw3 });
    ops.push(PortOp::In { port: SLAVE_COMM });
    ops.push(PortOp::In { port: MASTER_COMM });
    proof {
        assert(ops@ =~= spec_ocw3_ops(ocw3));
    }
    ops
}

/// Transactions that read back the combined in-service registers.
pub fn isr() -> (ops: Vec<PortOp>)
    ensures
        ops@ == spec_ocw3_ops(OCW3_ISR),
{
    get_ocw3(OCW3_ISR)
}

/// Transactions that read back the combined interrupt-request registers.
pub fn irr() -> (ops: Vec<PortOp>)
    ensures
        ops@ == spec_ocw3_ops(OCW3_IRR),
{
    get_ocw3(OCW3_IRR)
}

/// Combines the two bytes an OCW3 read-back produced into the 16-bit
/// diagnostic value: low byte from the master, high byte from the slave.
pub fn combine_status(master_value: u8, slave_value: u8) -> (v: u16)
    ensures
        v == slave_value * 256 + master_value,
{
    let v: u16 = ((slave_value as u16) << 8) | (master_value as u16);
    proof {
        let m = master_value;
        let s = slave_value;
        assert(((s as u16) << 8) | (m as u16) == (s as u16) * 256 + (m as u16)) by (bit_vector);
    }
    v
}

/// After a remap to bases `0x20` and `0x28`, the vector for line `n` is
/// `0x20 + n` for the master's lines, and the slave base plus the line's
/// position on the slave for lines 8 to 15.
pub proof fn lemma_vector_bases(p: Pics, n: u8)
    requires
        p.master_offset == 0x20,
        p.slave_offset == 0x28,
        n < 16,
    ensures
        n < 8 ==> p.spec_interrupt_index(n) == 0x20 + n,
        8 <= n ==> p.spec_interrupt_index(n) == 0x28 + (n - 8),
{
}

} // verus!
