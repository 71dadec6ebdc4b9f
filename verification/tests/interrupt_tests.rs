use colonel::err::KernelError;
use colonel::idt::{default_isr, Idt, DEFAULT_HANDLER, HANDLER_COUNT};
use colonel::interrupts;
use colonel::pics::{combine_status, eoi, get_ocw3, irr, isr, Pics};
use colonel::port::PortOp;

fn out(port: u16, value: u8) -> PortOp {
    PortOp::Out { port, value }
}

#[test]
fn remap_emits_the_exact_initialization_sequence() {
    let mut pics = Pics::new();
    let ops = pics.remap(0x20, 0x28, 0xAB, 0xCD);
    let expected = vec![
        out(0x20, 0x11),
        out(0xA0, 0x11),
        out(0x21, 0x20),
        out(0xA1, 0x28),
        out(0x21, 0x04),
        out(0xA1, 0x02),
        out(0x21, 0x01),
        out(0xA1, 0x01),
        out(0x21, 0xAB),
        out(0xA1, 0xCD),
    ];
    assert_eq!(ops, expected);
    assert_eq!(pics.master_offset, 0x20);
    assert_eq!(pics.slave_offset, 0x28);
}

#[test]
fn vector_bases_hold_for_both_chips() {
    let mut pics = Pics::new();
    let _ = pics.remap(0x20, 0x28, 0, 0);
    for n in 0u8..8 {
        assert_eq!(pics.interrupt_index(n), 0x20 + n);
    }
    for n in 8u8..16 {
        assert_eq!(pics.interrupt_index(n), 0x28 + (n - 8));
    }
}

#[test]
fn eoi_master_only_below_eight() {
    for irq in 0u8..8 {
        let ops = eoi(irq);
        assert_eq!(ops, vec![out(0x20, 0x20)]);
    }
}

#[test]
fn eoi_slave_then_master_from_eight() {
    for irq in 8u8..16 {
        let ops = eoi(irq);
        assert_eq!(ops, vec![out(0xA0, 0x20), out(0x20, 0x20)]);
    }
}

#[test]
fn ocw3_reads_select_then_read_slave_then_master() {
    let ops = get_ocw3(0x0B);
    assert_eq!(
        ops,
        vec![
            out(0x20, 0x0B),
            out(0xA0, 0x0B),
            PortOp::In { port: 0xA0 },
            PortOp::In { port: 0x20 },
        ]
    );
    assert_eq!(isr(), get_ocw3(0x0B));
    assert_eq!(irr(), get_ocw3(0x0A));
}

#[test]
fn combine_status_puts_slave_in_the_high_byte() {
    assert_eq!(combine_status(0x34, 0x12), 0x1234);
    assert_eq!(combine_status(0, 0), 0);
    assert_eq!(combine_status(0xFF, 0xFF), 0xFFFF);
}

#[test]
fn init_remaps_and_wires_ten_vectors() {
    let (idt, ops, vectors) = Idt::init(0x11, 0x22);
    assert_eq!(idt.pics.master_offset, 0x20);
    assert_eq!(idt.pics.slave_offset, 0x28);
    assert_eq!(idt.handlers.len(), HANDLER_COUNT);
    for h in idt.handlers.iter() {
        assert_eq!(*h, DEFAULT_HANDLER);
    }
    assert_eq!(ops.len(), 10);
    assert_eq!(ops[8], out(0x21, 0x11));
    assert_eq!(ops[9], out(0xA1, 0x22));
    let bound: Vec<u8> = (0x20u8..0x2A).collect();
    assert_eq!(vectors, bound);
}

#[test]
fn interrupts_init_reports_success() {
    let r = interrupts::init(0, 0);
    assert!(r.is_ok());
}

#[test]
fn register_then_dispatch_invokes_that_handler_with_the_right_acks() {
    for irq in 0u8..16 {
        let (mut idt, _, _) = Idt::init(0, 0);
        idt.set_isr(irq, 42 + irq as usize);
        let (handler, acks) = idt.dispatch(irq);
        assert_eq!(handler, 42 + irq as usize);
        if irq >= 8 {
            assert_eq!(acks, vec![out(0xA0, 0x20), out(0x20, 0x20)]);
        } else {
            assert_eq!(acks, vec![out(0x20, 0x20)]);
        }
        // the other slots still hold the default
        for other in 0u8..16 {
            if other != irq {
                assert_eq!(idt.dispatch(other).0, DEFAULT_HANDLER);
            }
        }
    }
}

#[test]
fn set_handler_rejects_indices_past_the_table() {
    let (mut idt, _, _) = Idt::init(0, 0);
    for index in [16usize, 17, 255, 256, 1000] {
        let r = interrupts::set_handler(&mut idt, index, 5);
        assert_eq!(
            r,
            Err(KernelError::HandlerIndexOutOfRange { index, bound: HANDLER_COUNT })
        );
    }
    for h in idt.handlers.iter() {
        assert_eq!(*h, DEFAULT_HANDLER);
    }
}

#[test]
fn set_handler_accepts_every_table_index() {
    let (mut idt, _, _) = Idt::init(0, 0);
    for index in 0usize..16 {
        assert_eq!(interrupts::set_handler(&mut idt, index, index + 100), Ok(()));
        assert_eq!(idt.dispatch(index as u8).0, index + 100);
    }
}

#[test]
fn the_default_handler_is_the_noop() {
    assert_eq!(default_isr(), DEFAULT_HANDLER);
}
