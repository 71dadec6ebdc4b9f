//! Hardware-facing core of a small kernel: the dual-8259 interrupt
//! controller, the interrupt dispatch table, the text-mode display buffer,
//! and a VT100-subset terminal emulator.
//!
//! Everything here is modelled over plain values. Operations that program
//! hardware ports do not touch ports themselves: they return the exact
//! sequence of port transactions to perform, as [`port::PortOp`] values,
//! and an embedder carries them out. The display buffer is an explicit
//! character grid; an embedder mirrors it into video memory.

pub mod csi;
pub mod err;
pub mod idt;
pub mod interrupts;
pub mod pics;
pub mod port;
pub mod tty;
pub mod vga;
