//! An emulator core for a cartridge-based 8-bit game console: the
//! processor, the picture unit, and the memory bus that connects them to the
//! cartridge and to the controller.
//!
//! Every type has a mathematical view, and every function carries a
//! contract over these views that Verus proves of its body.
//!
//! A driver runs the machine by calling [`cpu::Cpu::step`] (or
//! [`cpu::Cpu::try_step`]), then [`ppu::Ppu::step`] with the processor's
//! cycle count, then [`cpu::Cpu::nmi`] if the picture unit asks for an
//! interrupt. The picture unit never calls the processor, and it never runs
//! ahead of it.
//!
//! - [`cartridge`]: cartridge images.
//! - [`controller`]: the controller port.
//! - [`ppu`]: the picture unit.
//! - [`memory`]: work RAM and the bus.
//! - [`opcodes`]: the table of instructions and of their costs.
//! - [`cpu`]: the processor's registers, bus access, stack and addressing.
//! - [`instructions`]: what each instruction does.
//! - [`execute`]: dispatch and the processor's step.
//! - [`bits`]: facts about masks and shifts.

pub mod bits;
pub mod cartridge;
pub mod controller;
pub mod cpu;
pub mod execute;
pub mod instructions;
pub mod memory;
pub mod opcodes;
pub mod ppu;
