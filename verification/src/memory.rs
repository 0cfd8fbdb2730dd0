//! The processor's bus: work RAM and the routing of every address to work
//! RAM, the picture unit, the controller or the cartridge.

use vstd::prelude::*;
use crate::bits::lemma_mirror_masks;
use crate::cartridge::Cartridge;
use crate::cartridge::CartridgeView;
use crate::controller::Controller;
use crate::controller::ControllerView;
use crate::controller::CONTROLLER_PORT;
use crate::ppu::Ppu;
use crate::ppu::PpuView;

verus! {

/// Bytes of work RAM.
pub const RAM_SIZE: usize = 0x800;

/// The first address of the registers of the picture unit.
pub const PPU_REGISTERS: u16 = 0x2000;

/// The address a write to which copies a page of work RAM to
/// object-attribute memory.
pub const OAM_DMA: u16 = 0x4014;

/// The first address that the cartridge answers.
pub const CARTRIDGE_SPACE: u16 = 0x6000;

/// Work RAM: 2 KB, shown four times over in the first 8 KB of the address
/// space.
pub struct Ram {
    pub val: [u8; 0x800],
}

impl View for Ram {
    type V = Seq<u8>;

    open spec fn view(&self) -> Seq<u8> {
        self.val@
    }
}

impl Ram {
    /// Work RAM with every byte clear.
    pub fn new() -> (ram: Ram)
        ensures
            ram@ == Seq::new(RAM_SIZE as nat, |i: int| 0u8),
    {
        let ram = Ram { val: [0u8; 0x800] };
        assert(ram@ =~= Seq::new(RAM_SIZE as nat, |i: int| 0u8));
        ram
    }

    /// The byte at `address`, taken modulo the size of work RAM.
    pub fn load(&self, address: u16) -> (value: u8)
        ensures
            value == self@[address as int % 0x800],
    {
        proof {
            lemma_mirror_masks(address);
        }
        self.val[(address & 0x7FF) as usize]
    }

    /// Puts `value` at `address`, taken modulo the size of work RAM.
    pub fn store(&mut self, address: u16, value: u8)
        ensures
            final(self)@ == old(self)@.update(address as int % 0x800, value),
    {
        proof {
            lemma_mirror_masks(address);
        }
        self.val[(address & 0x7FF) as usize] = value;
    }
}

/// Everything that the processor reaches through the bus.
pub struct CpuMemory {
    pub ram: Ram,
    pub cartridge: Cartridge,
    pub ppu: Ppu,
    pub controller: Controller,
}

/// The mathematical content of the bus and of what hangs on it.
pub struct CpuMemoryView {
    pub ram: Seq<u8>,
    pub cartridge: CartridgeView,
    pub ppu: PpuView,
    pub controller: ControllerView,
}

impl View for CpuMemory {
    type V = CpuMemoryView;

    open spec fn view(&self) -> CpuMemoryView {
        CpuMemoryView {
            ram: self.ram@,
            cartridge: self.cartridge@,
            ppu: self.ppu@,
            controller: self.controller@,
        }
    }
}

/// The register of the picture unit that answers at `address`: the eight
/// registers are shown over and over from 0x2000 to 0x3FFF.
pub open spec fn ppu_register(address: u16) -> u16 {
    (PPU_REGISTERS + address % 8) as u16
}

impl CpuMemoryView {
    /// Work RAM has its size, the cartridge is well formed and has program
    /// memory, and the picture unit is well formed.
    pub open spec fn wf(self) -> bool {
        &&& self.ram.len() == RAM_SIZE
        &&& self.cartridge.wf()
        &&& self.cartridge.header.prg_size >= 1
        &&& self.ppu.wf()
    }

    /// The byte that a read at `address` returns. Below 0x2000 work RAM
    /// answers, below 0x4000 the picture unit, at 0x4016 the controller, and
    /// from 0x6000 on the program memory of the cartridge. Whatever lies
    /// between the picture unit and the cartridge, the controller apart, reads
    /// as 0.
    pub open spec fn load_value(self, address: u16) -> u8 {
        if address < PPU_REGISTERS {
            self.ram[address as int % 0x800]
        } else if address < 0x4000 {
            self.ppu.load_value(ppu_register(address))
        } else if address == CONTROLLER_PORT {
            self.controller.polled_bit()
        } else if address < CARTRIDGE_SPACE {
            0
        } else {
            self.cartridge.prg_byte(address)
        }
    }

    /// The bus after a read at `address`: reading a register of the picture
    /// unit or the controller changes them, reading anything else changes
    /// nothing.
    pub open spec fn load(self, address: u16) -> CpuMemoryView {
        if address < PPU_REGISTERS {
            self
        } else if address < 0x4000 {
            CpuMemoryView { ppu: self.ppu.load(ppu_register(address)), ..self }
        } else if address == CONTROLLER_PORT {
            CpuMemoryView { controller: self.controller.load(), ..self }
        } else {
            self
        }
    }

    /// The bus after the page of work RAM that begins at `256 * page` has
    /// been copied to object-attribute memory.
    pub open spec fn dma(self, page: u8) -> CpuMemoryView {
        CpuMemoryView {
            ppu: PpuView {
                oam: Seq::new(0x100, |i: int| self.ram[(256 * page + i) % 0x800]),
                ..self.ppu
            },
            ..self
        }
    }

    /// The bus after a write of `value` at `address`. Work RAM, the
    /// picture unit and the controller take the byte. A write to 0x4014
    /// copies a page of work RAM to object-attribute memory. A write anywhere
    /// else is dropped: the cartridge's program memory is read-only.
    pub open spec fn store(self, address: u16, value: u8) -> CpuMemoryView {
        if address < PPU_REGISTERS {
            CpuMemoryView { ram: self.ram.update(address as int % 0x800, value), ..self }
        } else if address < 0x4000 {
            CpuMemoryView { ppu: self.ppu.store(ppu_register(address), value), ..self }
        } else if address == OAM_DMA {
            self.dma(value)
        } else if address == CONTROLLER_PORT {
            CpuMemoryView { controller: self.controller.store(address, value), ..self }
        } else {
            self
        }
    }
}

impl CpuMemory {
    /// See [`CpuMemoryView::wf`].
    pub open spec fn wf(&self) -> bool {
        self@.wf()
    }

    /// Whether the bus is well formed. A bus that [`CpuMemory::new`] made
    /// and that only the functions of this crate have changed always is; this
    /// is for a caller who has written to its fields.
    pub fn is_well_formed(&self) -> (ok: bool)
        ensures
            ok == self.wf(),
    {
        self.cartridge.is_well_formed() && self.cartridge.header.prg_size >= 1
            && self.ppu.is_well_formed()
    }

    /// A bus with cleared work RAM, to which `cartridge`, `ppu` and
    /// `controller` are attached.
    pub fn new(cartridge: Cartridge, ppu: Ppu, controller: Controller) -> (memory: CpuMemory)
        requires
            cartridge.wf(),
            cartridge.header.prg_size >= 1,
            ppu.wf(),
        ensures
            memory.wf(),
            memory@ == (CpuMemoryView {
                ram: Seq::new(RAM_SIZE as nat, |i: int| 0u8),
                cartridge: cartridge@,
                ppu: ppu@,
                controller: controller@,
            }),
    {
        CpuMemory { cartridge: cartridge, ppu: ppu, controller: controller, ram: Ram::new() }
    }

    /// Reads the byte at `address`.
    pub fn load(&mut self, address: u16) -> (value: u8)
        requires
            old(self).wf(),
        ensures
            final(self).wf(),
            value == old(self)@.load_value(address),
            final(self)@ == old(self)@.load(address),
    {
        if address < 0x2000 {
            self.ram.load(address)
        } else if address < 0x4000 {
            self.ppu.load(0x2000 + address % 8)
        } else if address == 0x4016 {
            self.controller.load(address)
        } else if address < 0x6000 {
            0
        } else if self.cartridge.header.prg_size > 1 {
            proof {
                lemma_mirror_masks(address);
            }
            self.cartridge.prg[(address & 0x7FFF) as usize]
        } else {
            proof {
                lemma_mirror_masks(address);
            }
            self.cartridge.prg[(address & 0x3FFF) as usize]
        }
    }

    /// Writes `value` at `address`.
    pub fn store(&mut self, address: u16, value: u8)
        requires
            old(self).wf(),
        ensures
            final(self).wf(),
            final(self)@ == old(self)@.store(address, value),
    {
        if address < 0x2000 {
            self.ram.store(address, value);
        } else if address < 0x4000 {
            self.ppu.store(0x2000 + address % 8, value);
        } else if address == 0x4014 {
            self.dma(value);
        } else if address == 0x4016 {
            self.controller.store(address, value);
        }
    }

    /// Copies the 256 bytes of work RAM that begin at `256 * start` to
    /// object-attribute memory.
    pub fn dma(&mut self, start: u8)
        requires
            old(self).wf(),
        ensures
            final(self).wf(),
            final(self)@ == old(self)@.dma(start),
    {
        let page: u16 = start as u16 * 0x100;
        let mut address: u16 = 0;
        while address < 256
            invariant
                address <= 256,
                page == start * 0x100,
                self.wf(),
                self@ == (CpuMemoryView {
                    ppu: PpuView { oam: self@.ppu.oam, ..old(self)@.ppu },
                    ..old(self)@
                }),
                forall|i: int|
                    0 <= i < address ==> #[trigger] self@.ppu.oam[i] == old(self)@.ram[(256 * start
                        + i) % 0x800],
            decreases 256 - address,
        {
            let value = self.ram.load(page + address);
            self.ppu.oam_data[address as usize] = value;
            address += 1;
        }
        assert(self@.ppu.oam =~= old(self)@.dma(start).ppu.oam);
    }
}

/// Work RAM gives back what was written to it, at the address written to
/// and at every mirror of that address, and reading it changes nothing.
pub proof fn lemma_ram_store_load(memory: CpuMemoryView, address: u16, mirror: u16, value: u8)
    requires
        memory.wf(),
        address < PPU_REGISTERS,
        mirror < PPU_REGISTERS,
        mirror % 0x800 == address % 0x800,
    ensures
        memory.store(address, value).load_value(mirror) == value,
        memory.store(address, value).load(mirror) == memory.store(address, value),
{
}

/// Nothing that goes over the bus changes a cartridge: neither the one
/// that the bus reads program memory from, nor the one that the picture
/// unit reads pattern memory from.
pub proof fn lemma_cartridges_are_read_only(memory: CpuMemoryView, address: u16, value: u8)
    ensures
        memory.store(address, value).cartridge == memory.cartridge,
        memory.store(address, value).ppu.cartridge == memory.ppu.cartridge,
        memory.load(address).cartridge == memory.cartridge,
        memory.load(address).ppu.cartridge == memory.ppu.cartridge,
{
}

/// A read leaves the bus well formed.
pub proof fn lemma_load_keeps_wf(memory: CpuMemoryView, address: u16)
    requires
        memory.wf(),
    ensures
        memory.load(address).wf(),
{
}

/// A write leaves the bus well formed.
pub proof fn lemma_store_keeps_wf(memory: CpuMemoryView, address: u16, value: u8)
    requires
        memory.wf(),
    ensures
        memory.store(address, value).wf(),
{
}

} // verus!
