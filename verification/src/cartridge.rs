//! Cartridge images: the header and the program and pattern memory that
//! follow it.

use vstd::prelude::*;
use vstd::slice::slice_subrange;
use vstd::slice::slice_to_vec;

verus! {

/// Number of bytes in the header of a cartridge image.
pub const HEADER_SIZE: usize = 16;

/// Number of bytes in one bank of program memory.
pub const PRG_BANK_SIZE: usize = 0x4000;

/// Number of bytes in one bank of pattern memory.
pub const CHR_BANK_SIZE: usize = 0x2000;

/// Number of bytes of persistent memory on a cartridge.
pub const CARTRIDGE_RAM_SIZE: usize = 0x2000;

/// The fields of an image's header that the machine cares about.
#[derive(Clone, Copy, Debug)]
pub struct NesHeader {
    /// The four bytes that open the image.
    pub magic: [u8; 4],
    /// Number of 16 KB banks of program memory.
    pub prg_size: u8,
    /// Number of 8 KB banks of pattern memory.
    pub chr_size: u8,
    pub flags_6: u8,
    pub flags_7: u8,
    /// Number of 8 KB banks of persistent memory the image asks for.
    pub ram_size: u8,
}

/// A loaded cartridge. Program and pattern memory never change after the
/// image has been read.
pub struct Cartridge {
    pub header: NesHeader,
    pub prg: Vec<u8>,
    pub chr: Vec<u8>,
    pub ram: [u8; 0x2000],
}

/// The mathematical content of a cartridge.
pub struct CartridgeView {
    pub header: NesHeader,
    pub prg: Seq<u8>,
    pub chr: Seq<u8>,
    pub ram: Seq<u8>,
}

impl CartridgeView {
    /// Program and pattern memory have the sizes that the header announces.
    pub open spec fn wf(self) -> bool {
        &&& self.prg.len() == self.header.prg_size as int * PRG_BANK_SIZE as int
        &&& self.chr.len() == self.header.chr_size as int * CHR_BANK_SIZE as int
        &&& self.ram.len() == CARTRIDGE_RAM_SIZE as int
    }

    /// The byte of program memory that the processor sees at `address`.
    /// With more than one bank the upper 32 KB of the address space show two
    /// banks; with one bank they show it twice.
    pub open spec fn prg_byte(self, address: u16) -> u8 {
        if self.header.prg_size > 1 {
            self.prg[address as int % 0x8000]
        } else {
            self.prg[address as int % 0x4000]
        }
    }
}

impl View for Cartridge {
    type V = CartridgeView;

    open spec fn view(&self) -> CartridgeView {
        CartridgeView { header: self.header, prg: self.prg@, chr: self.chr@, ram: self.ram@ }
    }
}

/// Number of bytes of program memory that an image with this header holds.
pub open spec fn image_prg_len(image: Seq<u8>) -> int
    recommends
        image.len() >= HEADER_SIZE,
{
    image[4] as int * PRG_BANK_SIZE as int
}

/// Number of bytes of pattern memory that an image with this header holds.
pub open spec fn image_chr_len(image: Seq<u8>) -> int
    recommends
        image.len() >= HEADER_SIZE,
{
    image[5] as int * CHR_BANK_SIZE as int
}

/// An image is complete when it holds a header and all the banks that the
/// header announces.
pub open spec fn image_is_complete(image: Seq<u8>) -> bool {
    &&& image.len() >= HEADER_SIZE
    &&& image.len() >= HEADER_SIZE + image_prg_len(image) + image_chr_len(image)
}

/// The cartridge that a complete image describes.
pub open spec fn image_content(image: Seq<u8>) -> CartridgeView
    recommends
        image_is_complete(image),
{
    let prg_end = HEADER_SIZE + image_prg_len(image);
    CartridgeView {
        header: NesHeader {
            magic: image_magic(image),
            prg_size: image[4],
            chr_size: image[5],
            flags_6: image[6],
            flags_7: image[7],
            ram_size: image[8],
        },
        prg: image.subrange(HEADER_SIZE as int, prg_end),
        chr: image.subrange(prg_end, prg_end + image_chr_len(image)),
        ram: Seq::new(CARTRIDGE_RAM_SIZE as nat, |i: int| 0u8),
    }
}

/// The first four bytes of an image, as an array.
pub open spec fn image_magic(image: Seq<u8>) -> [u8; 4] {
    [image[0], image[1], image[2], image[3]]
}

impl Cartridge {
    /// The sizes of program and pattern memory agree with the header.
    pub open spec fn wf(&self) -> bool {
        self@.wf()
    }

    /// Whether the sizes of program and pattern memory agree with the
    /// header. A cartridge that [`Cartridge::load`] made always does; this is
    /// for a caller who has put one together by hand.
    pub fn is_well_formed(&self) -> (ok: bool)
        ensures
            ok == self.wf(),
    {
        self.prg.len() == self.header.prg_size as usize * PRG_BANK_SIZE && self.chr.len()
            == self.header.chr_size as usize * CHR_BANK_SIZE
    }

    /// Reads a cartridge from the bytes of an image: a 16-byte header, then
    /// the banks of program memory, then the banks of pattern memory. Bytes
    /// after the last bank are ignored. An image that is too short for what
    /// its header announces gives `None`.
    pub fn load(image: &[u8]) -> (r: Option<Cartridge>)
        ensures
            r is Some <==> image_is_complete(image@),
            r matches Some(c) ==> c.wf() && c@ == image_content(image@),
    {
        if image.len() < HEADER_SIZE {
            return None;
        }
        let header = NesHeader {
            magic: [image[0], image[1], image[2], image[3]],
            prg_size: image[4],
            chr_size: image[5],
            flags_6: image[6],
            flags_7: image[7],
            ram_size: image[8],
        };
        let prg_len: usize = header.prg_size as usize * PRG_BANK_SIZE;
        let chr_len: usize = header.chr_size as usize * CHR_BANK_SIZE;
        if image.len() - HEADER_SIZE < prg_len + chr_len {
            return None;
        }
        let prg_end: usize = HEADER_SIZE + prg_len;
        let prg = slice_to_vec(slice_subrange(image, HEADER_SIZE, prg_end));
        let chr = slice_to_vec(slice_subrange(image, prg_end, prg_end + chr_len));
        let cartridge = Cartridge { header, prg, chr, ram: [0u8; 0x2000] };
        assert(cartridge@.ram =~= image_content(image@).ram);
        assert(cartridge@.header.magic == image_magic(image@));
        Some(cartridge)
    }
}

} // verus!
