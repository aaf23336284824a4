use vstd::prelude::*;
use vstd::slice::{slice_subrange, slice_to_vec};

verus! {

/// 16 kibibytes per PRG chunk
pub const PRG_CHUNK_SIZE: usize = 16384;

/// 8 kibibytes per CHR chunk
pub const CHR_CHUNK_SIZE: usize = 8192;

/// The length of an iNES header in bytes.
pub const HEADER_SIZE: usize = 16;

pub const HEADER_FLAG_MIRRORING: u8 = 0x01;

pub const HEADER_FLAG_SAVE_RAM: u8 = 0x02;

pub const HEADER_FLAG_HAS_TRAINER: u8 = 0x04;

pub const HEADER_FLAG_FOUR_SCREEN_VRAM: u8 = 0x08;

/// How the cartridge wires the console's two nametables into the four
/// logical ones.
#[derive(Clone, Copy, Debug, PartialEq, Eq, Structural)]
pub enum MirroringType {
    Horizontal,
    Vertical,
    FourScreen,
}

/// Why a ROM image is no cartridge that this console can run.
#[derive(Clone, Copy, Debug, PartialEq, Eq, Structural)]
pub enum RomError {
    /// The image is shorter than a header.
    TruncatedHeader,
    /// The image does not start with `NES` and the byte `0x1A`.
    NotINes,
    /// The cartridge has battery-backed RAM.
    SaveRam,
    /// The image holds a trainer.
    Trainer,
    /// The cartridge has a mapper other than NROM; the mapper's number.
    UnknownMapper(u8),
    /// The header announces no program memory.
    NoPrgData,
    /// The header announces no tile memory.
    NoChrData,
    /// The image ends before the program memory that the header announces.
    TruncatedPrg,
    /// The image ends before the tile memory that the header announces.
    TruncatedChr,
}

/// A cartridge as plain values.
pub struct CartridgeState {
    pub mirroring_type: MirroringType,
    /// Program memory.
    pub prg: Seq<u8>,
    /// Tile memory.
    pub chr: Seq<u8>,
    /// Whether the tile memory is RAM, so that writes to it land.
    pub chr_writable: bool,
}

impl CartridgeState {
    /// What a cartridge must hold for the console to read it: some program
    /// memory and some tile memory.
    pub open spec fn valid(self) -> bool {
        self.prg.len() > 0 && self.chr.len() > 0
    }

    /// The byte that the processor reads from the cartridge at `address`:
    /// program memory repeats over the whole address space.
    pub open spec fn prg_read(self, address: u16) -> u8 {
        self.prg[address as int % self.prg.len() as int]
    }

    /// The byte that the picture unit reads from the cartridge at `address`.
    pub open spec fn chr_read(self, address: u16) -> u8 {
        self.chr[address as int % self.chr.len() as int]
    }

    /// The two-bit colour of one pixel of a tile. A tile row is two bytes,
    /// eight bytes apart, one for each bit of the colour; bit `x` of each
    /// byte belongs to pixel `x`.
    pub open spec fn tile_color(self, tile_address: u16, x: u8, y: u8) -> u8 {
        let plane0 = self.chr_read((tile_address + y) as u16);
        let plane1 = self.chr_read((tile_address + y + 8) as u16);
        ((plane0 >> x) & 1) | (((plane1 >> x) & 1) << 1u8)
    }

    /// The cartridge after the picture unit wrote `data` to `address`: tile
    /// ROM ignores the write.
    pub open spec fn chr_write(self, address: u16, data: u8) -> CartridgeState {
        if self.chr_writable {
            CartridgeState { chr: self.chr.update(address as int % self.chr.len() as int, data), ..self }
        } else {
            self
        }
    }
}

pub struct Cartridge {
    mirroring_type: MirroringType,
    prg_data: Vec<u8>,
    chr_data: Vec<u8>,
    chr_writable: bool,
}

impl View for Cartridge {
    type V = CartridgeState;

    closed spec fn view(&self) -> CartridgeState {
        CartridgeState {
            mirroring_type: self.mirroring_type,
            prg: self.prg_data@,
            chr: self.chr_data@,
            chr_writable: self.chr_writable,
        }
    }
}

/// The mirroring that the flag byte of a header announces.
pub open spec fn header_mirroring(flags: u8) -> MirroringType {
    if flags & HEADER_FLAG_FOUR_SCREEN_VRAM != 0 {
        MirroringType::FourScreen
    } else if flags & HEADER_FLAG_MIRRORING != 0 {
        MirroringType::Vertical
    } else {
        MirroringType::Horizontal
    }
}

/// The cartridge that an iNES image holds, or why it holds none. The image
/// is a 16-byte header, then the program memory, then the tile memory;
/// byte 4 of the header counts the program memory in chunks of 16 KiB,
/// byte 5 the tile memory in chunks of 8 KiB, and byte 6 holds the flags
/// and, in its high half, the mapper's number. What follows the tile memory
/// is not looked at.
pub open spec fn parse_ines(image: Seq<u8>) -> Result<CartridgeState, RomError> {
    if image.len() < HEADER_SIZE {
        Err(RomError::TruncatedHeader)
    } else if !(image[0] == 0x4E && image[1] == 0x45 && image[2] == 0x53 && image[3] == 0x1A) {
        Err(RomError::NotINes)
    } else {
        let prg_size = image[4] as int * PRG_CHUNK_SIZE as int;
        let chr_size = image[5] as int * CHR_CHUNK_SIZE as int;
        let flags = image[6];
        if flags & HEADER_FLAG_SAVE_RAM != 0 {
            Err(RomError::SaveRam)
        } else if flags & HEADER_FLAG_HAS_TRAINER != 0 {
            Err(RomError::Trainer)
        } else if flags >> 4 != 0 {
            Err(RomError::UnknownMapper(flags >> 4))
        } else if prg_size == 0 {
            Err(RomError::NoPrgData)
        } else if chr_size == 0 {
            Err(RomError::NoChrData)
        } else if image.len() < HEADER_SIZE + prg_size {
            Err(RomError::TruncatedPrg)
        } else if image.len() < HEADER_SIZE + prg_size + chr_size {
            Err(RomError::TruncatedChr)
        } else {
            Ok(
                CartridgeState {
                    mirroring_type: header_mirroring(flags),
                    prg: image.subrange(HEADER_SIZE as int, HEADER_SIZE + prg_size),
                    chr: image.subrange(HEADER_SIZE + prg_size, HEADER_SIZE + prg_size + chr_size),
                    chr_writable: false,
                },
            )
        }
    }
}

impl Cartridge {
    /// What every cartridge holds of itself: some program memory and some
    /// tile memory.
    pub open spec fn wf(&self) -> bool {
        self@.valid()
    }

    /// An NROM cartridge with the given memories, `None` where one of them
    /// is empty. Its tile memory is ROM.
    pub fn from_parts(mirroring_type: MirroringType, prg_data: Vec<u8>, chr_data: Vec<u8>) -> (cartridge:
        Option<Cartridge>)
        ensures
            cartridge is Some == (prg_data@.len() > 0 && chr_data@.len() > 0),
            cartridge matches Some(c) ==> c.wf() && c@ == (CartridgeState {
                mirroring_type,
                prg: prg_data@,
                chr: chr_data@,
                chr_writable: false,
            }),
    {
        if prg_data.len() == 0 || chr_data.len() == 0 {
            None
        } else {
            Some(Cartridge { mirroring_type, prg_data, chr_data, chr_writable: false })
        }
    }

    /// Reads a cartridge from an iNES image.
    pub fn from_ines(image: &[u8]) -> (cartridge: Result<Cartridge, RomError>)
        ensures
            cartridge matches Ok(c) ==> c.wf() && parse_ines(image@) == Ok::<CartridgeState, RomError>(c@),
            cartridge matches Err(e) ==> parse_ines(image@) == Err::<CartridgeState, RomError>(e),
    {
        if image.len() < HEADER_SIZE {
            return Err(RomError::TruncatedHeader);
        }
        if !(image[0] == 0x4E && image[1] == 0x45 && image[2] == 0x53 && image[3] == 0x1A) {
            return Err(RomError::NotINes);
        }
        let prg_size = image[4] as usize * PRG_CHUNK_SIZE;
        let chr_size = image[5] as usize * CHR_CHUNK_SIZE;
        let flags = image[6];
        let mirroring_type = if flags & HEADER_FLAG_FOUR_SCREEN_VRAM != 0 {
            MirroringType::FourScreen
        } else if flags & HEADER_FLAG_MIRRORING != 0 {
            MirroringType::Vertical
        } else {
            MirroringType::Horizontal
        };
        let has_save_ram = flags & HEADER_FLAG_SAVE_RAM != 0;
        if has_save_ram {
            return Err(RomError::SaveRam);
        }
        let has_trainer = flags & HEADER_FLAG_HAS_TRAINER != 0;
        if has_trainer {
            return Err(RomError::Trainer);
        }
        let mapper_type = flags >> 4;
        if mapper_type != 0 {
            return Err(RomError::UnknownMapper(mapper_type));
        }
        if prg_size == 0 {
            return Err(RomError::NoPrgData);
        }
        if chr_size == 0 {
            return Err(RomError::NoChrData);
        }
        if image.len() < HEADER_SIZE + prg_size {
            return Err(RomError::TruncatedPrg);
        }
        if image.len() < HEADER_SIZE + prg_size + chr_size {
            return Err(RomError::TruncatedChr);
        }
        let prg_data = slice_to_vec(slice_subrange(image, HEADER_SIZE, HEADER_SIZE + prg_size));
        let chr_data = slice_to_vec(
            slice_subrange(image, HEADER_SIZE + prg_size, HEADER_SIZE + prg_size + chr_size),
        );
        Ok(Cartridge { mirroring_type, prg_data, chr_data, chr_writable: false })
    }

    /// Says whether the tile memory is RAM. It is ROM unless this was
    /// called with `true`.
    pub fn set_chr_writable(&mut self, writable: bool)
        ensures
            final(self)@ == (CartridgeState { chr_writable: writable, ..old(self)@ }),
    {
        self.chr_writable = writable;
    }

    pub fn mirroring_type(&self) -> (mirroring_type: MirroringType)
        ensures
            mirroring_type == self@.mirroring_type,
    {
        self.mirroring_type
    }

    pub fn perform_prg_read(&self, address: u16) -> (data: u8)
        requires
            self.wf(),
        ensures
            data == self@.prg_read(address),
    {
        self.prg_data[(address as usize) % self.prg_data.len()]
    }

    pub fn perform_chr_read(&self, address: u16) -> (data: u8)
        requires
            self.wf(),
        ensures
            data == self@.chr_read(address),
    {
        self.chr_data[(address as usize) % self.chr_data.len()]
    }

    /// The colour of pixel (`x`, `y`) of the tile at `tile_address`; `y`
    /// may run past the tile into the tiles that follow it.
    pub fn get_tile(&self, tile_address: u16, x: u8, y: u8) -> (color: u8)
        requires
            self.wf(),
            x < 8,
            tile_address + y + 8 <= u16::MAX,
        ensures
            color == self@.tile_color(tile_address, x, y),
            color < 4,
    {
        let plane0 = self.perform_chr_read(tile_address + y as u16);
        let plane1 = self.perform_chr_read(tile_address + y as u16 + 8);
        assert(((plane0 >> x) & 1u8) | (((plane1 >> x) & 1u8) << 1u8) < 4u8) by (bit_vector);
        ((plane0 >> x) & 1) | (((plane1 >> x) & 1) << 1u8)
    }

    pub fn perform_chr_write(&mut self, address: u16, data: u8)
        requires
            old(self).wf(),
        ensures
            final(self).wf(),
            final(self)@ == old(self)@.chr_write(address, data),
    {
        if self.chr_writable {
            let length = self.chr_data.len();
            self.chr_data[(address as usize) % length] = data;
        }
    }
}

} // verus!
