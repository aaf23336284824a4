use inaccunes::cartridge::{Cartridge, MirroringType, RomError};

/// An iNES image with the given header bytes 4 to 6, `prg` bytes of program
/// memory and `chr` bytes of tile memory.
fn image(prg_chunks: u8, chr_chunks: u8, flags: u8, prg: usize, chr: usize) -> Vec<u8> {
    let mut image = vec![0x4E, 0x45, 0x53, 0x1A, prg_chunks, chr_chunks, flags, 0, 0, 0, 0, 0, 0, 0, 0, 0];
    for i in 0..prg {
        image.push((i % 253) as u8);
    }
    for i in 0..chr {
        image.push((i % 247) as u8 ^ 0xFF);
    }
    image
}

#[test]
fn from_ines_reads_program_and_tile_memory() {
    let image = image(1, 1, 0x00, 16384, 8192);
    let cartridge = Cartridge::from_ines(&image).ok().unwrap();
    assert_eq!(cartridge.mirroring_type(), MirroringType::Horizontal);
    assert_eq!(cartridge.perform_prg_read(0x8000), 0);
    assert_eq!(cartridge.perform_prg_read(0x8001), 1);
    assert_eq!(cartridge.perform_prg_read(0xBFFF), (16383 % 253) as u8);
    assert_eq!(cartridge.perform_prg_read(0xC000), 0);
    assert_eq!(cartridge.perform_chr_read(0x0000), 0xFF);
    assert_eq!(cartridge.perform_chr_read(0x0001), 0xFE);
    assert_eq!(cartridge.perform_chr_read(0x1FFF), (8191 % 247) as u8 ^ 0xFF);
    assert_eq!(cartridge.perform_chr_read(0x2000), 0xFF);
}

#[test]
fn from_ines_reads_two_chunks_of_program_memory() {
    let image = image(2, 1, 0x01, 32768, 8192);
    let cartridge = Cartridge::from_ines(&image).ok().unwrap();
    assert_eq!(cartridge.mirroring_type(), MirroringType::Vertical);
    assert_eq!(cartridge.perform_prg_read(0x8000), 0);
    assert_eq!(cartridge.perform_prg_read(0xC000), (16384 % 253) as u8);
    assert_eq!(cartridge.perform_prg_read(0xFFFF), (32767 % 253) as u8);
    assert_eq!(cartridge.perform_prg_read(0x0000), 0);
    assert_eq!(cartridge.perform_chr_read(0x0000), 0xFF);
}

#[test]
fn from_ines_ignores_what_follows_the_tile_memory() {
    let mut image = image(1, 1, 0x00, 16384, 8192);
    image.extend_from_slice(&[1, 2, 3]);
    assert!(Cartridge::from_ines(&image).is_ok());
}

#[test]
fn header_flags_select_the_mirroring() {
    for (flags, mirroring_type) in [
        (0x00u8, MirroringType::Horizontal),
        (0x01, MirroringType::Vertical),
        (0x08, MirroringType::FourScreen),
        (0x09, MirroringType::FourScreen),
    ] {
        let image = image(1, 1, flags, 16384, 8192);
        assert_eq!(Cartridge::from_ines(&image).ok().unwrap().mirroring_type(), mirroring_type);
    }
}

#[test]
fn from_ines_rejects_what_it_cannot_run() {
    assert_eq!(Cartridge::from_ines(&[]).err(), Some(RomError::TruncatedHeader));
    assert_eq!(
        Cartridge::from_ines(&[0x4E, 0x45, 0x53, 0x1A, 1, 1, 0, 0, 0, 0, 0, 0, 0, 0, 0]).err(),
        Some(RomError::TruncatedHeader)
    );
    let mut bad_magic = image(1, 1, 0x00, 16384, 8192);
    bad_magic[3] = 0x1B;
    assert_eq!(Cartridge::from_ines(&bad_magic).err(), Some(RomError::NotINes));
    let mut bad_magic = image(1, 1, 0x00, 16384, 8192);
    bad_magic[0] = 0x4F;
    assert_eq!(Cartridge::from_ines(&bad_magic).err(), Some(RomError::NotINes));
    assert_eq!(Cartridge::from_ines(&image(1, 1, 0x02, 16384, 8192)).err(), Some(RomError::SaveRam));
    assert_eq!(Cartridge::from_ines(&image(1, 1, 0x04, 16384, 8192)).err(), Some(RomError::Trainer));
    // Battery RAM is looked at before the trainer, the trainer before the mapper.
    assert_eq!(Cartridge::from_ines(&image(1, 1, 0x16, 16384, 8192)).err(), Some(RomError::SaveRam));
    assert_eq!(Cartridge::from_ines(&image(1, 1, 0x14, 16384, 8192)).err(), Some(RomError::Trainer));
    assert_eq!(
        Cartridge::from_ines(&image(1, 1, 0x10, 16384, 8192)).err(),
        Some(RomError::UnknownMapper(1))
    );
    assert_eq!(
        Cartridge::from_ines(&image(1, 1, 0xF1, 16384, 8192)).err(),
        Some(RomError::UnknownMapper(15))
    );
    assert_eq!(Cartridge::from_ines(&image(0, 1, 0x00, 0, 8192)).err(), Some(RomError::NoPrgData));
    assert_eq!(Cartridge::from_ines(&image(1, 0, 0x00, 16384, 0)).err(), Some(RomError::NoChrData));
    assert_eq!(Cartridge::from_ines(&image(1, 1, 0x00, 16383, 0)).err(), Some(RomError::TruncatedPrg));
    assert_eq!(Cartridge::from_ines(&image(2, 1, 0x00, 16384, 8192)).err(), Some(RomError::TruncatedPrg));
    assert_eq!(Cartridge::from_ines(&image(1, 1, 0x00, 16384, 8191)).err(), Some(RomError::TruncatedChr));
    assert_eq!(Cartridge::from_ines(&image(1, 2, 0x00, 16384, 8192)).err(), Some(RomError::TruncatedChr));
}

#[test]
fn from_parts_wants_both_memories() {
    assert!(Cartridge::from_parts(MirroringType::Vertical, vec![], vec![1]).is_none());
    assert!(Cartridge::from_parts(MirroringType::Vertical, vec![1], vec![]).is_none());
    let cartridge = Cartridge::from_parts(MirroringType::Vertical, vec![7, 8, 9], vec![1, 2]).unwrap();
    assert_eq!(cartridge.mirroring_type(), MirroringType::Vertical);
    assert_eq!(cartridge.perform_prg_read(0), 7);
    assert_eq!(cartridge.perform_prg_read(4), 8);
    // 0xFFFF = 3 * 21845
    assert_eq!(cartridge.perform_prg_read(0xFFFF), 7);
    assert_eq!(cartridge.perform_chr_read(0), 1);
    assert_eq!(cartridge.perform_chr_read(0x1FFF), 2);
}

#[test]
fn tile_memory_is_read_only_unless_told_otherwise() {
    let mut cartridge = Cartridge::from_parts(MirroringType::Vertical, vec![0], vec![1, 2, 3, 4]).unwrap();
    cartridge.perform_chr_write(1, 0xAA);
    assert_eq!(cartridge.perform_chr_read(1), 2);
    cartridge.set_chr_writable(true);
    cartridge.perform_chr_write(1, 0xAA);
    cartridge.perform_chr_write(6, 0xBB);
    assert_eq!(cartridge.perform_chr_read(0), 1);
    assert_eq!(cartridge.perform_chr_read(1), 0xAA);
    assert_eq!(cartridge.perform_chr_read(2), 0xBB);
    assert_eq!(cartridge.perform_chr_read(3), 4);
    cartridge.set_chr_writable(false);
    cartridge.perform_chr_write(1, 0xCC);
    assert_eq!(cartridge.perform_chr_read(1), 0xAA);
}

#[test]
fn get_tile_combines_two_planes() {
    let mut chr = vec![0u8; 8192];
    // tile at 0x0020: row 2 is 0b1010_0101 in plane 0 and 0b1100_0011 in plane 1
    chr[0x22] = 0b1010_0101;
    chr[0x2A] = 0b1100_0011;
    // the tile behind it: row 1
    chr[0x31] = 0x80;
    let cartridge = Cartridge::from_parts(MirroringType::Vertical, vec![0], chr).unwrap();
    let row: Vec<u8> = (0..8).map(|x| cartridge.get_tile(0x0020, x, 2)).collect();
    // pixel x takes bit x of each plane
    assert_eq!(row, vec![3, 2, 1, 0, 0, 1, 2, 3]);
    assert_eq!(cartridge.get_tile(0x0020, 0, 0), 0);
    // row 17 of the tile at 0x0020 is row 1 of the tile at 0x0030
    assert_eq!(cartridge.get_tile(0x0020, 7, 17), 1);
    assert_eq!(cartridge.get_tile(0x0030, 7, 1), 1);
    assert_eq!(cartridge.get_tile(0x0030, 6, 1), 0);
}
