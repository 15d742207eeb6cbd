use cartridge::ines::{Error, Ines, VramLayout};

/// A well-formed image: header, optional trainer (byte 6 bit 2), program
/// data, graphics data, each region filled with a recognisable pattern.
fn build_rom(prg_chunks: u8, chr_chunks: u8, byte6: u8, byte7: u8) -> Vec<u8> {
    let mut data = vec![0x4E, 0x45, 0x53, 0x1A, prg_chunks, chr_chunks, byte6, byte7];
    data.resize(16, 0);
    if byte6 & 0b100 != 0 {
        for i in 0..512usize {
            data.push((i % 251) as u8);
        }
    }
    for i in 0..(prg_chunks as usize) * 16384 {
        data.push((i % 7) as u8);
    }
    for i in 0..(chr_chunks as usize) * 8192 {
        data.push((i % 11) as u8);
    }
    data
}

#[test]
fn sizes_are_chunk_multiples() {
    let rom = build_rom(2, 1, 0, 0);
    let c = match Ines::from_bytes(&rom) {
        Ok(c) => c,
        Err(_) => panic!("valid image rejected"),
    };
    assert_eq!(c.header.prg_rom_size, 2 * 16384);
    assert_eq!(c.header.chr_rom_size, 8192);
    assert_eq!(c.prg_rom.as_slice().len(), 2 * 16384);
    let chr = c.chr_rom.as_ref().expect("graphics region missing");
    assert_eq!(chr.as_slice().len(), 8192);
}

#[test]
fn mapper_number_combines_nibbles() {
    let rom = build_rom(0, 0, 0x10, 0x02);
    let c = Ines::from_bytes(&rom).ok().expect("valid image rejected");
    assert_eq!(c.header.mapper_number, 0x21);
    assert_eq!(c.header.mapper_number, 33);
}

#[test]
fn four_screen_overrides_bit0() {
    let rom = build_rom(0, 0, 0b0000_1000, 0);
    let c = Ines::from_bytes(&rom).ok().unwrap();
    assert_eq!(c.header.vram_layout, VramLayout::FourScreen);
    let rom = build_rom(0, 0, 0b0000_1001, 0);
    let c = Ines::from_bytes(&rom).ok().unwrap();
    assert_eq!(c.header.vram_layout, VramLayout::FourScreen);
}

#[test]
fn mirroring_from_bit0() {
    let rom = build_rom(0, 0, 0b0000_0001, 0);
    let c = Ines::from_bytes(&rom).ok().unwrap();
    assert_eq!(c.header.vram_layout, VramLayout::VerticalMirroring);
    let rom = build_rom(0, 0, 0b0000_0000, 0);
    let c = Ines::from_bytes(&rom).ok().unwrap();
    assert_eq!(c.header.vram_layout, VramLayout::HorizontalMirroring);
}

#[test]
fn persistent_memory_flag() {
    let rom = build_rom(0, 0, 0b0000_0010, 0);
    let c = Ines::from_bytes(&rom).ok().unwrap();
    assert!(c.header.has_persistent_memory);
    let rom = build_rom(0, 0, 0, 0);
    let c = Ines::from_bytes(&rom).ok().unwrap();
    assert!(!c.header.has_persistent_memory);
}

#[test]
fn trainer_region_at_offset_16() {
    let rom = build_rom(1, 0, 0b0000_0100, 0);
    let c = Ines::from_bytes(&rom).ok().unwrap();
    let trainer = c.trainer.as_ref().expect("trainer missing");
    assert_eq!(trainer.as_slice().len(), 512);
    assert_eq!(trainer.as_slice(), &rom[16..16 + 512]);
    let rom = build_rom(1, 0, 0, 0);
    let c = Ines::from_bytes(&rom).ok().unwrap();
    assert!(c.trainer.is_none());
}

#[test]
fn bad_signature_all_zeros() {
    let rom = vec![0u8; 16];
    match Ines::from_bytes(&rom) {
        Err(Error::MagicBytesMismatch(m)) => assert_eq!(m, [0, 0, 0, 0]),
        _ => panic!("expected a signature mismatch"),
    }
}

#[test]
fn bad_signature_beats_short_input() {
    let rom = vec![1u8, 2, 3, 4, 5];
    match Ines::from_bytes(&rom) {
        Err(Error::MagicBytesMismatch(m)) => assert_eq!(m, [1, 2, 3, 4]),
        _ => panic!("expected a signature mismatch"),
    }
}

#[test]
fn truncated_buffer_is_an_error() {
    let mut rom = build_rom(1, 0, 0, 0);
    rom.truncate(100);
    assert!(matches!(Ines::from_bytes(&rom), Err(Error::TruncatedInput)));
    let rom = vec![0x4Eu8, 0x45];
    assert!(matches!(Ines::from_bytes(&rom), Err(Error::TruncatedInput)));
}

#[test]
fn empty_regions_parse() {
    let rom = build_rom(0, 0, 0, 0);
    let c = Ines::from_bytes(&rom).ok().unwrap();
    assert_eq!(c.prg_rom.as_slice().len(), 0);
    assert!(c.chr_rom.is_none());
    assert!(c.trainer.is_none());
}

#[test]
fn stream_parse_matches_buffer_parse() {
    let rom = build_rom(1, 1, 0b0000_0111, 0x35);
    let from_buffer = Ines::from_bytes(&rom).ok().expect("buffer parse failed");
    let mut stream: &[u8] = &rom;
    let from_stream = Ines::from_reader(&mut stream).ok().expect("stream parse failed");

    assert_eq!(from_buffer.header.prg_rom_size, from_stream.header.prg_rom_size);
    assert_eq!(from_buffer.header.chr_rom_size, from_stream.header.chr_rom_size);
    assert_eq!(from_buffer.header.vram_layout, from_stream.header.vram_layout);
    assert_eq!(from_buffer.header.has_persistent_memory, from_stream.header.has_persistent_memory);
    assert_eq!(from_buffer.header.has_trainer, from_stream.header.has_trainer);
    assert_eq!(from_buffer.header.mapper_number, from_stream.header.mapper_number);

    assert_eq!(from_buffer.prg_rom.as_slice(), from_stream.prg_rom.as_slice());
    assert_eq!(
        from_buffer.trainer.as_ref().unwrap().as_slice(),
        from_stream.trainer.as_ref().unwrap().as_slice()
    );
    assert_eq!(
        from_buffer.chr_rom.as_ref().unwrap().as_slice(),
        from_stream.chr_rom.as_ref().unwrap().as_slice()
    );
}

#[test]
fn stream_regions_hold_stream_bytes() {
    let rom = build_rom(1, 1, 0, 0);
    let mut stream: &[u8] = &rom;
    let c = Ines::from_reader(&mut stream).ok().expect("stream parse failed");
    assert_eq!(c.prg_rom.as_slice(), &rom[16..16 + 16384]);
    assert_eq!(c.chr_rom.as_ref().unwrap().as_slice(), &rom[16 + 16384..16 + 16384 + 8192]);
}

#[test]
fn stream_short_read_is_io_error() {
    let rom = build_rom(1, 0, 0, 0);
    let mut stream: &[u8] = &rom[..100];
    assert!(matches!(Ines::from_reader(&mut stream), Err(Error::Io(_))));
    let mut empty: &[u8] = &[];
    assert!(matches!(Ines::from_reader(&mut empty), Err(Error::Io(_))));
}

#[test]
fn stream_bad_signature() {
    let rom = vec![0u8; 16];
    let mut stream: &[u8] = &rom;
    match Ines::from_reader(&mut stream) {
        Err(Error::MagicBytesMismatch(m)) => assert_eq!(m, [0, 0, 0, 0]),
        _ => panic!("expected a signature mismatch"),
    }
}
