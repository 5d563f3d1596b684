use gameboy::error::EmulatorError;
use gameboy::memory::{Access, Memory, Region};

fn unmapped<T>(address: u16) -> Result<T, EmulatorError> {
    Err(EmulatorError::UnmappedAddress { address })
}

fn cartridge() -> Vec<u8> {
    (0..0x8000u32).map(|i| (i % 251) as u8).collect()
}

fn boot_image() -> Vec<u8> {
    (0..0x100u32).map(|i| (255 - i) as u8).collect()
}

#[test]
fn regions_by_address_range() {
    let memory = Memory::new(cartridge(), Vec::new());
    for access in [Access::Read, Access::Write] {
        let route = |addr: u16| memory.get_memory_space_with_addr(addr, access);
        assert_eq!(route(0x0000), Some((Region::CartridgeRom, 0x0000)));
        assert_eq!(route(0x00ff), Some((Region::CartridgeRom, 0x00ff)));
        assert_eq!(route(0x7fff), Some((Region::CartridgeRom, 0x7fff)));
        assert_eq!(route(0x8000), Some((Region::VideoRam, 0x0000)));
        assert_eq!(route(0x9fff), Some((Region::VideoRam, 0x1fff)));
        assert_eq!(route(0xa000), None);
        assert_eq!(route(0xfeff), None);
        assert_eq!(route(0xff00), Some((Region::MappedIo, 0x00)));
        assert_eq!(route(0xff7f), Some((Region::MappedIo, 0x7f)));
        assert_eq!(route(0xff80), Some((Region::ZeroPage, 0x00)));
        assert_eq!(route(0xfffe), Some((Region::ZeroPage, 0x7e)));
        assert_eq!(route(0xffff), None);
    }
}

#[test]
fn the_overlay_takes_reads_below_0x100_and_no_writes() {
    let mut memory = Memory::new(cartridge(), boot_image());
    let read = Access::Read;
    let write = Access::Write;
    assert_eq!(memory.get_memory_space_with_addr(0x0000, read), Some((Region::BootRom, 0x0000)));
    assert_eq!(memory.get_memory_space_with_addr(0x00ff, read), Some((Region::BootRom, 0x00ff)));
    assert_eq!(memory.get_memory_space_with_addr(0x0100, read), Some((Region::CartridgeRom, 0x0100)));
    assert_eq!(memory.get_memory_space_with_addr(0x0000, write), Some((Region::CartridgeRom, 0x0000)));
    assert_eq!(memory.get_memory_space_with_addr(0x00ff, write), Some((Region::CartridgeRom, 0x00ff)));
    memory.disable_boot_overlay();
    assert_eq!(memory.get_memory_space_with_addr(0x0000, read), Some((Region::CartridgeRom, 0x0000)));
    assert_eq!(memory.get_memory_space_with_addr(0x00ff, read), Some((Region::CartridgeRom, 0x00ff)));
}

#[test]
fn ram_regions_start_zeroed() {
    let memory = Memory::new(cartridge(), boot_image());
    for addr in [0x8000u16, 0x9123, 0x9fff, 0xff00, 0xff7f, 0xff80, 0xfffe] {
        assert_eq!(memory.read_u8(addr), Ok(0), "address {:#x}", addr);
    }
}

#[test]
fn every_region_stores_what_is_written() {
    let mut memory = Memory::new(cartridge(), Vec::new());
    for (i, addr) in [0x0000u16, 0x7fff, 0x8000, 0x9fff, 0xff00, 0xff7f, 0xff80, 0xfffe]
        .into_iter()
        .enumerate()
    {
        let value = 0xa0 + i as u8;
        assert_eq!(memory.write_u8(addr, value), Ok(()));
        assert_eq!(memory.read_u8(addr), Ok(value));
    }
    assert_eq!(memory.read_u8(0x0000), Ok(0xa0));
    assert_eq!(memory.read_u8(0x8000), Ok(0xa2));
    assert_eq!(memory.read_u8(0xff00), Ok(0xa4));
    assert_eq!(memory.read_u8(0xff80), Ok(0xa6));
}

#[test]
fn a_write_changes_no_other_address() {
    let mut memory = Memory::new(cartridge(), Vec::new());
    assert_eq!(memory.write_u8(0x8001, 0x77), Ok(()));
    assert_eq!(memory.read_u8(0x8000), Ok(0));
    assert_eq!(memory.read_u8(0x8002), Ok(0));
    assert_eq!(memory.read_u8(0x0001), Ok(1));
    assert_eq!(memory.read_u8(0xff81), Ok(0));
}

#[test]
fn unmapped_addresses_are_errors() {
    let mut memory = Memory::new(cartridge(), boot_image());
    for addr in [0xa000u16, 0xc000, 0xdfff, 0xfe00, 0xfeff, 0xffff] {
        assert_eq!(memory.read_u8(addr), unmapped(addr));
        assert_eq!(memory.write_u8(addr, 1), unmapped(addr));
        assert!(!memory.can_read(addr));
        assert!(!memory.can_write(addr));
    }
}

#[test]
fn an_image_is_mapped_only_as_far_as_it_reaches() {
    let mut memory = Memory::new(vec![1, 2, 3], vec![9, 8]);
    // Under the overlay the boot image answers, and it has two bytes.
    assert_eq!(memory.read_u8(0x0000), Ok(9));
    assert_eq!(memory.read_u8(0x0001), Ok(8));
    assert_eq!(memory.read_u8(0x0002), unmapped(0x0002));
    // Above the overlay the cartridge answers, and it has three bytes.
    assert_eq!(memory.read_u8(0x0100), unmapped(0x0100));
    assert_eq!(memory.write_u8(0x0002, 7), Ok(()));
    assert_eq!(memory.write_u8(0x0003, 7), unmapped(0x0003));
    memory.disable_boot_overlay();
    assert_eq!(memory.read_u8(0x0000), Ok(1));
    assert_eq!(memory.read_u8(0x0002), Ok(7));
    assert_eq!(memory.read_u8(0x0003), unmapped(0x0003));
}

#[test]
fn boot_overlay_answers_reads_below_0x100() {
    let memory = Memory::new(cartridge(), boot_image());
    assert!(memory.boot_overlay_active());
    assert_eq!(memory.read_u8(0x0000), Ok(255));
    assert_eq!(memory.read_u8(0x0010), Ok(239));
    assert_eq!(memory.read_u8(0x00ff), Ok(0));
    // The cartridge shows from 0x0100 on.
    assert_eq!(memory.read_u8(0x0100), Ok((0x100 % 251) as u8));
    assert_eq!(memory.read_u8(0x7fff), Ok((0x7fff % 251) as u8));
}

#[test]
fn no_boot_image_means_no_overlay() {
    let memory = Memory::new(cartridge(), Vec::new());
    assert!(!memory.boot_overlay_active());
    assert_eq!(memory.read_u8(0x0000), Ok(0));
    assert_eq!(memory.read_u8(0x0010), Ok(0x10));
}

#[test]
fn writes_under_the_overlay_go_to_the_cartridge() {
    let mut memory = Memory::new(cartridge(), boot_image());
    assert_eq!(memory.write_u8(0x0010, 0x5a), Ok(()));
    // The overlay still answers the read.
    assert_eq!(memory.read_u8(0x0010), Ok(239));
    memory.disable_boot_overlay();
    assert_eq!(memory.read_u8(0x0010), Ok(0x5a));
}

#[test]
fn disabling_the_overlay_is_permanent_and_idempotent() {
    let mut memory = Memory::new(cartridge(), boot_image());
    memory.disable_boot_overlay();
    assert!(!memory.boot_overlay_active());
    assert_eq!(memory.read_u8(0x0000), Ok(0));
    assert_eq!(memory.read_u8(0x00ff), Ok(0xff % 251));
    memory.disable_boot_overlay();
    assert!(!memory.boot_overlay_active());
    assert_eq!(memory.read_u8(0x0000), Ok(0));
    assert_eq!(memory.read_u8(0x00ff), Ok(0xff % 251));
}

#[test]
fn words_are_little_endian() {
    let mut memory = Memory::new(cartridge(), Vec::new());
    assert_eq!(memory.write_u8(0x8000, 0x34), Ok(()));
    assert_eq!(memory.write_u8(0x8001, 0x12), Ok(()));
    assert_eq!(memory.read_u16(0x8000), Ok(0x1234));

    assert_eq!(memory.write_u16(0xff80, 0xbeef), Ok(()));
    assert_eq!(memory.read_u8(0xff80), Ok(0xef));
    assert_eq!(memory.read_u8(0xff81), Ok(0xbe));
    assert_eq!(memory.read_u16(0xff80), Ok(0xbeef));
}

#[test]
fn a_word_may_span_two_regions() {
    let mut memory = Memory::new(cartridge(), Vec::new());
    assert_eq!(memory.write_u16(0x7fff, 0xa1b2), Ok(()));
    assert_eq!(memory.read_u8(0x7fff), Ok(0xb2));
    assert_eq!(memory.read_u8(0x8000), Ok(0xa1));
    assert_eq!(memory.read_u16(0x7fff), Ok(0xa1b2));
    assert_eq!(memory.write_u16(0xff7f, 0x0102), Ok(()));
    assert_eq!(memory.read_u16(0xff7f), Ok(0x0102));
}

#[test]
fn word_access_names_the_first_unmapped_address() {
    let mut memory = Memory::new(cartridge(), Vec::new());
    assert_eq!(memory.read_u16(0x9fff), unmapped(0xa000));
    assert_eq!(memory.read_u16(0xa000), unmapped(0xa000));
    assert_eq!(memory.read_u16(0xfeff), unmapped(0xfeff));
    assert_eq!(memory.read_u16(0xfffe), unmapped(0xffff));
    // The address after 0xffff is 0x0000.
    assert_eq!(memory.read_u16(0xffff), unmapped(0xffff));
    assert_eq!(memory.write_u16(0x9fff, 0x1234), unmapped(0xa000));
    assert_eq!(memory.write_u16(0xfeff, 0x1234), unmapped(0xfeff));
    assert_eq!(memory.write_u16(0xffff, 0x1234), unmapped(0xffff));
}

#[test]
fn a_failed_word_write_writes_nothing() {
    let mut memory = Memory::new(cartridge(), Vec::new());
    assert_eq!(memory.write_u8(0x9fff, 0x11), Ok(()));
    assert_eq!(memory.write_u16(0x9fff, 0x1234), unmapped(0xa000));
    assert_eq!(memory.read_u8(0x9fff), Ok(0x11));
    assert_eq!(memory.write_u16(0xfffe, 0x1234), unmapped(0xffff));
    assert_eq!(memory.read_u8(0xfffe), Ok(0));
}

#[test]
fn can_read_and_can_write_follow_the_overlay() {
    let memory = Memory::new(vec![0; 0x200], vec![0; 0x10]);
    assert!(memory.can_read(0x000f));
    assert!(!memory.can_read(0x0010));
    assert!(memory.can_write(0x0010));
    assert!(memory.can_read(0x0100));
    assert!(memory.can_read(0x01ff));
    assert!(!memory.can_read(0x0200));
    assert!(!memory.can_write(0x0200));
    assert!(memory.can_read(0xfffe));
    assert!(memory.can_write(0xfffe));
    assert!(memory.is_mapped(0x000f, Access::Read));
    assert!(!memory.is_mapped(0x0010, Access::Read));
    assert!(memory.is_mapped(0x0010, Access::Write));
    assert!(!memory.is_mapped(0xffff, Access::Write));
}

#[test]
fn buffers_have_the_sizes_of_their_regions() {
    let mut memory = Memory::new(cartridge(), boot_image());
    assert_eq!(memory.buffer(Region::BootRom), &boot_image());
    assert_eq!(memory.buffer(Region::CartridgeRom), &cartridge());
    assert_eq!(memory.buffer(Region::VideoRam).len(), 0x2000);
    assert_eq!(memory.buffer(Region::MappedIo).len(), 0x80);
    assert_eq!(memory.buffer(Region::ZeroPage).len(), 0x7f);
    assert_eq!(memory.write_u8(0x8003, 0x42), Ok(()));
    assert_eq!(memory.buffer(Region::VideoRam)[3], 0x42);
    assert_eq!(memory.buffer(Region::VideoRam).len(), 0x2000);
}
