//! The 16-bit address space: a handful of fixed regions, each backed by its
//! own byte buffer, and the boot overlay that hides the start of the cartridge
//! until it is switched off.

use vstd::prelude::*;
use crate::error::EmulatorError;

verus! {

/// The overlay covers the addresses below this one.
pub const BOOT_OVERLAY_END: u16 = 0x0100;

/// The cartridge occupies the addresses below this one.
pub const ROM_END: u16 = 0x8000;

/// The first address of video RAM.
pub const VIDEO_RAM_START: u16 = 0x8000;

/// Video RAM occupies the addresses below this one.
pub const VIDEO_RAM_END: u16 = 0xa000;

/// The first address of the memory-mapped I/O registers. They end where the
/// zero page starts.
pub const MAPPED_IO_START: u16 = 0xff00;

/// The first address of the zero page, the RAM at the top of the address
/// space.
pub const ZERO_PAGE_START: u16 = 0xff80;

/// The last address, `0xffff`, belongs to no region.
pub const ZERO_PAGE_END: u16 = 0xffff;

/// The number of bytes of video RAM.
pub const VIDEO_RAM_SIZE: usize = 0x2000;

/// The number of memory-mapped I/O registers.
pub const MAPPED_IO_SIZE: usize = 0x80;

/// The number of bytes of the zero page.
pub const ZERO_PAGE_SIZE: usize = 0x7f;

/// A backing buffer of the address space.
#[derive(Clone, Copy, Debug, PartialEq, Eq, Structural)]
pub enum Region {
    BootRom,
    CartridgeRom,
    VideoRam,
    MappedIo,
    ZeroPage,
}

/// What an access does with the byte it addresses.
#[derive(Clone, Copy, Debug, PartialEq, Eq, Structural)]
pub enum Access {
    Read,
    Write,
}

/// The region that an address falls in by its range alone, and the offset of
/// the address inside that region. The boot overlay is not a range of its
/// own: it shares the first addresses of the cartridge.
pub open spec fn region_of(addr: u16) -> Option<(Region, u16)> {
    if addr < ROM_END {
        Some((Region::CartridgeRom, addr))
    } else if addr < VIDEO_RAM_END {
        Some((Region::VideoRam, (addr - VIDEO_RAM_START) as u16))
    } else if MAPPED_IO_START <= addr < ZERO_PAGE_START {
        Some((Region::MappedIo, (addr - MAPPED_IO_START) as u16))
    } else if ZERO_PAGE_START <= addr < ZERO_PAGE_END {
        Some((Region::ZeroPage, (addr - ZERO_PAGE_START) as u16))
    } else {
        None
    }
}

/// What the address space holds: the contents of each buffer and the state of
/// the overlay latch.
#[verifier::ext_equal]
pub struct MemoryView {
    pub bootrom: Seq<u8>,
    pub rom: Seq<u8>,
    pub video_ram: Seq<u8>,
    pub mapped_io: Seq<u8>,
    pub zero_page: Seq<u8>,
    pub boot_overlay_active: bool,
}

impl MemoryView {
    /// The address space at power-on: the two images as supplied, the RAM
    /// regions zeroed, and the overlay in place exactly if a boot image was
    /// supplied.
    pub open spec fn initial(rom: Seq<u8>, bootrom: Seq<u8>) -> MemoryView {
        MemoryView {
            bootrom,
            rom,
            video_ram: Seq::new(VIDEO_RAM_SIZE as nat, |i: int| 0u8),
            mapped_io: Seq::new(MAPPED_IO_SIZE as nat, |i: int| 0u8),
            zero_page: Seq::new(ZERO_PAGE_SIZE as nat, |i: int| 0u8),
            boot_overlay_active: bootrom.len() > 0,
        }
    }

    /// The contents of one region.
    pub open spec fn buffer(self, region: Region) -> Seq<u8> {
        match region {
            Region::BootRom => self.bootrom,
            Region::CartridgeRom => self.rom,
            Region::VideoRam => self.video_ram,
            Region::MappedIo => self.mapped_io,
            Region::ZeroPage => self.zero_page,
        }
    }

    /// The address space with one region replaced.
    pub open spec fn with_buffer(self, region: Region, contents: Seq<u8>) -> MemoryView {
        match region {
            Region::BootRom => MemoryView { bootrom: contents, ..self },
            Region::CartridgeRom => MemoryView { rom: contents, ..self },
            Region::VideoRam => MemoryView { video_ram: contents, ..self },
            Region::MappedIo => MemoryView { mapped_io: contents, ..self },
            Region::ZeroPage => MemoryView { zero_page: contents, ..self },
        }
    }

    /// Whether a read of `addr` is intercepted by the boot overlay.
    pub open spec fn shadowed(self, addr: u16) -> bool {
        self.boot_overlay_active && addr < BOOT_OVERLAY_END
    }

    /// The buffer and offset that an access to `addr` goes to. Below the end
    /// of the overlay, and while the overlay is in place, a read and a write
    /// part ways: the read is served from the boot image, the write lands in
    /// the cartridge buffer, since the overlay is read-only.
    pub open spec fn slot(self, addr: u16, access: Access) -> Option<(Region, u16)> {
        if access == Access::Read && self.shadowed(addr) {
            Some((Region::BootRom, addr))
        } else {
            region_of(addr)
        }
    }

    /// Whether an access to `addr` finds a byte: the address falls in a
    /// region, and the region's buffer reaches as far as the address.
    pub open spec fn mapped(self, addr: u16, access: Access) -> bool {
        match self.slot(addr, access) {
            Some((region, offset)) => offset < self.buffer(region).len(),
            None => false,
        }
    }

    /// The byte read from `addr`, or `UnmappedAddress` where no buffer holds
    /// a byte for it.
    pub open spec fn read(self, addr: u16) -> Result<u8, EmulatorError> {
        match self.slot(addr, Access::Read) {
            Some((region, offset)) if offset < self.buffer(region).len() => Ok(
                self.buffer(region)[offset as int],
            ),
            _ => Err(EmulatorError::UnmappedAddress { address: addr }),
        }
    }

    /// The address space after `value` is written to `addr`, or
    /// `UnmappedAddress` where no buffer holds a byte for it.
    pub open spec fn write(self, addr: u16, value: u8) -> Result<MemoryView, EmulatorError> {
        match self.slot(addr, Access::Write) {
            Some((region, offset)) if offset < self.buffer(region).len() => Ok(
                self.with_buffer(region, self.buffer(region).update(offset as int, value)),
            ),
            _ => Err(EmulatorError::UnmappedAddress { address: addr }),
        }
    }

    /// The little-endian word at `addr`: low byte at `addr`, high byte at the
    /// address after it. The error names the first of the two addresses that
    /// cannot be read.
    pub open spec fn read_word(self, addr: u16) -> Result<u16, EmulatorError> {
        match (self.read(addr), self.read(addr.wrapping_add(1))) {
            (Ok(low), Ok(high)) => Ok((high * 256 + low) as u16),
            (Err(e), _) => Err(e),
            (_, Err(e)) => Err(e),
        }
    }

    /// The address space after the little-endian word `value` is written at
    /// `addr`. Either both bytes are written or none: the error names the
    /// first of the two addresses that cannot be written.
    pub open spec fn write_word(self, addr: u16, value: u16) -> Result<MemoryView, EmulatorError> {
        match self.write(addr, (value % 256) as u8) {
            Ok(low_written) => low_written.write(addr.wrapping_add(1), (value / 256) as u8),
            Err(e) => Err(e),
        }
    }

    /// The same contents with the overlay switched off.
    pub open spec fn without_overlay(self) -> MemoryView {
        MemoryView { boot_overlay_active: false, ..self }
    }
}

/// The address space of the console.
#[derive(Debug)]
pub struct Memory {
    bootrom: Vec<u8>,
    rom: Vec<u8>,
    video_ram: Vec<u8>,
    mapped_io: Vec<u8>,
    zero_page: Vec<u8>,
    boot_overlay_active: bool,
}

impl View for Memory {
    type V = MemoryView;

    closed spec fn view(&self) -> MemoryView {
        MemoryView {
            bootrom: self.bootrom@,
            rom: self.rom@,
            video_ram: self.video_ram@,
            mapped_io: self.mapped_io@,
            zero_page: self.zero_page@,
            boot_overlay_active: self.boot_overlay_active,
        }
    }
}

/// Replaces one byte of a buffer, if the buffer reaches that far.
fn store(buffer: &mut Vec<u8>, offset: u16, value: u8) -> (stored: bool)
    ensures
        stored == (offset < old(buffer)@.len()),
        stored ==> final(buffer)@ == old(buffer)@.update(offset as int, value),
        !stored ==> final(buffer)@ == old(buffer)@,
{
    let index: usize = offset as usize;
    if index < buffer.len() {
        buffer.set(index, value);
        true
    } else {
        false
    }
}

impl Memory {
    /// Builds the address space from a cartridge image and a boot image. An
    /// empty boot image means that none was supplied.
    pub fn new(rom: Vec<u8>, bootrom: Vec<u8>) -> (memory: Memory)
        ensures
            memory@ == MemoryView::initial(rom@, bootrom@),
    {
        let boot_overlay_active: bool = bootrom.len() > 0;
        let memory = Memory {
            bootrom,
            rom,
            video_ram: vec![0u8; VIDEO_RAM_SIZE],
            mapped_io: vec![0u8; MAPPED_IO_SIZE],
            zero_page: vec![0u8; ZERO_PAGE_SIZE],
            boot_overlay_active,
        };
        assert(memory@ =~= MemoryView::initial(rom@, bootrom@));
        memory
    }

    /// The bytes of one region, for inspection.
    pub fn buffer(&self, region: Region) -> (buffer: &Vec<u8>)
        ensures
            buffer@ == self@.buffer(region),
    {
        match region {
            Region::BootRom => &self.bootrom,
            Region::CartridgeRom => &self.rom,
            Region::VideoRam => &self.video_ram,
            Region::MappedIo => &self.mapped_io,
            Region::ZeroPage => &self.zero_page,
        }
    }

    /// Routes an access: finds the buffer that serves it and the offset of
    /// the address in that buffer.
    pub fn get_memory_space_with_addr(&self, addr: u16, access: Access) -> (slot: Option<
        (Region, u16),
    >)
        ensures
            slot == self@.slot(addr, access),
    {
        match addr {
            0x0000..=0x7fff => {
                let reading: bool = match access {
                    Access::Read => true,
                    Access::Write => false,
                };
                if reading && self.boot_overlay_active && addr < BOOT_OVERLAY_END {
                    Some((Region::BootRom, addr))
                } else {
                    Some((Region::CartridgeRom, addr))
                }
            },
            0x8000..=0x9fff => Some((Region::VideoRam, addr - VIDEO_RAM_START)),
            0xff00..=0xff7f => Some((Region::MappedIo, addr - MAPPED_IO_START)),
            0xff80..=0xfffe => Some((Region::ZeroPage, addr - ZERO_PAGE_START)),
            _ => None,
        }
    }

    /// Whether an access to `addr` would find a byte.
    pub fn is_mapped(&self, addr: u16, access: Access) -> (mapped: bool)
        ensures
            mapped == self@.mapped(addr, access),
    {
        match self.get_memory_space_with_addr(addr, access) {
            Some((region, offset)) => (offset as usize) < self.buffer(region).len(),
            None => false,
        }
    }

    /// Whether the boot overlay is still in place.
    pub fn boot_overlay_active(&self) -> (active: bool)
        ensures
            active == self@.boot_overlay_active,
    {
        self.boot_overlay_active
    }

    /// Switches the boot overlay off. It cannot be switched on again; on an
    /// address space without overlay this changes nothing.
    pub fn disable_boot_overlay(&mut self)
        ensures
            final(self)@ == old(self)@.without_overlay(),
    {
        self.boot_overlay_active = false;
    }

    /// Reads the byte at `addr`.
    pub fn read_u8(&self, addr: u16) -> (result: Result<u8, EmulatorError>)
        ensures
            result == self@.read(addr),
    {
        match self.get_memory_space_with_addr(addr, Access::Read) {
            Some((region, offset)) => {
                let buffer = self.buffer(region);
                let index: usize = offset as usize;
                if index < buffer.len() {
                    Ok(buffer[index])
                } else {
                    Err(EmulatorError::UnmappedAddress { address: addr })
                }
            },
            None => Err(EmulatorError::UnmappedAddress { address: addr }),
        }
    }

    /// Whether a read of `addr` would find a byte.
    pub fn can_read(&self, addr: u16) -> (readable: bool)
        ensures
            readable == self@.mapped(addr, Access::Read),
            readable == self@.read(addr) is Ok,
    {
        self.is_mapped(addr, Access::Read)
    }

    /// Whether a write to `addr` would find a byte to replace.
    pub fn can_write(&self, addr: u16) -> (writable: bool)
        ensures
            writable == self@.mapped(addr, Access::Write),
            forall|value: u8| writable == #[trigger] self@.write(addr, value) is Ok,
    {
        self.is_mapped(addr, Access::Write)
    }

    /// Reads the little-endian word at `addr`.
    pub fn read_u16(&self, addr: u16) -> (result: Result<u16, EmulatorError>)
        ensures
            result == self@.read_word(addr),
    {
        let low: u8 = self.read_u8(addr)?;
        let high: u8 = self.read_u8(addr.wrapping_add(1))?;
        assert(((high as u16) << 8) | (low as u16) == (high as u16) * 256 + (low as u16))
            by (bit_vector);
        Ok(((high as u16) << 8) | (low as u16))
    }

    /// Writes the little-endian word `value` at `addr`. On an error nothing is
    /// written.
    pub fn write_u16(&mut self, addr: u16, value: u16) -> (result: Result<(), EmulatorError>)
        ensures
            match old(self)@.write_word(addr, value) {
                Ok(written) => result == Ok::<(), EmulatorError>(()) && final(self)@ == written,
                Err(e) => result == Err::<(), EmulatorError>(e) && final(self)@ == old(self)@,
            },
    {
        let next: u16 = addr.wrapping_add(1);
        if self.can_write(addr) && !self.can_write(next) {
            return Err(EmulatorError::UnmappedAddress { address: next });
        }
        assert((value & 0x00ff) == value % 256 && (value >> 8) == value / 256) by (bit_vector);
        self.write_u8(addr, (value & 0x00ff) as u8)?;
        self.write_u8(next, (value >> 8) as u8)
    }

    /// Writes `value` to `addr`. On an error nothing is written.
    pub fn write_u8(&mut self, addr: u16, value: u8) -> (result: Result<(), EmulatorError>)
        ensures
            match old(self)@.write(addr, value) {
                Ok(written) => result == Ok::<(), EmulatorError>(()) && final(self)@ == written,
                Err(e) => result == Err::<(), EmulatorError>(e) && final(self)@ == old(self)@,
            },
    {
        let stored: bool = match self.get_memory_space_with_addr(addr, Access::Write) {
            Some((Region::BootRom, offset)) => store(&mut self.bootrom, offset, value),
            Some((Region::CartridgeRom, offset)) => store(&mut self.rom, offset, value),
            Some((Region::VideoRam, offset)) => store(&mut self.video_ram, offset, value),
            Some((Region::MappedIo, offset)) => store(&mut self.mapped_io, offset, value),
            Some((Region::ZeroPage, offset)) => store(&mut self.zero_page, offset, value),
            None => false,
        };
        if stored {
            Ok(())
        } else {
            Err(EmulatorError::UnmappedAddress { address: addr })
        }
    }
}

} // verus!
