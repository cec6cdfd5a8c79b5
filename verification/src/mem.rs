//! The memory bus: every 16-bit address resolves to exactly one target, and
//! loads and stores are routed to it.
//!
//! | Range             | Target                                  |
//! |-------------------|-----------------------------------------|
//! | `0xFFFF`          | interrupt-enable register               |
//! | `0xFF80..=0xFFFE` | high RAM                                |
//! | `0xFF4C..=0xFF7F` | unusable                                |
//! | `0xFF00..=0xFF4B` | I/O registers                           |
//! | `0xFEA0..=0xFEFF` | unusable                                |
//! | `0xFE00..=0xFE9F` | sprite attribute memory                 |
//! | `0xE000..=0xFDFF` | echo of working RAM                     |
//! | `0xC000..=0xDFFF` | working RAM                             |
//! | `0xA000..=0xBFFF` | cartridge RAM                           |
//! | `0x8000..=0x9FFF` | video RAM                               |
//! | `0x0000..=0x7FFF` | cartridge program image                 |

use crate::bits::{high, high_byte, low, low_byte, word, wrap16};
use crate::gpu::{GpuView, GPU};
use crate::io::{port_read, port_write, IoPorts};
use crate::rom::{zeros, CartView, GameROM};
use vstd::prelude::*;

verus! {

/// Where an address leads: a target and, where the target is a buffer, the
/// offset into it.
#[derive(Clone, Copy, Debug, PartialEq, Eq, Structural)]
pub enum Target {
    /// The cartridge's program image, by address.
    Rom(u16),
    /// Video RAM, by offset.
    VideoRam(u16),
    /// Cartridge RAM, by offset.
    CartRam(u16),
    /// Working RAM, by offset; the echo range leads here too.
    WorkRam(u16),
    /// Sprite attribute memory, by offset.
    SpriteRam(u16),
    /// An I/O register, by the low byte of its address.
    Io(u8),
    /// High RAM, by offset.
    HighRam(u16),
    /// A reserved range: loads give `0xFF`, stores are dropped.
    Unusable,
    /// The interrupt-enable register: loads give `0xFF`, stores are dropped.
    InterruptEnable,
}

/// The target of each address.
pub open spec fn target_of(addr: u16) -> Target {
    if addr == 0xFFFF {
        Target::InterruptEnable
    } else if addr >= 0xFF80 {
        Target::HighRam((addr - 0xFF80) as u16)
    } else if addr >= 0xFF4C {
        Target::Unusable
    } else if addr >= 0xFF00 {
        Target::Io(low_byte(addr))
    } else if addr >= 0xFEA0 {
        Target::Unusable
    } else if addr >= 0xFE00 {
        Target::SpriteRam((addr - 0xFE00) as u16)
    } else if addr >= 0xE000 {
        Target::WorkRam((addr - 0xE000) as u16)
    } else if addr >= 0xC000 {
        Target::WorkRam((addr - 0xC000) as u16)
    } else if addr >= 0xA000 {
        Target::CartRam((addr - 0xA000) as u16)
    } else if addr >= 0x8000 {
        Target::VideoRam((addr - 0x8000) as u16)
    } else {
        Target::Rom(addr)
    }
}

/// A target that keeps what is stored in it, so that a load gives back the
/// byte last stored.
pub open spec fn keeps_stores(t: Target) -> bool {
    match t {
        Target::Rom(_) => false,
        Target::Unusable => false,
        Target::InterruptEnable => false,
        _ => true,
    }
}

/// The address after `addr`; the address space wraps around.
pub open spec fn next_addr(addr: u16) -> u16 {
    wrap16(addr + 1)
}

/// Resolves an address to its target.
pub fn resolve(ptr: u16) -> (t: Target)
    ensures
        t == target_of(ptr),
{
    match ptr {
        0xFFFF => Target::InterruptEnable,
        0xFF80..=0xFFFE => Target::HighRam(ptr - 0xFF80),
        0xFF4C..=0xFF7F => Target::Unusable,
        0xFF00..=0xFF4B => Target::Io(low(ptr)),
        0xFEA0..=0xFEFF => Target::Unusable,
        0xFE00..=0xFE9F => Target::SpriteRam(ptr - 0xFE00),
        0xE000..=0xFDFF => Target::WorkRam(ptr - 0xE000),
        0xC000..=0xDFFF => Target::WorkRam(ptr - 0xC000),
        0xA000..=0xBFFF => Target::CartRam(ptr - 0xA000),
        0x8000..=0x9FFF => Target::VideoRam(ptr - 0x8000),
        0x0000..=0x7FFF => Target::Rom(ptr),
    }
}

/// The memory bus with the buffers it owns and the subsystems it routes to.
pub struct GBMemory {
    pub rom: GameROM,
    pub ram: [u8; 8192],
    pub high_ram: [u8; 127],
    pub gpu: GPU,
    pub io: IoPorts,
}

/// Everything reachable over the bus, as sequences of bytes.
#[verifier::ext_equal]
pub struct BusView {
    pub rom: CartView,
    pub gpu: GpuView,
    pub io: Seq<u8>,
    pub ram: Seq<u8>,
    pub high_ram: Seq<u8>,
}

impl BusView {
    /// Every buffer has its full size.
    pub open spec fn wf(self) -> bool {
        &&& self.rom.wf()
        &&& self.gpu.wf()
        &&& self.io.len() == 76
        &&& self.ram.len() == 8192
        &&& self.high_ram.len() == 127
    }

    /// The byte that a load from `addr` returns.
    pub open spec fn read(self, addr: u16) -> u8 {
        match target_of(addr) {
            Target::Rom(a) => self.rom.read(a),
            Target::VideoRam(i) => self.gpu.vram[i as int],
            Target::CartRam(i) => self.rom.read_ram(i),
            Target::WorkRam(i) => self.ram[i as int],
            Target::SpriteRam(i) => self.gpu.oam[i as int],
            Target::Io(r) => port_read(self.io, r),
            Target::HighRam(i) => self.high_ram[i as int],
            Target::Unusable => 0xFF,
            Target::InterruptEnable => 0xFF,
        }
    }

    /// The bus after `val` is stored at `addr`.
    pub open spec fn write(self, addr: u16, val: u8) -> BusView {
        match target_of(addr) {
            Target::Rom(a) => BusView { rom: self.rom.write(a, val), ..self },
            Target::VideoRam(i) => BusView {
                gpu: GpuView { vram: self.gpu.vram.update(i as int, val), ..self.gpu },
                ..self
            },
            Target::CartRam(i) => BusView { rom: self.rom.write_ram(i, val), ..self },
            Target::WorkRam(i) => BusView { ram: self.ram.update(i as int, val), ..self },
            Target::SpriteRam(i) => BusView {
                gpu: GpuView { oam: self.gpu.oam.update(i as int, val), ..self.gpu },
                ..self
            },
            Target::Io(r) => BusView { io: port_write(self.io, r, val), ..self },
            Target::HighRam(i) => BusView { high_ram: self.high_ram.update(i as int, val), ..self },
            Target::Unusable => self,
            Target::InterruptEnable => self,
        }
    }

    /// The little-endian word at `addr`: the low byte from `addr`, the high
    /// byte from the address after it.
    pub open spec fn read_short(self, addr: u16) -> u16 {
        word(self.read(next_addr(addr)), self.read(addr))
    }

    /// The bus after the word `val` is stored at `addr`: first its low byte
    /// at `addr`, then its high byte at the address after it.
    pub open spec fn write_short(self, addr: u16, val: u16) -> BusView {
        self.write(addr, low_byte(val)).write(next_addr(addr), high_byte(val))
    }
}

impl View for GBMemory {
    type V = BusView;

    open spec fn view(&self) -> BusView {
        BusView {
            rom: self.rom@,
            gpu: self.gpu@,
            io: self.io@,
            ram: self.ram@,
            high_ram: self.high_ram@,
        }
    }
}

impl GBMemory {
    /// The view of a bus is always well formed.
    pub proof fn lemma_view_wf(self)
        ensures
            self@.wf(),
    {
    }

    /// Reads a byte. Every address gives a byte; the reserved ranges and the
    /// interrupt-enable register give `0xFF`.
    pub fn read(&self, ptr: u16) -> (value: u8)
        ensures
            value == self@.read(ptr),
    {
        match resolve(ptr) {
            Target::InterruptEnable => 0xFF,
            Target::HighRam(i) => self.high_ram[i as usize],
            Target::Unusable => 0xFF,
            Target::Io(r) => self.io.read(r),
            Target::SpriteRam(i) => self.gpu.oam[i as usize],
            Target::WorkRam(i) => self.ram[i as usize],
            Target::CartRam(i) => self.rom.read_ram(i),
            Target::VideoRam(i) => self.gpu.vram[i as usize],
            Target::Rom(a) => self.rom.read(a),
        }
    }

    /// Writes a byte. A store to a reserved range or to the interrupt-enable
    /// register is dropped.
    pub fn write(&mut self, ptr: u16, val: u8)
        ensures
            final(self)@ == old(self)@.write(ptr, val),
    {
        match resolve(ptr) {
            Target::InterruptEnable => {},
            Target::HighRam(i) => {
                self.high_ram[i as usize] = val;
            },
            Target::Unusable => {},
            Target::Io(r) => {
                self.io.write(r, val);
            },
            Target::SpriteRam(i) => {
                self.gpu.oam[i as usize] = val;
            },
            Target::WorkRam(i) => {
                self.ram[i as usize] = val;
            },
            Target::CartRam(i) => {
                self.rom.write_ram(i, val);
            },
            Target::VideoRam(i) => {
                self.gpu.vram[i as usize] = val;
            },
            Target::Rom(a) => {
                self.rom.write(a, val);
            },
        }
    }

    /// Reads a little-endian word.
    pub fn read_short(&self, ptr: u16) -> (value: u16)
        ensures
            value == self@.read_short(ptr),
            value == self@.read(ptr) + 256 * self@.read(next_addr(ptr)),
    {
        let lo: u8 = self.read(ptr);
        let hi: u8 = self.read(ptr.wrapping_add(1));
        crate::bits::join(hi, lo)
    }

    /// Writes a little-endian word as two byte stores, the low byte first.
    pub fn write_short(&mut self, ptr: u16, val: u16)
        ensures
            final(self)@ == old(self)@.write_short(ptr, val),
    {
        self.write(ptr, low(val));
        self.write(ptr.wrapping_add(1), high(val));
    }

    /// A bus around the given cartridge, with every byte of working RAM,
    /// high RAM, video memory and the I/O registers zero.
    pub fn build(rom: GameROM) -> (mem: GBMemory)
        ensures
            mem@ == (BusView {
                rom: rom@,
                gpu: GpuView { vram: zeros(8192), oam: zeros(160) },
                io: zeros(76),
                ram: zeros(8192),
                high_ram: zeros(127),
            }),
    {
        GBMemory {
            rom,
            ram: [0u8; 8192],
            high_ram: [0u8; 127],
            gpu: GPU::build(),
            io: IoPorts::build(),
        }
    }
}

/// An offset lies inside the buffer that its target names.
pub open spec fn in_bounds(t: Target) -> bool {
    match t {
        Target::Rom(a) => a < 0x8000,
        Target::VideoRam(i) => i < 8192,
        Target::CartRam(i) => i < 8192,
        Target::WorkRam(i) => i < 8192,
        Target::SpriteRam(i) => i < 160,
        Target::Io(r) => r < 76,
        Target::HighRam(i) => i < 127,
        Target::Unusable => true,
        Target::InterruptEnable => true,
    }
}

/// Every address leads to a target inside its buffer.
pub proof fn lemma_targets_in_bounds(addr: u16)
    ensures
        in_bounds(target_of(addr)),
{
}

/// Every byte of every buffer, and each of the two targets without a buffer,
/// has an address that leads to it.
pub proof fn lemma_every_target_has_an_address(t: Target)
    requires
        in_bounds(t),
    ensures
        exists|a: u16| target_of(a) == t,
{
    match t {
        Target::Rom(a) => {
            assert(target_of(a) == t);
        },
        Target::VideoRam(i) => {
            assert(target_of((0x8000 + i) as u16) == t);
        },
        Target::CartRam(i) => {
            assert(target_of((0xA000 + i) as u16) == t);
        },
        Target::WorkRam(i) => {
            assert(target_of((0xC000 + i) as u16) == t);
        },
        Target::SpriteRam(i) => {
            assert(target_of((0xFE00 + i) as u16) == t);
        },
        Target::Io(r) => {
            assert(target_of((0xFF00 + r) as u16) == t);
        },
        Target::HighRam(i) => {
            assert(target_of((0xFF80 + i) as u16) == t);
        },
        Target::Unusable => {
            assert(target_of(0xFEA0) == t);
        },
        Target::InterruptEnable => {
            assert(target_of(0xFFFF) == t);
        },
    }
}

/// Working RAM and its echo are the same bytes: for an address of working
/// RAM that the echo covers, a load from the address and from its mirror
/// agree, a store to either is the same store, and a byte stored through one
/// is read back through the other.
pub proof fn lemma_echo_mirrors_work_ram(bus: BusView, addr: u16, val: u8)
    requires
        bus.wf(),
        0xC000 <= addr <= 0xDDFF,
    ensures
        target_of((addr + 0x2000) as u16) == target_of(addr),
        bus.read((addr + 0x2000) as u16) == bus.read(addr),
        bus.write((addr + 0x2000) as u16, val) == bus.write(addr, val),
        bus.write(addr, val).read((addr + 0x2000) as u16) == val,
        bus.write((addr + 0x2000) as u16, val).read(addr) == val,
{
}

/// The reserved ranges read as `0xFF` whatever was stored before: a load
/// from such an address gives `0xFF`, a store to it changes nothing, and no
/// store anywhere changes what it reads as.
pub proof fn lemma_reserved_reads_ff(bus: BusView, addr: u16, at: u16, val: u8)
    requires
        0xFF4C <= addr <= 0xFF7F || 0xFEA0 <= addr <= 0xFEFF,
    ensures
        bus.read(addr) == 0xFF,
        bus.write(addr, val) == bus,
        bus.write(at, val).read(addr) == 0xFF,
{
}

/// The interrupt-enable register behaves as the reserved ranges do.
pub proof fn lemma_interrupt_enable_reads_ff(bus: BusView, at: u16, val: u8)
    ensures
        bus.read(0xFFFF) == 0xFF,
        bus.write(0xFFFF, val) == bus,
        bus.write(at, val).read(0xFFFF) == 0xFF,
{
}

/// A store keeps the bus well formed.
pub proof fn lemma_write_keeps_wf(bus: BusView, addr: u16, val: u8)
    requires
        bus.wf(),
    ensures
        bus.write(addr, val).wf(),
{
}

/// A byte stored where stores are kept is read back from the same address;
/// a store where they are not kept changes no load from any address. A store
/// to a reserved range or to the interrupt-enable register changes nothing at
/// all.
pub proof fn lemma_read_after_write(bus: BusView, addr: u16, val: u8, other: u16)
    requires
        bus.wf(),
    ensures
        keeps_stores(target_of(addr)) ==> bus.write(addr, val).read(addr) == val,
        !keeps_stores(target_of(addr)) ==> bus.write(addr, val).read(other) == bus.read(other),
        target_of(addr) is Unusable || target_of(addr) is InterruptEnable ==> bus.write(addr, val)
            == bus,
{
}

/// A store into the program image's range is handed to the cartridge, with
/// its address and its byte, and touches nothing else on the bus.
pub proof fn lemma_image_store_reaches_cartridge(bus: BusView, addr: u16, val: u8)
    requires
        addr < 0x8000,
    ensures
        bus.write(addr, val) == (BusView { rom: bus.rom.write(addr, val), ..bus }),
        bus.write(addr, val).rom.selects == bus.rom.selects.push((addr, val)),
        bus.write(addr, val).rom.selects.last() == (addr, val),
        bus.write(addr, val).rom.selects.len() == bus.rom.selects.len() + 1,
        bus.write(addr, val).rom.image == bus.rom.image,
        bus.write(addr, val).rom.ram == bus.rom.ram,
{
}

/// A store does not change what is read through an address with another
/// target.
pub proof fn lemma_read_elsewhere(bus: BusView, addr: u16, val: u8, other: u16)
    requires
        bus.wf(),
        target_of(other) != target_of(addr),
    ensures
        bus.write(addr, val).read(other) == bus.read(other),
{
}

/// A word stored where both of its bytes are kept is read back unchanged.
pub proof fn lemma_word_round_trip(bus: BusView, addr: u16, val: u16)
    requires
        bus.wf(),
        keeps_stores(target_of(addr)),
        keeps_stores(target_of(next_addr(addr))),
    ensures
        bus.write_short(addr, val).read_short(addr) == val,
{
    let second = next_addr(addr);
    let mid = bus.write(addr, low_byte(val));
    lemma_write_keeps_wf(bus, addr, low_byte(val));
    assert(target_of(second) != target_of(addr));
    lemma_read_after_write(bus, addr, low_byte(val), addr);
    lemma_read_after_write(mid, second, high_byte(val), second);
    lemma_read_elsewhere(mid, second, high_byte(val), addr);
}

} // verus!
