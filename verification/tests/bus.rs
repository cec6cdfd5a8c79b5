use gb_core::gpu::GPU;
use gb_core::io::IoPorts;
use gb_core::mem::{resolve, GBMemory, Target};
use gb_core::rom::GameROM;

fn blank_bus() -> GBMemory {
    GBMemory::build(GameROM::build(vec![0x00, 0xC3, 0x50, 0x01]))
}

#[test]
fn echo_reads_what_work_ram_holds() {
    let mut bus = blank_bus();
    bus.write(0xC010, 0x42);
    assert_eq!(bus.read(0xE010), 0x42);
}

#[test]
fn work_ram_reads_what_echo_holds() {
    let mut bus = blank_bus();
    bus.write(0xE010, 0x99);
    assert_eq!(bus.read(0xC010), 0x99);
    assert_eq!(bus.ram[0x10], 0x99);
}

#[test]
fn echo_mirrors_every_address_it_covers() {
    let mut bus = blank_bus();
    for addr in 0xC000u16..=0xDDFF {
        let val = (addr as u8) ^ (addr >> 8) as u8 ^ 0x5A;
        bus.write(addr, val);
        assert_eq!(bus.read(addr + 0x2000), val);
        let other = val.wrapping_add(1);
        bus.write(addr + 0x2000, other);
        assert_eq!(bus.read(addr), other);
    }
}

#[test]
fn echo_ends_below_sprite_memory() {
    let mut bus = blank_bus();
    bus.write(0xDE00, 0x11);
    assert_eq!(bus.read(0xDE00), 0x11);
    assert_eq!(bus.read(0xFE00), 0x00);
    bus.write(0xFDFF, 0x22);
    assert_eq!(bus.read(0xDDFF), 0x22);
    bus.write(0xE000, 0x33);
    assert_eq!(bus.read(0xC000), 0x33);
}

#[test]
fn reserved_ranges_read_ff() {
    let mut bus = blank_bus();
    for addr in (0xFF4Cu16..=0xFF7F).chain(0xFEA0..=0xFEFF) {
        assert_eq!(bus.read(addr), 0xFF);
        bus.write(addr, 0x12);
        assert_eq!(bus.read(addr), 0xFF);
    }
}

#[test]
fn stores_elsewhere_leave_reserved_ranges() {
    let mut bus = blank_bus();
    for addr in [0x0000u16, 0x8000, 0xA000, 0xC000, 0xE000, 0xFE00, 0xFE9F, 0xFF00, 0xFF4B, 0xFF80] {
        bus.write(addr, 0x34);
    }
    for addr in (0xFF4Cu16..=0xFF7F).chain(0xFEA0..=0xFEFF) {
        assert_eq!(bus.read(addr), 0xFF);
    }
}

#[test]
fn stores_to_reserved_ranges_change_nothing() {
    let mut bus = blank_bus();
    bus.write(0xFE9F, 0x01);
    bus.write(0xFF4B, 0x02);
    bus.write(0xFF80, 0x03);
    bus.write(0xFEA0, 0xAA);
    bus.write(0xFEFF, 0xAA);
    bus.write(0xFF4C, 0xAA);
    bus.write(0xFF7F, 0xAA);
    assert_eq!(bus.read(0xFE9F), 0x01);
    assert_eq!(bus.read(0xFF4B), 0x02);
    assert_eq!(bus.read(0xFF80), 0x03);
    assert!(bus.ram.iter().all(|b| *b == 0));
    assert!(bus.gpu.vram.iter().all(|b| *b == 0));
}

#[test]
fn interrupt_enable_reads_ff() {
    let mut bus = blank_bus();
    assert_eq!(bus.read(0xFFFF), 0xFF);
    bus.write(0xFFFF, 0x1F);
    assert_eq!(bus.read(0xFFFF), 0xFF);
    assert_eq!(bus.read(0xFFFE), 0x00);
}

#[test]
fn high_ram_spans_127_bytes() {
    let mut bus = blank_bus();
    bus.write(0xFF80, 0xA1);
    bus.write(0xFFFE, 0xA2);
    assert_eq!(bus.read(0xFF80), 0xA1);
    assert_eq!(bus.read(0xFFFE), 0xA2);
    assert_eq!(bus.high_ram[0], 0xA1);
    assert_eq!(bus.high_ram[126], 0xA2);
}

#[test]
fn work_ram_spans_8k() {
    let mut bus = blank_bus();
    bus.write(0xC000, 0xB1);
    bus.write(0xDFFF, 0xB2);
    assert_eq!(bus.read(0xC000), 0xB1);
    assert_eq!(bus.read(0xDFFF), 0xB2);
    assert_eq!(bus.ram[0], 0xB1);
    assert_eq!(bus.ram[8191], 0xB2);
}

#[test]
fn video_memory_is_indexed_by_offset() {
    let mut bus = blank_bus();
    bus.write(0x8000, 0xC1);
    bus.write(0x9FFF, 0xC2);
    bus.write(0xFE00, 0xC3);
    bus.write(0xFE9F, 0xC4);
    assert_eq!(bus.gpu.vram[0], 0xC1);
    assert_eq!(bus.gpu.vram[8191], 0xC2);
    assert_eq!(bus.gpu.oam[0], 0xC3);
    assert_eq!(bus.gpu.oam[159], 0xC4);
    assert_eq!(bus.read(0x8000), 0xC1);
    assert_eq!(bus.read(0x9FFF), 0xC2);
    assert_eq!(bus.read(0xFE00), 0xC3);
    assert_eq!(bus.read(0xFE9F), 0xC4);
}

#[test]
fn cartridge_ram_is_indexed_by_offset() {
    let mut bus = blank_bus();
    bus.write(0xA000, 0xD1);
    bus.write(0xBFFF, 0xD2);
    assert_eq!(bus.rom.ram[0], 0xD1);
    assert_eq!(bus.rom.ram[8191], 0xD2);
    assert_eq!(bus.read(0xA000), 0xD1);
    assert_eq!(bus.read(0xBFFF), 0xD2);
}

#[test]
fn io_registers_are_indexed_by_low_byte() {
    let mut bus = blank_bus();
    bus.write(0xFF00, 0xE1);
    bus.write(0xFF4B, 0xE2);
    assert_eq!(bus.io.regs[0x00], 0xE1);
    assert_eq!(bus.io.regs[0x4B], 0xE2);
    assert_eq!(bus.read(0xFF00), 0xE1);
    assert_eq!(bus.read(0xFF4B), 0xE2);
}

#[test]
fn program_image_is_read_only() {
    let mut bus = blank_bus();
    assert_eq!(bus.read(0x0000), 0x00);
    assert_eq!(bus.read(0x0001), 0xC3);
    assert_eq!(bus.read(0x0003), 0x01);
    bus.write(0x0001, 0x77);
    bus.write(0x2000, 0x01);
    assert_eq!(bus.read(0x0001), 0xC3);
    assert_eq!(bus.rom.data, vec![0x00, 0xC3, 0x50, 0x01]);
}

#[test]
fn program_image_reads_ff_past_its_end() {
    let bus = blank_bus();
    assert_eq!(bus.read(0x0004), 0xFF);
    assert_eq!(bus.read(0x7FFF), 0xFF);
}

#[test]
fn program_image_window_is_32k() {
    let mut image = vec![0u8; 0x9000];
    image[0x7FFF] = 0x7E;
    image[0x8000] = 0x80;
    let rom = GameROM::build(image);
    assert_eq!(rom.read(0x7FFF), 0x7E);
    assert_eq!(rom.read(0x8000), 0xFF);
    let bus = GBMemory::build(rom);
    assert_eq!(bus.read(0x7FFF), 0x7E);
    assert_eq!(bus.read(0x8000), 0x00);
}

#[test]
fn words_are_little_endian() {
    let mut bus = blank_bus();
    bus.write(0xC100, 0x34);
    bus.write(0xC101, 0x12);
    assert_eq!(bus.read_short(0xC100), 0x1234);
    bus.write_short(0xC200, 0xABCD);
    assert_eq!(bus.read(0xC200), 0xCD);
    assert_eq!(bus.read(0xC201), 0xAB);
    assert_eq!(bus.read_short(0x0001), 0x50C3);
}

#[test]
fn words_round_trip_where_stores_are_kept() {
    let mut bus = blank_bus();
    let spots = [
        0x8000u16, 0x9FFE, 0x9FFF, 0xA000, 0xBFFF, 0xC000, 0xDFFE, 0xDFFF, 0xE000, 0xFDFE, 0xFDFF,
        0xFE00, 0xFE9E, 0xFF00, 0xFF4A, 0xFF80, 0xFFFD,
    ];
    for (i, addr) in spots.iter().enumerate() {
        for v in [0x0000u16, 0x00FF, 0xFF00, 0x1234, 0xFFFF, 0x8001 + i as u16] {
            bus.write_short(*addr, v);
            assert_eq!(bus.read_short(*addr), v);
        }
    }
}

#[test]
fn words_across_a_dropped_byte_lose_it() {
    let mut bus = blank_bus();
    bus.write_short(0xFE9F, 0x1234);
    assert_eq!(bus.read_short(0xFE9F), 0xFF34);
    bus.write_short(0xFFFE, 0x1234);
    assert_eq!(bus.read_short(0xFFFE), 0xFF34);
    bus.write_short(0x7FFF, 0x1234);
    assert_eq!(bus.read_short(0x7FFF), 0x12FF);
    assert_eq!(bus.read(0x8000), 0x12);
}

#[test]
fn word_at_the_top_wraps_to_the_bottom() {
    let mut bus = blank_bus();
    assert_eq!(bus.read_short(0xFFFF), 0x00FF);
    bus.write_short(0xFFFF, 0x5566);
    assert_eq!(bus.read_short(0xFFFF), 0x00FF);
    let other = GBMemory::build(GameROM::build(vec![0x31]));
    assert_eq!(other.read_short(0xFFFF), 0x31FF);
}

#[test]
fn every_address_resolves_to_its_region() {
    assert_eq!(resolve(0x0000), Target::Rom(0x0000));
    assert_eq!(resolve(0x7FFF), Target::Rom(0x7FFF));
    assert_eq!(resolve(0x8000), Target::VideoRam(0));
    assert_eq!(resolve(0x9FFF), Target::VideoRam(0x1FFF));
    assert_eq!(resolve(0xA000), Target::CartRam(0));
    assert_eq!(resolve(0xBFFF), Target::CartRam(0x1FFF));
    assert_eq!(resolve(0xC000), Target::WorkRam(0));
    assert_eq!(resolve(0xDFFF), Target::WorkRam(0x1FFF));
    assert_eq!(resolve(0xE000), Target::WorkRam(0));
    assert_eq!(resolve(0xFDFF), Target::WorkRam(0x1DFF));
    assert_eq!(resolve(0xFE00), Target::SpriteRam(0));
    assert_eq!(resolve(0xFE9F), Target::SpriteRam(0x9F));
    assert_eq!(resolve(0xFEA0), Target::Unusable);
    assert_eq!(resolve(0xFEFF), Target::Unusable);
    assert_eq!(resolve(0xFF00), Target::Io(0x00));
    assert_eq!(resolve(0xFF4B), Target::Io(0x4B));
    assert_eq!(resolve(0xFF4C), Target::Unusable);
    assert_eq!(resolve(0xFF7F), Target::Unusable);
    assert_eq!(resolve(0xFF80), Target::HighRam(0));
    assert_eq!(resolve(0xFFFE), Target::HighRam(126));
    assert_eq!(resolve(0xFFFF), Target::InterruptEnable);
}

#[test]
fn a_new_bus_is_zeroed() {
    let bus = blank_bus();
    assert!(bus.ram.iter().all(|b| *b == 0));
    assert!(bus.high_ram.iter().all(|b| *b == 0));
    assert!(bus.gpu.vram.iter().all(|b| *b == 0));
    assert!(bus.gpu.oam.iter().all(|b| *b == 0));
    assert!(bus.io.regs.iter().all(|b| *b == 0));
    assert!(bus.rom.ram.iter().all(|b| *b == 0));
    assert_eq!(bus.rom.data, vec![0x00, 0xC3, 0x50, 0x01]);
}

#[test]
fn cartridge_ignores_offsets_past_its_ram() {
    let mut rom = GameROM::build(vec![]);
    rom.write_ram(0x1FFF, 0x44);
    rom.write_ram(0x2000, 0x55);
    assert_eq!(rom.read_ram(0x1FFF), 0x44);
    assert_eq!(rom.read_ram(0x2000), 0xFF);
    assert_eq!(rom.read(0x0000), 0xFF);
    rom.write(0x0000, 0x12);
    assert_eq!(rom.read(0x0000), 0xFF);
}

#[test]
fn io_ports_latch_what_is_stored() {
    let mut io = IoPorts::build();
    assert_eq!(io.read(0x40), 0x00);
    io.write(0x40, 0x91);
    assert_eq!(io.read(0x40), 0x91);
    io.write(0x4C, 0x77);
    assert_eq!(io.read(0x4C), 0xFF);
    assert_eq!(io.read(0xFF), 0xFF);
}

#[test]
fn video_memory_starts_zeroed() {
    let gpu = GPU::build();
    assert_eq!(gpu.vram.len(), 8192);
    assert_eq!(gpu.oam.len(), 160);
    assert!(gpu.vram.iter().all(|b| *b == 0));
    assert!(gpu.oam.iter().all(|b| *b == 0));
}
