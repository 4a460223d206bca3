use crab_gb::err::EmuError;
use crab_gb::memory::Memory;

fn fresh_memory() -> Memory {
    Memory::new(vec![0u8; 0x100]).unwrap()
}

#[test]
fn boot_latch_covers_first_page_until_disarmed() {
    let mut boot = vec![0u8; 0x100];
    boot[0x00] = 0xAA;
    boot[0xFF] = 0xBB;
    let mut mem = Memory::new(boot).unwrap();
    let mut rom = vec![0u8; 0x8000];
    rom[0x00] = 0x55;
    rom[0xFF] = 0x66;
    rom[0x100] = 0x77;
    mem.load_rom(rom).unwrap();
    // armed: the boot ROM answers in 0x00..0xFF, the cartridge above
    assert_eq!(mem.read(0x0000).unwrap(), 0xAA);
    assert_eq!(mem.read(0x00FF).unwrap(), 0xBB);
    assert_eq!(mem.read(0x0100).unwrap(), 0x77);
    // a zero write to 0xFF50 leaves the latch armed
    mem.write(0xFF50, 0).unwrap();
    assert_eq!(mem.read(0x0000).unwrap(), 0xAA);
    // any nonzero write disarms it for good
    mem.write(0xFF50, 1).unwrap();
    assert_eq!(mem.read(0x0000).unwrap(), 0x55);
    assert_eq!(mem.read(0x00FF).unwrap(), 0x66);
    mem.write(0xFF50, 0).unwrap();
    assert_eq!(mem.read(0x0000).unwrap(), 0x55);
}

#[test]
fn bad_image_sizes_are_refused() {
    assert_eq!(Memory::new(vec![0u8; 0xFF]).err(), Some(EmuError::BootromSize));
    assert_eq!(Memory::new(vec![0u8; 0x101]).err(), Some(EmuError::BootromSize));
    let mut mem = fresh_memory();
    assert_eq!(mem.load_rom(vec![0u8; 0x4000]).err(), Some(EmuError::CartridgeSize));
    assert_eq!(mem.load_rom(vec![0u8; 0x8001]).err(), Some(EmuError::CartridgeSize));
    assert!(mem.load_rom(vec![0u8; 0x8000]).is_ok());
}

#[test]
fn rom_writes_are_ignored_and_ram_round_trips() {
    let mut mem = fresh_memory();
    mem.write(0x1234, 0x99).unwrap();
    assert_eq!(mem.read(0x1234).unwrap(), 0x00);
    mem.write(0x8123, 0x42).unwrap();
    assert_eq!(mem.read(0x8123).unwrap(), 0x42);
    mem.write(0xA555, 0x43).unwrap();
    assert_eq!(mem.read(0xA555).unwrap(), 0x43);
    mem.write(0xC777, 0x44).unwrap();
    assert_eq!(mem.read(0xC777).unwrap(), 0x44);
    mem.write(0xFF85, 0x45).unwrap();
    assert_eq!(mem.read(0xFF85).unwrap(), 0x45);
    mem.write(0xFFFF, 0x1F).unwrap();
    assert_eq!(mem.read(0xFFFF).unwrap(), 0x1F);
}

#[test]
fn echo_region_mirrors_work_ram() {
    let mut mem = fresh_memory();
    mem.write(0xC100, 0x21).unwrap();
    assert_eq!(mem.read(0xE100).unwrap(), 0x21);
    mem.write(0xE200, 0x22).unwrap();
    assert_eq!(mem.read(0xC200).unwrap(), 0x22);
}

#[test]
fn forbidden_region_reads_ff_and_swallows_writes() {
    let mut mem = fresh_memory();
    mem.write(0xFEA0, 0x12).unwrap();
    assert_eq!(mem.read(0xFEA0).unwrap(), 0xFF);
    assert_eq!(mem.read(0xFEFF).unwrap(), 0xFF);
}

#[test]
fn audio_registers_read_ff_and_discard_writes() {
    let mut mem = fresh_memory();
    mem.write(0xFF26, 0x80).unwrap();
    assert_eq!(mem.read(0xFF26).unwrap(), 0xFF);
    mem.write(0xFF30, 0x12).unwrap();
    assert_eq!(mem.read(0xFF30).unwrap(), 0xFF);
}

#[test]
fn undefined_io_registers_are_fatal() {
    let mut mem = fresh_memory();
    assert_eq!(mem.read(0xFF03).err(), Some(EmuError::UnknownIoRead(0xFF03)));
    assert_eq!(mem.read(0xFF4C).err(), Some(EmuError::UnknownIoRead(0xFF4C)));
    assert_eq!(mem.read(0xFF50).err(), Some(EmuError::UnknownIoRead(0xFF50)));
    assert_eq!(mem.write(0xFF03, 0).err(), Some(EmuError::UnknownIoWrite(0xFF03)));
    assert_eq!(mem.write(0xFF4C, 0).err(), Some(EmuError::UnknownIoWrite(0xFF4C)));
    // 0xFF7F is tolerated
    assert!(mem.write(0xFF7F, 0x12).is_ok());
}

#[test]
fn joypad_select_write_with_both_lines_low_is_fatal() {
    let mut mem = fresh_memory();
    assert_eq!(mem.write(0xFF00, 0x00).err(), Some(EmuError::JoypadSelect(0x00)));
    assert!(mem.write(0xFF00, 0x20).is_ok());
    assert_eq!(mem.read(0xFF00).unwrap(), 0x2F); // DPAD selected, none pressed
}

#[test]
fn oam_dma_copies_a_page_into_oam() {
    let mut mem = fresh_memory();
    for i in 0..160u16 {
        mem.write(0xC000 + i, i as u8).unwrap();
    }
    mem.write(0xFF46, 0xC0).unwrap();
    for i in 0..160u16 {
        assert_eq!(mem.read(0xFE00 + i).unwrap(), i as u8);
    }
    assert_eq!(mem.read(0xFF46).unwrap(), 0xC0);
    // a DMA from page 0xFF would read undefined registers
    assert_eq!(mem.write(0xFF46, 0xFF).err(), Some(EmuError::UnknownIoRead(0xFF01)));
}

#[test]
fn io_registers_dispatch_to_their_units() {
    let mut mem = fresh_memory();
    mem.write(0xFF05, 0x12).unwrap();
    mem.write(0xFF06, 0x34).unwrap();
    mem.write(0xFF07, 0x05).unwrap();
    assert_eq!(mem.read(0xFF05).unwrap(), 0x12);
    assert_eq!(mem.read(0xFF06).unwrap(), 0x34);
    assert_eq!(mem.read(0xFF07).unwrap(), 0x05);
    mem.write(0xFF40, 0x91).unwrap();
    mem.write(0xFF42, 0x10).unwrap();
    mem.write(0xFF43, 0x20).unwrap();
    mem.write(0xFF45, 0x30).unwrap();
    mem.write(0xFF47, 0xE4).unwrap();
    mem.write(0xFF48, 0xD2).unwrap();
    mem.write(0xFF49, 0xC1).unwrap();
    mem.write(0xFF4A, 0x40).unwrap();
    mem.write(0xFF4B, 0x50).unwrap();
    assert_eq!(mem.read(0xFF40).unwrap(), 0x91);
    assert_eq!(mem.read(0xFF42).unwrap(), 0x10);
    assert_eq!(mem.read(0xFF43).unwrap(), 0x20);
    assert_eq!(mem.read(0xFF45).unwrap(), 0x30);
    assert_eq!(mem.read(0xFF47).unwrap(), 0xE4);
    assert_eq!(mem.read(0xFF48).unwrap(), 0xD2);
    assert_eq!(mem.read(0xFF49).unwrap(), 0xC1);
    assert_eq!(mem.read(0xFF4A).unwrap(), 0x40);
    assert_eq!(mem.read(0xFF4B).unwrap(), 0x50);
    mem.write(0xFF0F, 0x15).unwrap();
    assert_eq!(mem.read(0xFF0F).unwrap(), 0x15);
    // serial writes are discarded; LY is read-only
    mem.write(0xFF01, 0x55).unwrap();
    mem.write(0xFF02, 0x81).unwrap();
    mem.write(0xFF44, 0x99).unwrap();
    assert_eq!(mem.read(0xFF44).unwrap(), 0x00);
}

#[test]
fn accessors_expose_the_owning_units() {
    let mut mem = fresh_memory();
    mem.get_interrupts().write_interrupt_enable(0x11);
    assert_eq!(mem.read(0xFFFF).unwrap(), 0x11);
    assert_eq!(mem.get_gpu().ly, 0);
}

#[test]
fn div_resets_on_any_write() {
    let mut mem = fresh_memory();
    mem.update_timer(200);
    mem.update_timer(200);
    assert!(mem.read(0xFF04).unwrap() > 0);
    mem.write(0xFF04, 0x77).unwrap();
    assert_eq!(mem.read(0xFF04).unwrap(), 0);
}

#[test]
fn timer_overflow_raises_interrupt_flag() {
    let mut mem = fresh_memory();
    mem.write(0xFF07, 0x05).unwrap(); // enabled, 16-tick period
    mem.write(0xFF05, 0xFF).unwrap();
    mem.write(0xFF06, 0x42).unwrap();
    mem.update_timer(4); // 16 ticks: one increment, overflow
    assert_eq!(mem.read(0xFF05).unwrap(), 0x42);
    assert_eq!(mem.read(0xFF0F).unwrap() & 0x04, 0x04);
}
