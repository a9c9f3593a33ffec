//! Exercises of the PPU register file: the control, mask and scroll
//! latches behind the cold-start wait, and the status read.

use nes_core::Rom;
use nes_core::ppu::PPU;

/// A cartridge for tests: mapper 3, horizontal mirroring, one PRG bank
/// and one CHR bank.
fn mock_rom() -> Rom {
    let mut image: Vec<u8> = vec![0x4E, 0x45, 0x53, 0x1A, 1, 1, 0x30, 0, 0, 0, 0, 0, 0, 0, 0, 0];
    image.extend(std::iter::repeat(0x01).take(16 * 1024));
    image.extend(std::iter::repeat(0x02).take(8 * 1024));
    Rom::parse(image).unwrap()
}

#[test]
fn test_ctrl_write() {
    let mut rom = mock_rom();
    let mut ppu = PPU::new(&rom);

    ppu.write_register(0x3000, 0xAA, &mut rom).unwrap();
    assert_eq!(ppu.ppu_ctrl.nmi(), false);

    ppu.stop_waiting();

    ppu.write_register(0x3000, 0xAA, &mut rom).unwrap();
    assert_eq!(ppu.ppu_ctrl.nmi(), true);
    assert_eq!(ppu.ppu_ctrl.large_sprite(), true);
    assert_eq!(ppu.ppu_ctrl.background_pattern(), 0);
    assert_eq!(ppu.ppu_ctrl.vram_step(), 1);
    assert_eq!(ppu.ppu_ctrl.nt_base(), 0x2800);

    ppu.write_register(0x3000, 0x55, &mut rom).unwrap();
    assert_eq!(ppu.ppu_ctrl.nmi(), false);
    assert_eq!(ppu.ppu_ctrl.large_sprite(), false);
    assert_eq!(ppu.ppu_ctrl.background_pattern(), 0x1000);
    assert_eq!(ppu.ppu_ctrl.sprite_pattern(), 0);
    assert_eq!(ppu.ppu_ctrl.vram_step(), 32);
    assert_eq!(ppu.ppu_ctrl.nt_base(), 0x2400);
}

#[test]
fn test_mask_write() {
    let mut rom = mock_rom();
    let mut ppu = PPU::new(&rom);

    ppu.write_register(0x3001, 0xAA, &mut rom).unwrap();
    assert_eq!(ppu.ppu_mask.show_background(), false);

    ppu.stop_waiting();

    ppu.write_register(0x3001, 0xAA, &mut rom).unwrap();
    assert_eq!(ppu.ppu_mask.show_background(), true);
    assert_eq!(ppu.ppu_mask.show_sprite_left(), false);
    assert_eq!(ppu.ppu_mask.show_background_left(), true);
    assert_eq!(ppu.ppu_mask.normal_color(), true);
}

#[test]
fn test_status_read() {
    let rom = mock_rom();
    let mut ppu = PPU::new(&rom);
    let status = ppu.read_register(0x2002, &rom).unwrap();
    assert_eq!(status, 0);
}

#[test]
fn test_scroll_write() {
    let mut rom = mock_rom();
    let mut ppu = PPU::new(&rom);

    ppu.write_register(0x2005, 1, &mut rom).unwrap();
    assert_eq!(ppu.ppu_scroll.x(), 0);

    ppu.stop_waiting();

    ppu.write_register(0x2005, 1, &mut rom).unwrap();
    ppu.write_register(0x2005, 2, &mut rom).unwrap();
    assert_eq!(ppu.ppu_scroll.x(), 1);
    assert_eq!(ppu.ppu_scroll.y(), 2);

    ppu.write_register(0x2005, 3, &mut rom).unwrap();
    ppu.write_register(0x2005, 4, &mut rom).unwrap();
    assert_eq!(ppu.ppu_scroll.x(), 3);
    assert_eq!(ppu.ppu_scroll.y(), 4);
}
