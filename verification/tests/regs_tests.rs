use milkv::dsi::{REG_SCL_CORE_BASE, REG_SCL_DISP_GOP_SIZE, REG_SCL_GOP_FMT, REG_SCL_IMG_BASE, REG_SCL_IMG_CFG, REG_SCL_ODMA_HEIGHT};
use milkv::regs::{
    efuse_chipsn_locked, efuse_locks_to_program, efuse_program_words, efuse_timed_out, get_bits_from_value,
    modified_bits_by_value, pixel_word, read_gpio, regpatch, set_gpio, set_gpio_direction, Direction,
};
use milkv::vga_signal::{line_address, line_sync_words, line_timing, per_line, per_px, pixel_end, pixel_late, H_TOTAL, V_TOTAL, WIDTH};

#[test]
fn bit_fields() {
    assert_eq!(get_bits_from_value(0xabcd_1234, 15, 8), 0x12);
    assert_eq!(get_bits_from_value(0xabcd_1234, 30, 0), 0x2bcd_1234);
    assert_eq!(get_bits_from_value(0xabcd_1234, 3, 4), 0);
    assert_eq!(modified_bits_by_value(0xffff_ffff, 0, 7, 4), 0xffff_ff0f);
    assert_eq!(modified_bits_by_value(0x1234_5678, 0x3f, 3, 2), 0x1234_567c);
    assert_eq!(modified_bits_by_value(0x9234_5678, 0, 30, 0), 0x8000_0000);
}

#[test]
fn ddr_patch() {
    let p = regpatch::new(0x0800_0150, 0x0000_ff00, 0x0000_0500);
    assert_eq!(p.patched(0x1234_5678), 0x1234_0578);
    assert_eq!(p.patched(p.patched(0x1234_5678)), 0x1234_0578);
}

#[test]
fn gpio_words() {
    assert_eq!(set_gpio_direction(0, 5, Direction::Output), 0x20);
    assert_eq!(set_gpio_direction(0xff, 5, Direction::Input), 0xdf);
    assert_eq!(set_gpio(0x1, 29, true), 0x2000_0001);
    assert_eq!(set_gpio(0x2000_0001, 29, false), 0x1);
    assert!(read_gpio(0x2000_0000, 29));
    assert!(!read_gpio(0x2000_0000, 28));
}

#[test]
fn efuse() {
    assert_eq!(efuse_program_words(0x26, 3), ((3 << 7) | (0x26 << 1), (3 << 7) | (0x26 << 1) | 1));
    assert_eq!(efuse_program_words(0x26, 31).0, (((31u32 << 7) | (0x26 << 1)) as u16 & 0xfff) as u32);
    assert_eq!(efuse_locks_to_program(0x8), (false, true));
    assert_eq!(efuse_locks_to_program(0x18), (false, false));
    assert!(efuse_chipsn_locked(0x18));
    assert!(!efuse_chipsn_locked(0x8));
    assert!(!efuse_timed_out(0, 6_250_000));
    assert!(efuse_timed_out(0, 6_250_001));
}

#[test]
fn pixels_and_timing() {
    assert_eq!(pixel_word(0xff), (0x3f << 11) | (0x3 << 18) | (1 << 20) | (1 << 21));
    assert_eq!(pixel_word(0), (1 << 20) | (1 << 21));
    assert_eq!(H_TOTAL, 800);
    assert_eq!(V_TOTAL, 525);
    assert_eq!(WIDTH, 320);
    assert_eq!(per_px(7), 7);
    assert_eq!(per_line(2), 1600);
    assert_eq!(line_address(0x9000_0000, 3), 0x9000_0000 + 960);
    assert_eq!(pixel_end(100, 0), 102);
    assert!(pixel_late(100, 103));
    assert!(!pixel_late(100, 102));
    let t = line_timing(1000);
    assert_eq!((t.front_porch_end, t.sync_end, t.back_porch_end), (1656, 1752, 1800));
    assert_eq!(line_sync_words(0), ((1 << 20) | (1 << 21), 1 << 21, (1 << 20) | (1 << 21)));
    assert_eq!(line_sync_words(491), (1 << 20, 0, 1 << 20));
}

#[test]
fn display_registers() {
    assert_eq!(REG_SCL_IMG_BASE(1), 0x0A08_3000);
    assert_eq!(REG_SCL_IMG_CFG(0), 0x0A08_2000);
    assert_eq!(REG_SCL_CORE_BASE(2), 0x0A08_6000);
    assert_eq!(REG_SCL_GOP_FMT(0, 1), 0x0A08_4820);
    assert_eq!(REG_SCL_ODMA_HEIGHT(0), 0x0A08_4C30);
    assert_eq!(REG_SCL_DISP_GOP_SIZE(2), 0x0A08_8858);
}
