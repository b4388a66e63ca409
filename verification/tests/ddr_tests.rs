use milkv::ddr::{
    ddr_param_load_size, ddr_param_outcome, fallback, param2_outcome, BootSrc, DdrLoader, LoadAction, FIP_PARAM2_MAGIC1,
};
use milkv::ddr::{
    bist_done, power_saving_off, power_saving_restore, PowerSaving, refresh_timings, DramSizeProbe, ProbeAction, BIST_READ_PRBS, BIST_WRITE_INV_PRBS, BIST_WRITE_PRBS,
};

#[test]
fn bist_command_words() {
    assert_eq!(BIST_WRITE_PRBS, (1 << 30) + (0 << 21) + (3 << 12) + (5 << 9) + (0 << 8));
    assert_eq!(BIST_WRITE_INV_PRBS, (1 << 30) + (0 << 21) + (3 << 12) + (5 << 9) + (1 << 8));
    assert_eq!(BIST_READ_PRBS, (2u32 << 30) + (3 << 12) + (5 << 9));
}

#[test]
fn bist_done_is_bit_two() {
    assert!(bist_done(0b100));
    assert!(!bist_done(0b1011));
}

#[test]
fn probe_stops_at_first_mismatch() {
    let (mut p, first) = DramSizeProbe::start();
    assert_eq!(first, ProbeAction::Test { addr: 1 << 21 });
    // codes 5 to 8 read back intact, 9 wraps onto address 0
    assert_eq!(p.on_status(0b100), ProbeAction::Test { addr: 1 << 22 });
    assert_eq!(p.on_status(0b100), ProbeAction::Test { addr: 1 << 23 });
    assert_eq!(p.on_status(0b100), ProbeAction::Test { addr: 1 << 24 });
    assert_eq!(p.on_status(0b100), ProbeAction::Test { addr: 1 << 25 });
    assert_eq!(p.on_status(0b1100), ProbeAction::Done { cap_in_mbyte: 9 });
    assert_eq!(p.cap_in_mbyte, 9);
}

#[test]
fn probe_stops_at_fifteen() {
    let (mut p, _) = DramSizeProbe::start();
    let mut last = ProbeAction::Done { cap_in_mbyte: 0 };
    for _ in 0..20 {
        last = p.on_status(0b100);
        if let ProbeAction::Done { .. } = last {
            break;
        }
    }
    assert_eq!(last, ProbeAction::Done { cap_in_mbyte: 15 });
}

#[test]
fn refresh_timings_by_device_size() {
    // full bus width, x16 devices: the device code is the system code halved
    let mstr = 2u32 << 30;
    assert_eq!(refresh_timings(18, mstr), Some((0x0071007A, 0x905)));
    assert_eq!(refresh_timings(12, mstr), Some((0x0071002A, 0x903)));
    // half bus width, x16 devices: the code is kept
    let half = (2u32 << 30) | (1 << 12);
    assert_eq!(refresh_timings(9, half), Some((0x0071007A, 0x905)));
    assert_eq!(refresh_timings(10, half), Some((0x007100A4, 0x907)));
    assert_eq!(refresh_timings(5, half), None);
    // x8 devices, half width: halved once
    assert_eq!(refresh_timings(16, 1u32 << 30 | 1 << 12), Some((0x0071004B, 0x904)));
    assert_eq!(refresh_timings(14, 1u32 << 30 | 1 << 12), Some((0x00710034, 0x903)));
}

#[test]
fn power_saving_is_turned_off_and_restored() {
    let pwrctl = 0xF0F0_0029u32; // selfref_sw, en_dfi_dram_clk_disable and selfref_en on
    let (saved, off) = power_saving_off(pwrctl);
    assert_eq!(saved, PowerSaving { selfref_sw: 1, en_dfi_dram_clk_disable: 1, powerdown_en: 0, selfref_en: 1 });
    assert_eq!(off, 0xF0F0_0000);
    assert_eq!(power_saving_restore(off, saved), pwrctl);
    // bits that changed meanwhile outside the settings stay changed
    assert_eq!(power_saving_restore(off | 0x100, saved), pwrctl | 0x100);
}

#[test]
fn ddr_loader_retries_then_gives_up_quietly() {
    let (mut l, a) = DdrLoader::start(2);
    assert_eq!(a, LoadAction::LoadParam2 { retry: 0 });
    assert_eq!(l.on_outcome(0), LoadAction::LoadDdrParam { retry: 0 });
    assert_eq!(l.on_outcome(-1), LoadAction::LoadParam2 { retry: 1 });
    assert_eq!(l.on_outcome(-3), LoadAction::Done);
    let (mut l, _) = DdrLoader::start(3);
    l.on_outcome(0);
    assert_eq!(l.on_outcome(0), LoadAction::Done);
    assert_eq!(DdrLoader::start(0).1, LoadAction::CheckBootSrc);
    assert!(fallback(BootSrc::Uart) && fallback(BootSrc::Sd) && fallback(BootSrc::Usb));
    assert!(!fallback(BootSrc::SpiNor) && !fallback(BootSrc::Emmc));
}

#[test]
fn parameter_block_outcomes() {
    assert_eq!(u64::from_le_bytes(*b"CVLD02\n\0"), FIP_PARAM2_MAGIC1);
    assert_eq!(param2_outcome(-5, 0, 0, 0), -5);
    assert_eq!(param2_outcome(0, 1, 7, 7), -1);
    assert_eq!(param2_outcome(0, FIP_PARAM2_MAGIC1, 7, 8), -1);
    assert_eq!(param2_outcome(3, FIP_PARAM2_MAGIC1, 7, 7), 0);
    assert_eq!(ddr_param_outcome(0, 1, 2), -1);
    assert_eq!(ddr_param_outcome(-2, 1, 1), -2);
    assert_eq!(ddr_param_load_size(20000), 16384);
    assert_eq!(ddr_param_load_size(100), 100);
}
