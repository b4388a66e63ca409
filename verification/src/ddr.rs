//! The decisions of the DDR bring-up that depend on what the controller reports: the
//! search for the size of the memory with the built-in self test (BIST), and the refresh
//! timings that follow from that size.
use vstd::prelude::*;

verus! {

/// The BIST command that writes 16 beats of the pseudo-random pattern.
pub const BIST_WRITE_PRBS: u32 = 0x4000_3A00;

/// The BIST command that writes 16 beats of the inverse of the pseudo-random pattern.
pub const BIST_WRITE_INV_PRBS: u32 = 0x4000_3B00;

/// The BIST command that reads back and checks 16 beats of the pseudo-random pattern.
pub const BIST_READ_PRBS: u32 = 0x8000_3A00;

/// The BIST status reports the run finished: bit 2.
pub open spec fn status_done(status: u32) -> bool {
    (status >> 2u32) & 1 == 1
}

/// The BIST status reports no mismatch: bit 3 clear.
pub open spec fn status_passed(status: u32) -> bool {
    (status >> 3u32) & 1 == 0
}

/// Whether the BIST run that `status` reports has finished.
pub fn bist_done(status: u32) -> (r: bool)
    ensures
        r == status_done(status),
{
    (status >> 2) & 1 == 1
}

/// The address at which the inverse pattern is written to test the size code `cap`.
pub open spec fn probe_addr(cap: u8) -> u32 {
    1u32 << ((cap + 16) as u32)
}

/// The search for the size of the memory. With the pattern written at address 0, the
/// inverse is written at the address of the next candidate size and the pattern read back
/// at 0: while it reads back intact the address did not wrap onto 0, so the memory is at
/// least that large. The size code is the exponent that the address is made from.
pub struct DramSizeProbe {
    pub cap_in_mbyte: u8,
}

/// What the bring-up does next in the search.
#[derive(Clone, Copy, PartialEq, Eq, Debug)]
pub enum ProbeAction {
    /// Write the inverse pattern at `addr`, read the pattern back at 0, and report the
    /// BIST status once it is done.
    Test { addr: u32 },
    /// The search is over, with this size code.
    Done { cap_in_mbyte: u8 },
}

impl DramSizeProbe {
    /// The search starts at the size code 5.
    pub fn start() -> (r: (DramSizeProbe, ProbeAction))
        ensures
            r.0.cap_in_mbyte == 5,
            r.1 == (ProbeAction::Test { addr: probe_addr(5) }),
    {
        (DramSizeProbe { cap_in_mbyte: 5 }, ProbeAction::Test { addr: 1u32 << 21u32 })
    }

    /// Takes the status of the test of the present size code: a pass below 15 moves on
    /// to the next code; a mismatch, or a pass at 15, ends the search at the present code.
    pub fn on_status(&mut self, status: u32) -> (r: ProbeAction)
        requires
            5 <= old(self).cap_in_mbyte <= 15,
        ensures
            5 <= final(self).cap_in_mbyte <= 15,
            status_passed(status) && old(self).cap_in_mbyte < 15 ==> {
                &&& final(self).cap_in_mbyte == old(self).cap_in_mbyte + 1
                &&& r == (ProbeAction::Test { addr: probe_addr(final(self).cap_in_mbyte) })
            },
            !(status_passed(status) && old(self).cap_in_mbyte < 15) ==> {
                &&& final(self).cap_in_mbyte == old(self).cap_in_mbyte
                &&& r == (ProbeAction::Done { cap_in_mbyte: old(self).cap_in_mbyte })
            },
    {
        if (status >> 3) & 1 == 0 && self.cap_in_mbyte < 15 {
            self.cap_in_mbyte = self.cap_in_mbyte + 1;
            ProbeAction::Test { addr: 1u32 << ((self.cap_in_mbyte as u32) + 16) }
        } else {
            ProbeAction::Done { cap_in_mbyte: self.cap_in_mbyte }
        }
    }
}

/// The data bus width field of the controller's MSTR register (bits 12-13): 0 for the
/// full width, 1 for half.
pub open spec fn bus_width(mstr: u32) -> u32 {
    (mstr >> 12u32) & 3
}

/// The device configuration field of MSTR (bits 30-31): 0 for x4, 1 for x8, 2 for x16
/// devices.
pub open spec fn device_config(mstr: u32) -> u32 {
    (mstr >> 30u32) & 3
}

/// The size code of one device: the system code turned into that of a x16 bus, then
/// into that of one device.
pub open spec fn device_cap(cap: u8, mstr: u32) -> u8 {
    (cap >> ((1 - bus_width(mstr)) as u8)) >> ((2 - device_config(mstr)) as u8)
}

/// The refresh timing (register 0x64) and the timing of register 0x120 for a device size
/// code; other codes leave both as they are.
pub open spec fn refresh_timings_spec(dev_cap: u8) -> Option<(u32, u32)> {
    if dev_cap == 6 {
        Some((0x0071002A, 0x903))
    } else if dev_cap == 7 {
        Some((0x00710034, 0x903))
    } else if dev_cap == 8 {
        Some((0x0071004B, 0x904))
    } else if dev_cap == 9 {
        Some((0x0071007A, 0x905))
    } else if dev_cap == 10 {
        Some((0x007100A4, 0x907))
    } else {
        None
    }
}

/// The timings to write for the memory of size code `dram_cap_in_mbyte`, given the
/// controller's MSTR register.
pub fn refresh_timings(dram_cap_in_mbyte: u8, mstr: u32) -> (r: Option<(u32, u32)>)
    requires
        bus_width(mstr) <= 1,
        device_config(mstr) <= 2,
    ensures
        r == refresh_timings_spec(device_cap(dram_cap_in_mbyte, mstr)),
{
    let bw = (mstr >> 12) & 3;
    let dc = (mstr >> 30) & 3;
    let mut per_dev = dram_cap_in_mbyte;
    per_dev = per_dev >> ((1 - bw) as u8);
    per_dev = per_dev >> ((2 - dc) as u8);
    match per_dev {
        6 => Some((0x0071002A, 0x903)),
        7 => Some((0x00710034, 0x903)),
        8 => Some((0x0071004B, 0x904)),
        9 => Some((0x0071007A, 0x905)),
        10 => Some((0x007100A4, 0x907)),
        _ => None,
    }
}

/// The power-saving settings of the controller's PWRCTL register that a training turns
/// off while it runs: `selfref_sw` (bit 5), `en_dfi_dram_clk_disable` (bit 3),
/// `powerdown_en` (bit 1) and `selfref_en` (bit 0).
#[derive(Clone, Copy, Debug, PartialEq, Eq, Structural)]
pub struct PowerSaving {
    pub selfref_sw: u32,
    pub en_dfi_dram_clk_disable: u32,
    pub powerdown_en: u32,
    pub selfref_en: u32,
}

/// The bits of PWRCTL that hold the power-saving settings.
pub open spec fn power_saving_mask() -> u32 {
    0b10_1011
}

/// The settings that PWRCTL holds.
pub open spec fn power_saving_of(pwrctl: u32) -> PowerSaving {
    PowerSaving {
        selfref_sw: (pwrctl >> 5u32) & 1,
        en_dfi_dram_clk_disable: (pwrctl >> 3u32) & 1,
        powerdown_en: (pwrctl >> 1u32) & 1,
        selfref_en: pwrctl & 1,
    }
}

/// PWRCTL with the settings `s` (the low bit of each).
pub open spec fn with_power_saving(pwrctl: u32, s: PowerSaving) -> u32 {
    (pwrctl & !power_saving_mask()) | ((s.selfref_sw & 1) << 5u32) | ((s.en_dfi_dram_clk_disable & 1) << 3u32)
        | ((s.powerdown_en & 1) << 1u32) | (s.selfref_en & 1)
}

/// Saves the power-saving settings of PWRCTL and gives the value that turns them all off.
pub fn power_saving_off(pwrctl: u32) -> (r: (PowerSaving, u32))
    ensures
        r.0 == power_saving_of(pwrctl),
        r.1 == pwrctl & !power_saving_mask(),
{
    let saved = PowerSaving {
        selfref_sw: (pwrctl >> 5) & 1,
        en_dfi_dram_clk_disable: (pwrctl >> 3) & 1,
        powerdown_en: (pwrctl >> 1) & 1,
        selfref_en: pwrctl & 1,
    };
    (saved, pwrctl & !0b10_1011u32)
}

/// PWRCTL, as read after the training, with the saved settings put back.
pub fn power_saving_restore(pwrctl: u32, saved: PowerSaving) -> (r: u32)
    ensures
        r == with_power_saving(pwrctl, saved),
{
    (pwrctl & !0b10_1011u32) | ((saved.selfref_sw & 1) << 5) | ((saved.en_dfi_dram_clk_disable & 1) << 3)
        | ((saved.powerdown_en & 1) << 1) | (saved.selfref_en & 1)
}

/// Turning the power-saving settings off and putting the saved ones back gives PWRCTL as
/// it was, when nothing else changed it in between; and while they are off, none of them
/// is on.
pub proof fn law_power_saving_round_trip(pwrctl: u32)
    ensures
        with_power_saving(pwrctl & !power_saving_mask(), power_saving_of(pwrctl)) == pwrctl,
        power_saving_of(pwrctl & !power_saving_mask()) == (PowerSaving {
            selfref_sw: 0,
            en_dfi_dram_clk_disable: 0,
            powerdown_en: 0,
            selfref_en: 0,
        }),
{
    let m: u32 = 0b10_1011;
    let off = pwrctl & !m;
    assert(((off & !m) | ((((pwrctl >> 5u32) & 1) & 1) << 5u32) | ((((pwrctl >> 3u32) & 1) & 1) << 3u32)
        | ((((pwrctl >> 1u32) & 1) & 1) << 1u32) | ((pwrctl & 1) & 1)) == pwrctl) by (bit_vector)
        requires
            m == 0b10_1011u32,
            off == pwrctl & !m,
    ;
    assert((off >> 5u32) & 1 == 0 && (off >> 3u32) & 1 == 0 && (off >> 1u32) & 1 == 0 && off & 1 == 0) by (bit_vector)
        requires
            m == 0b10_1011u32,
            off == pwrctl & !m,
    ;
}

/// Where the boot ROM loaded the boot loader from.
#[derive(Clone, Copy, Debug, PartialEq, Eq, Structural)]
pub enum BootSrc {
    SpiNand,
    SpiNor,
    Emmc,
    Sd,
    Usb,
    Uart,
}

/// The magic of the second parameter block, read as a little-endian 64-bit word:
/// "CVLD02\n\0".
pub const FIP_PARAM2_MAGIC1: u64 = 0x000A_3230_444c_5643;

/// The bytes of DDR parameters that the loader keeps at most.
pub const DDR_PARAM_MAX: u32 = 16 * 1024;

/// The size of DDR parameters that is loaded: the size in the second parameter block,
/// cut to what the buffer holds.
pub fn ddr_param_load_size(size: u32) -> (r: u32)
    ensures
        r == if size >= DDR_PARAM_MAX { DDR_PARAM_MAX } else { size },
{
    if size >= DDR_PARAM_MAX {
        DDR_PARAM_MAX
    } else {
        size
    }
}

/// The outcome of loading the second parameter block: the code of the load when it
/// failed, -1 when its magic or its checksum (`crc`, against `stored`) is wrong, and 0
/// when it is good.
pub fn param2_outcome(load_ret: i32, magic: u64, crc: u32, stored: u32) -> (r: i32)
    ensures
        r == if load_ret < 0 {
            load_ret
        } else if magic != FIP_PARAM2_MAGIC1 || crc != stored {
            -1i32
        } else {
            0i32
        },
{
    if load_ret < 0 {
        load_ret
    } else if magic != FIP_PARAM2_MAGIC1 {
        -1
    } else if crc != stored {
        -1
    } else {
        0
    }
}

/// The outcome of loading the DDR parameters: the code of the load when it failed, -1
/// when their checksum `crc` is not the one `stored` in the parameter block, else 0.
pub fn ddr_param_outcome(load_ret: i32, crc: u32, stored: u32) -> (r: i32)
    ensures
        r == if load_ret < 0 {
            load_ret
        } else if crc != stored {
            -1i32
        } else {
            0i32
        },
{
    if load_ret < 0 {
        load_ret
    } else if crc != stored {
        -1
    } else {
        0
    }
}

/// What the loading of the DDR parameters does next.
#[derive(Clone, Copy, Debug, PartialEq, Eq, Structural)]
pub enum LoadAction {
    /// Load and check the second parameter block, with this retry number.
    LoadParam2 { retry: i32 },
    /// Load and check the DDR parameters, with this retry number.
    LoadDdrParam { retry: i32 },
    /// No load was tried: look at where the boot loader came from (`fallback`).
    CheckBootSrc,
    /// Done: go on with the bring-up.
    Done,
}

/// Which load the loader waits for.
#[derive(Clone, Copy, Debug, PartialEq, Eq, Structural)]
pub enum LoadStage {
    Param2,
    DdrParam,
}

/// The retry loop of the loading of the DDR parameters: for each retry number below the
/// ROM's number of retries, the second parameter block then the DDR parameters; a
/// failure of either moves on to the next retry, and the loop ends after the first retry
/// in which both load. Only when the ROM allows no retry at all is the boot source asked.
pub struct DdrLoader {
    pub retries: i32,
    pub retry: i32,
    pub stage: LoadStage,
}

impl DdrLoader {
    /// Starts with the ROM's number of retries.
    pub fn start(retries: i32) -> (r: (DdrLoader, LoadAction))
        ensures
            r.0.retries == retries,
            r.0.retry == 0,
            r.0.stage == LoadStage::Param2,
            r.1 == if retries <= 0 { LoadAction::CheckBootSrc } else { LoadAction::LoadParam2 { retry: 0 } },
    {
        let l = DdrLoader { retries, retry: 0, stage: LoadStage::Param2 };
        if retries <= 0 {
            (l, LoadAction::CheckBootSrc)
        } else {
            (l, LoadAction::LoadParam2 { retry: 0 })
        }
    }

    /// Takes the outcome of the load it asked for (below 0 for a failure).
    pub fn on_outcome(&mut self, outcome: i32) -> (r: LoadAction)
        requires
            0 <= old(self).retry < old(self).retries,
        ensures
            final(self).retries == old(self).retries,
            0 <= final(self).retry < final(self).retries,
            old(self).stage == LoadStage::Param2 && outcome >= 0 ==> final(self).retry == old(self).retry
                && final(self).stage == LoadStage::DdrParam && r == (LoadAction::LoadDdrParam { retry: old(self).retry }),
            old(self).stage == LoadStage::DdrParam && outcome >= 0 ==> *final(self) == *old(self) && r == LoadAction::Done,
            outcome < 0 && old(self).retry + 1 < old(self).retries ==> final(self).retry == old(self).retry + 1
                && final(self).stage == LoadStage::Param2 && r == (LoadAction::LoadParam2 { retry: (old(self).retry + 1) as i32 }),
            outcome < 0 && old(self).retry + 1 >= old(self).retries ==> *final(self) == *old(self) && r == LoadAction::Done,
    {
        if outcome >= 0 {
            match self.stage {
                LoadStage::Param2 => {
                    self.stage = LoadStage::DdrParam;
                    LoadAction::LoadDdrParam { retry: self.retry }
                },
                LoadStage::DdrParam => LoadAction::Done,
            }
        } else if self.retry + 1 < self.retries {
            self.retry = self.retry + 1;
            self.stage = LoadStage::Param2;
            LoadAction::LoadParam2 { retry: self.retry }
        } else {
            LoadAction::Done
        }
    }
}

/// What the loader does when no load was tried, by where the boot loader came from: a
/// download source (UART, SD, USB) sets up the flash (`true`); any other is fatal
/// (`false`).
pub fn fallback(src: BootSrc) -> (r: bool)
    ensures
        r == (src == BootSrc::Uart || src == BootSrc::Sd || src == BootSrc::Usb),
{
    match src {
        BootSrc::Uart | BootSrc::Sd | BootSrc::Usb => true,
        _ => false,
    }
}

} // verus!
