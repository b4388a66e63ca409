//! Delays and elapsed time on the machine timer, which counts 25 000 000 ticks a second.
//! A delay waits until the timer, read again and again, has moved on far enough from
//! where it started (the difference wraps with the timer).
use vstd::prelude::*;

verus! {

/// The ticks of the machine timer in one second.
pub const SYS_COUNTER_FREQ_IN_SECOND: u64 = 25000000;

/// The ticks of the machine timer in one microsecond.
pub const SYS_COUNTER_FREQ_IN_US: u64 = SYS_COUNTER_FREQ_IN_SECOND / 1000000;

/// A delay that started at the time `start` and lasts `ticks`.
#[derive(Clone, Copy, Debug, PartialEq, Eq, Structural)]
pub struct Delay {
    pub start: u64,
    pub ticks: u64,
}

/// A delay of `clk` ticks from `start`.
pub fn odelay(clk: u64, start: u64) -> (d: Delay)
    ensures
        d == (Delay { start, ticks: clk }),
{
    Delay { start, ticks: clk }
}

/// A delay of `usec` microseconds from `start`.
pub fn udelay(usec: u64, start: u64) -> (d: Delay)
    requires
        usec * 25 <= u64::MAX,
    ensures
        d == (Delay { start, ticks: (usec * 25) as u64 }),
{
    assert(SYS_COUNTER_FREQ_IN_US == 25);
    Delay { start, ticks: usec * SYS_COUNTER_FREQ_IN_US }
}

/// A delay of `msec` milliseconds from `start`.
pub fn mdelay(msec: u64, start: u64) -> (d: Delay)
    requires
        msec * 25000 <= u64::MAX,
    ensures
        d == (Delay { start, ticks: (msec * 25000) as u64 }),
{
    udelay(msec * 1000, start)
}

impl Delay {
    /// The delay is over when the timer reads `now`.
    pub fn done(&self, now: u64) -> (r: bool)
        ensures
            r == (now.wrapping_sub(self.start) >= self.ticks),
    {
        now.wrapping_sub(self.start) >= self.ticks
    }
}

/// The milliseconds from the time `now` to the time `base`, or `now` itself for a `base`
/// of 0.
pub fn get_timer(base: u64, now: u64) -> (r: u64)
    requires
        base == 0 || now <= base,
    ensures
        base == 0 ==> r == now,
        base != 0 ==> r == (base - now) / 25 / 1000,
{
    assert(SYS_COUNTER_FREQ_IN_US == 25);
    if base == 0 {
        now
    } else {
        (base - now) / SYS_COUNTER_FREQ_IN_US / 1000
    }
}

/// The value of a 64-bit compare register read as its low and high 32-bit words.
pub fn compare_value(low: u32, high: u32) -> (r: u64)
    ensures
        r == low as u64 + high as u64 * 0x1_0000_0000,
{
    let r = (low as u64) | ((high as u64) << 32);
    assert(r == low as u64 + high as u64 * 0x1_0000_0000) by (bit_vector)
        requires
            r == (low as u64) | ((high as u64) << 32u64),
    ;
    r
}

/// The words written to set a 64-bit compare register to `val`, in order: all ones to the
/// high word first, so that no compare fires while the low word changes, then the low
/// word, then the high word.
pub fn compare_writes(val: u64) -> (r: [(bool, u32); 3])
    ensures
        r@[0] == (true, u32::MAX),
        r@[1] == (false, (val % 0x1_0000_0000) as u32),
        r@[2] == (true, (val / 0x1_0000_0000) as u32),
{
    let low = val as u32;
    let high = (val >> 32) as u32;
    assert(low == val % 0x1_0000_0000 && high == val / 0x1_0000_0000) by (bit_vector)
        requires
            low == val as u32,
            high == (val >> 32u64) as u32,
    ;
    [(true, u32::MAX), (false, low), (true, high)]
}

/// Writing a compare register and reading it back gives the value written.
pub proof fn law_compare_round_trip(val: u64)
    ensures
        (val % 0x1_0000_0000) as u32 as u64 + (val / 0x1_0000_0000) as u32 as u64 * 0x1_0000_0000 == val,
{
}

/// How one of the hardware timers counts: from the top of its range, or down from its
/// load value (bit 1 of its control word).
#[derive(Clone, Copy, Debug, PartialEq, Eq, Structural)]
pub enum TimerMode {
    Free,
    Count,
}

/// Whether the control word masks the timer's interrupt (bit 2).
pub fn get_masked(ctrl: u32) -> (r: bool)
    ensures
        r == (ctrl & 0b100 != 0),
{
    ctrl & 0b100 != 0
}

/// The control word with the interrupt masked or not.
pub fn set_masked(ctrl: u32, masked: bool) -> (r: u32)
    ensures
        r == if masked { ctrl | 0b100 } else { ctrl & !0b100u32 },
{
    if masked {
        ctrl | 0b100
    } else {
        ctrl & !0b100
    }
}

/// The mode that the control word selects.
pub fn get_mode(ctrl: u32) -> (r: TimerMode)
    ensures
        r == if ctrl & 0b10 == 0 { TimerMode::Free } else { TimerMode::Count },
{
    if ctrl & 0b10 == 0 {
        TimerMode::Free
    } else {
        TimerMode::Count
    }
}

/// The control word with the mode `mode`.
pub fn set_mode(ctrl: u32, mode: TimerMode) -> (r: u32)
    ensures
        r == match mode {
            TimerMode::Free => ctrl & !0b10u32,
            TimerMode::Count => ctrl | 0b10,
        },
{
    match mode {
        TimerMode::Free => ctrl & !0b10,
        TimerMode::Count => ctrl | 0b10,
    }
}

/// Whether the control word enables the timer (bit 0).
pub fn get_enabled(ctrl: u32) -> (r: bool)
    ensures
        r == (ctrl & 0b1 != 0),
{
    ctrl & 0b1 != 0
}

/// The control word with the timer enabled or not.
pub fn set_enabled(ctrl: u32, enabled: bool) -> (r: u32)
    ensures
        r == if enabled { ctrl | 0b1 } else { ctrl & !0b1u32 },
{
    if enabled {
        ctrl | 0b1
    } else {
        ctrl & !0b1
    }
}

/// Each setting of a control word reads back as set, and leaves the other two settings
/// and the bits above them as they were.
pub proof fn law_timer_ctrl_set_get(ctrl: u32, masked: bool, count: bool, enabled: bool)
    ensures
        ({
            let m = if masked { ctrl | 0b100 } else { ctrl & !0b100u32 };
            &&& (m & 0b100 != 0) == masked
            &&& m & 0b11 == ctrl & 0b11
            &&& m >> 3u32 == ctrl >> 3u32
        }),
        ({
            let c = if count { ctrl | 0b10 } else { ctrl & !0b10u32 };
            &&& (c & 0b10 != 0) == count
            &&& c & 0b101 == ctrl & 0b101
            &&& c >> 3u32 == ctrl >> 3u32
        }),
        ({
            let e = if enabled { ctrl | 0b1 } else { ctrl & !0b1u32 };
            &&& (e & 0b1 != 0) == enabled
            &&& e & 0b110 == ctrl & 0b110
            &&& e >> 3u32 == ctrl >> 3u32
        }),
{
    assert((ctrl | 0b100) & 0b100 != 0 && (ctrl & !0b100u32) & 0b100 == 0 && (ctrl | 0b100) & 0b11 == ctrl & 0b11
        && (ctrl & !0b100u32) & 0b11 == ctrl & 0b11 && (ctrl | 0b100) >> 3u32 == ctrl >> 3u32
        && (ctrl & !0b100u32) >> 3u32 == ctrl >> 3u32) by (bit_vector);
    assert((ctrl | 0b10) & 0b10 != 0 && (ctrl & !0b10u32) & 0b10 == 0 && (ctrl | 0b10) & 0b101 == ctrl & 0b101
        && (ctrl & !0b10u32) & 0b101 == ctrl & 0b101 && (ctrl | 0b10) >> 3u32 == ctrl >> 3u32
        && (ctrl & !0b10u32) >> 3u32 == ctrl >> 3u32) by (bit_vector);
    assert((ctrl | 0b1) & 0b1 != 0 && (ctrl & !0b1u32) & 0b1 == 0 && (ctrl | 0b1) & 0b110 == ctrl & 0b110
        && (ctrl & !0b1u32) & 0b110 == ctrl & 0b110 && (ctrl | 0b1) >> 3u32 == ctrl >> 3u32
        && (ctrl & !0b1u32) >> 3u32 == ctrl >> 3u32) by (bit_vector);
}

} // verus!
