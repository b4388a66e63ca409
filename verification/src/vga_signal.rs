//! The timing of the VGA signal that the second core draws by hand on GPIO pins: 640 by
//! 480 at 60 Hz, each frame-buffer pixel shown twice across, one timer tick per pixel.
use vstd::prelude::*;
use crate::regs::{H_SYNC_PIN, V_SYNC_PIN};

verus! {

pub const VERT_SCALE: u64 = 1;
pub const PIXEL_SCALE: u64 = 2;
pub const PIXEL_SCALE_DIV: u64 = 1;

pub const PIX_VIS: u64 = 640;
pub const H_FRONT_PORCH: u64 = 16;
pub const H_SYNC_PULSE: u64 = 96;
pub const H_BACK_PORCH: u64 = 48;
pub const H_TOTAL: u64 = PIX_VIS + H_FRONT_PORCH + H_SYNC_PULSE + H_BACK_PORCH;

pub const H_FP_M: u64 = 0;
pub const H_SP_M: u64 = 0;
pub const H_BP_M: u64 = 0;

pub const LINES_VIS: u64 = 480;
pub const V_FRONT_PORCH: u64 = 10;
pub const V_SYNC_PULSE: u64 = 2;
pub const V_BACK_PORCH: u64 = 525 - LINES_VIS - V_FRONT_PORCH - V_SYNC_PULSE;
pub const V_TOTAL: u64 = LINES_VIS + V_FRONT_PORCH + V_SYNC_PULSE + V_BACK_PORCH;

/// Timer ticks per pixel, as a fraction.
pub const PX_TIM: u64 = 1;
pub const PX_TIME_DIV_FACT: u64 = 1;

/// The frame buffer: one byte per pixel.
pub const WIDTH: u64 = PIX_VIS * PIXEL_SCALE_DIV / PIXEL_SCALE;
pub const HEIGHT: u64 = LINES_VIS / VERT_SCALE;

/// The words of the GPIO data register: each sync is low-active.
pub const H_SYNC_PH: u32 = 0;
pub const H_SYNC_PL: u32 = 1 << 20u32;
pub const V_SYNC_PH: u32 = 0;
pub const V_SYNC_PL: u32 = 1 << 21u32;

/// The ticks of `pix` pixels.
pub fn per_px(pix: u64) -> (r: u64)
    requires
        pix * PX_TIM <= u64::MAX,
    ensures
        r == pix,
{
    (pix * PX_TIM) / PX_TIME_DIV_FACT
}

/// The ticks from the start of a frame to that of line `line`.
pub fn per_line(line: u64) -> (r: u64)
    requires
        line * 800 <= u64::MAX,
    ensures
        r == line * 800,
{
    assert(H_TOTAL == 800);
    per_px(line * H_TOTAL)
}

/// Where in the frame buffer the pixels of the line `l` start.
pub fn line_address(start_addr: u64, l: u64) -> (r: u64)
    requires
        start_addr + l * 320 <= u64::MAX,
    ensures
        r == start_addr + l * 320,
{
    start_addr + l / VERT_SCALE * WIDTH
}

/// The time by which pixel `p` of a line that starts at `lstart` is done: two ticks a
/// pixel.
pub fn pixel_end(lstart: u64, p: u64) -> (r: u64)
    requires
        lstart + (p + 1) * 2 <= u64::MAX,
    ensures
        r == lstart + (p + 1) * 2,
{
    lstart + ((p + 1) * PIXEL_SCALE / PIXEL_SCALE_DIV * PX_TIM) / PX_TIME_DIV_FACT
}

/// The pixel that ends at `pend` is skipped when the time `now` is past the end of the
/// pixel after it.
pub fn pixel_late(pend: u64, now: u64) -> (r: bool)
    requires
        pend + 2 <= u64::MAX,
    ensures
        r == (pend + 2 < now),
{
    (pend + PX_TIM * PIXEL_SCALE / PIXEL_SCALE_DIV / PX_TIME_DIV_FACT) < now
}

/// When a line that starts at `lstart` ends its front porch, its sync pulse and its back
/// porch.
#[derive(Clone, Copy, Debug, PartialEq, Eq, Structural)]
pub struct LineTiming {
    pub front_porch_end: u64,
    pub sync_end: u64,
    pub back_porch_end: u64,
}

/// The ends of the parts of a line that starts at `lstart`.
pub fn line_timing(lstart: u64) -> (r: LineTiming)
    requires
        lstart + 800 <= u64::MAX,
    ensures
        r.front_porch_end == lstart + 656,
        r.sync_end == lstart + 752,
        r.back_porch_end == lstart + 800,
{
    LineTiming {
        front_porch_end: H_FP_M + lstart + per_px(PIX_VIS + H_FRONT_PORCH),
        sync_end: H_SP_M + lstart + per_px(PIX_VIS + H_FRONT_PORCH + H_SYNC_PULSE),
        back_porch_end: H_BP_M + lstart + per_px(PIX_VIS + H_FRONT_PORCH + H_SYNC_PULSE + H_BACK_PORCH),
    }
}

/// The words that a line drives after its pixels, during its sync pulse and after it:
/// the horizontal sync pulses on every line, the vertical one on the lines of the
/// vertical sync.
pub fn line_sync_words(l: u64) -> (r: (u32, u32, u32))
    requires
        l < V_TOTAL,
    ensures
        480 + 10 <= l < 480 + 10 + 2 ==> r == (1u32 << 20u32, 0u32, 1u32 << 20u32),
        !(480 + 10 <= l < 480 + 10 + 2) ==> r == ((1u32 << 20u32) | (1u32 << 21u32), 1u32 << 21u32, (1u32 << 20u32) | (1u32 << 21u32)),
{
    assert((1u32 << 20u32) | 0u32 == 1u32 << 20u32 && 0u32 | 0u32 == 0u32 && 0u32 | (1u32 << 21u32) == 1u32 << 21u32)
        by (bit_vector);
    if LINES_VIS + V_FRONT_PORCH <= l && l < LINES_VIS + V_FRONT_PORCH + V_SYNC_PULSE {
        (H_SYNC_PL | V_SYNC_PH, H_SYNC_PH | V_SYNC_PH, H_SYNC_PL | V_SYNC_PH)
    } else {
        (H_SYNC_PL | V_SYNC_PL, H_SYNC_PH | V_SYNC_PL, H_SYNC_PL | V_SYNC_PL)
    }
}

} // verus!
