//! The register map of the display pipeline: the scaler, the display engine, the
//! graphics overlays and the DSI controller and PHY.
use vstd::prelude::*;

verus! {

pub const REG_SCL_TOP_BASE: u32 = 0x0A080000;

pub const REG_DSI_WRAP_BASE: u32 = 0x0300C000;

pub const REG_GOP_OFFSET: u32 = 0x800;

pub const REG_MAP_BASE: u32 = REG_SCL_TOP_BASE + 0x1000;

pub const REG_SCL_DISP_BASE: u32 = REG_SCL_TOP_BASE + 0x8000;

pub const REG_SCL_BT_BASE: u32 = REG_SCL_TOP_BASE + 0x9000;

pub const REG_SCL_DSI_BASE: u32 = REG_SCL_TOP_BASE + 0xA000;

pub const REG_SCL_CMDQ_BASE: u32 = REG_SCL_TOP_BASE + 0xB000;

pub const REG_SCL_TOP_CFG0: u32 = REG_SCL_TOP_BASE + 0x00;

pub const REG_SCL_TOP_CFG1: u32 = REG_SCL_TOP_BASE + 0x04;

pub const REG_SCL_TOP_AXI: u32 = REG_SCL_TOP_BASE + 0x08;

pub const REG_SCL_TOP_BT_CFG: u32 = REG_SCL_TOP_BASE + 0x0C;

pub const REG_SCL_TOP_SHD: u32 = REG_SCL_TOP_BASE + 0x10;

pub const REG_SCL_TOP_INTR_MASK: u32 = REG_SCL_TOP_BASE + 0x30;

pub const REG_SCL_TOP_INTR_STATUS: u32 = REG_SCL_TOP_BASE + 0x34;

pub const REG_SCL_TOP_INTR_ENABLE: u32 = REG_SCL_TOP_BASE + 0x38;

pub const REG_SCL_TOP_IMG_CTRL: u32 = REG_SCL_TOP_BASE + 0x40;

pub const REG_SCL_TOP_CMDQ_START: u32 = REG_SCL_TOP_BASE + 0x44;

pub const REG_SCL_TOP_CMDQ_STOP: u32 = REG_SCL_TOP_BASE + 0x48;

pub const REG_SCL_TOP_PG: u32 = REG_SCL_TOP_BASE + 0x4C;

pub const REG_SCL_TOP_LVDSTX: u32 = REG_SCL_TOP_BASE + 0x50;

pub const REG_SCL_TOP_BT_ENC: u32 = REG_SCL_TOP_BASE + 0x60;

pub const REG_SCL_TOP_BT_SYNC_CODE: u32 = REG_SCL_TOP_BASE + 0x64;

pub const REG_SCL_TOP_BT_BLK_DATA: u32 = REG_SCL_TOP_BASE + 0x68;

pub const REG_SCL_TOP_VO_MUX: u32 = REG_SCL_TOP_BASE + 0x70;

pub const REG_SCL_DISP_CFG: u32 = REG_SCL_DISP_BASE + 0x00;

pub const REG_SCL_DISP_TOTAL: u32 = REG_SCL_DISP_BASE + 0x04;

pub const REG_SCL_DISP_VSYNC: u32 = REG_SCL_DISP_BASE + 0x08;

pub const REG_SCL_DISP_VFDE: u32 = REG_SCL_DISP_BASE + 0x0C;

pub const REG_SCL_DISP_VMDE: u32 = REG_SCL_DISP_BASE + 0x10;

pub const REG_SCL_DISP_HSYNC: u32 = REG_SCL_DISP_BASE + 0x14;

pub const REG_SCL_DISP_HFDE: u32 = REG_SCL_DISP_BASE + 0x18;

pub const REG_SCL_DISP_HMDE: u32 = REG_SCL_DISP_BASE + 0x1C;

pub const REG_SCL_DISP_ADDR0_L: u32 = REG_SCL_DISP_BASE + 0x34;

pub const REG_SCL_DISP_ADDR0_H: u32 = REG_SCL_DISP_BASE + 0x38;

pub const REG_SCL_DISP_ADDR1_L: u32 = REG_SCL_DISP_BASE + 0x3C;

pub const REG_SCL_DISP_ADDR1_H: u32 = REG_SCL_DISP_BASE + 0x40;

pub const REG_SCL_DISP_ADDR2_L: u32 = REG_SCL_DISP_BASE + 0x44;

pub const REG_SCL_DISP_ADDR2_H: u32 = REG_SCL_DISP_BASE + 0x48;

pub const REG_SCL_DISP_PITCH_Y: u32 = REG_SCL_DISP_BASE + 0x4C;

pub const REG_SCL_DISP_PITCH_C: u32 = REG_SCL_DISP_BASE + 0x50;

pub const REG_SCL_DISP_OFFSET: u32 = REG_SCL_DISP_BASE + 0x50;

pub const REG_SCL_DISP_SIZE: u32 = REG_SCL_DISP_BASE + 0x58;

pub const REG_SCL_DISP_OUT_CSC0: u32 = REG_SCL_DISP_BASE + 0x5C;

pub const REG_SCL_DISP_OUT_CSC1: u32 = REG_SCL_DISP_BASE + 0x60;

pub const REG_SCL_DISP_OUT_CSC2: u32 = REG_SCL_DISP_BASE + 0x64;

pub const REG_SCL_DISP_OUT_CSC3: u32 = REG_SCL_DISP_BASE + 0x68;

pub const REG_SCL_DISP_OUT_CSC4: u32 = REG_SCL_DISP_BASE + 0x6C;

pub const REG_SCL_DISP_OUT_CSC_SUB: u32 = REG_SCL_DISP_BASE + 0x70;

pub const REG_SCL_DISP_OUT_CSC_ADD: u32 = REG_SCL_DISP_BASE + 0x74;

pub const REG_SCL_DISP_IN_CSC0: u32 = REG_SCL_DISP_BASE + 0x78;

pub const REG_SCL_DISP_IN_CSC1: u32 = REG_SCL_DISP_BASE + 0x7C;

pub const REG_SCL_DISP_IN_CSC2: u32 = REG_SCL_DISP_BASE + 0x80;

pub const REG_SCL_DISP_IN_CSC3: u32 = REG_SCL_DISP_BASE + 0x84;

pub const REG_SCL_DISP_IN_CSC4: u32 = REG_SCL_DISP_BASE + 0x88;

pub const REG_SCL_DISP_IN_CSC_SUB: u32 = REG_SCL_DISP_BASE + 0x8C;

pub const REG_SCL_DISP_IN_CSC_ADD: u32 = REG_SCL_DISP_BASE + 0x90;

pub const REG_SCL_DISP_PAT_CFG: u32 = REG_SCL_DISP_BASE + 0x94;

pub const REG_SCL_DISP_PAT_COLOR0: u32 = REG_SCL_DISP_BASE + 0x98;

pub const REG_SCL_DISP_PAT_COLOR1: u32 = REG_SCL_DISP_BASE + 0x9C;

pub const REG_SCL_DISP_PAT_COLOR2: u32 = REG_SCL_DISP_BASE + 0xA0;

pub const REG_SCL_DISP_PAT_COLOR3: u32 = REG_SCL_DISP_BASE + 0xA4;

pub const REG_SCL_DISP_PAT_COLOR4: u32 = REG_SCL_DISP_BASE + 0xA8;

pub const REG_SCL_DISP_DBG: u32 = REG_SCL_DISP_BASE + 0xAC;

pub const REG_SCL_DISP_AXI_ST: u32 = REG_SCL_DISP_BASE + 0xB0;

pub const REG_SCL_DISP_CACHE: u32 = REG_SCL_DISP_BASE + 0xC0;

pub const REG_SCL_DISP_DUMMY: u32 = REG_SCL_DISP_BASE + 0xF8;

pub const REG_SCL_DISP_GAMMA_CTRL: u32 = REG_SCL_DISP_BASE + 0x180;

pub const REG_SCL_DISP_GAMMA_WR_LUT: u32 = REG_SCL_DISP_BASE + 0x184;

pub const REG_SCL_DISP_GAMMA_RD_LUT: u32 = REG_SCL_DISP_BASE + 0x188;

pub const REG_SCL_DISP_MCU_IF_CTRL: u32 = REG_SCL_DISP_BASE + 0x200;

pub const REG_SCL_DISP_MCU_SW_CTRL: u32 = REG_SCL_DISP_BASE + 0x204;

pub const REG_SCL_DISP_MCU_STATUS: u32 = REG_SCL_DISP_BASE + 0x208;

pub const REG_SCL_DISP_GOP_CFG: u32 = REG_SCL_DISP_BASE + REG_GOP_OFFSET + 0x100;

pub const REG_SCL_DISP_GOP_LUT0: u32 = REG_SCL_DISP_BASE + REG_GOP_OFFSET + 0x104;

pub const REG_SCL_DISP_GOP_LUT1: u32 = REG_SCL_DISP_BASE + REG_GOP_OFFSET + 0x108;

pub const REG_SCL_DISP_GOP_COLORKEY: u32 = REG_SCL_DISP_BASE + REG_GOP_OFFSET + 0x10c;

pub const REG_SCL_DISP_GOP_FONTCOLOR: u32 = REG_SCL_DISP_BASE + REG_GOP_OFFSET + 0x110;

pub const REG_SCL_DSI_MAC_EN: u32 = REG_SCL_DSI_BASE + 0x00;

pub const REG_SCL_DSI_HS_0: u32 = REG_SCL_DSI_BASE + 0x04;

pub const REG_SCL_DSI_HS_1: u32 = REG_SCL_DSI_BASE + 0x08;

pub const REG_SCL_DSI_ESC: u32 = REG_SCL_DSI_BASE + 0x0C;

pub const REG_SCL_DSI_ESC_TX0: u32 = REG_SCL_DSI_BASE + 0x10;

pub const REG_SCL_DSI_ESC_TX1: u32 = REG_SCL_DSI_BASE + 0x14;

pub const REG_SCL_DSI_ESC_TX2: u32 = REG_SCL_DSI_BASE + 0x18;

pub const REG_SCL_DSI_ESC_TX3: u32 = REG_SCL_DSI_BASE + 0x1C;

pub const REG_SCL_DSI_ESC_RX0: u32 = REG_SCL_DSI_BASE + 0x20;

pub const REG_SCL_DSI_ESC_RX1: u32 = REG_SCL_DSI_BASE + 0x24;

pub const REG_DSI_PHY_EN: u32 = REG_DSI_WRAP_BASE + 0x00;

pub const REG_DSI_PHY_CLK_CFG1: u32 = REG_DSI_WRAP_BASE + 0x04;

pub const REG_DSI_PHY_CLK_CFG2: u32 = REG_DSI_WRAP_BASE + 0x08;

pub const REG_DSI_PHY_ESC_INIT: u32 = REG_DSI_WRAP_BASE + 0x0C;

pub const REG_DSI_PHY_ESC_WAKE: u32 = REG_DSI_WRAP_BASE + 0x10;

pub const REG_DSI_PHY_HS_CFG1: u32 = REG_DSI_WRAP_BASE + 0x14;

pub const REG_DSI_PHY_HS_CFG2: u32 = REG_DSI_WRAP_BASE + 0x18;

pub const REG_DSI_PHY_CAL_CFG: u32 = REG_DSI_WRAP_BASE + 0x1C;

pub const REG_DSI_PHY_CAL_NUM: u32 = REG_DSI_WRAP_BASE + 0x20;

pub const REG_DSI_PHY_CLK_STATE: u32 = REG_DSI_WRAP_BASE + 0x24;

pub const REG_DSI_PHY_DATA0_STATE: u32 = REG_DSI_WRAP_BASE + 0x28;

pub const REG_DSI_PHY_DATA12_STATE: u32 = REG_DSI_WRAP_BASE + 0x2C;

pub const REG_DSI_PHY_DATA3_STATE: u32 = REG_DSI_WRAP_BASE + 0x30;

pub const REG_DSI_PHY_HS_OV: u32 = REG_DSI_WRAP_BASE + 0x38;

pub const REG_DSI_PHY_HS_SW1: u32 = REG_DSI_WRAP_BASE + 0x3C;

pub const REG_DSI_PHY_HS_SW2: u32 = REG_DSI_WRAP_BASE + 0x40;

pub const REG_DSI_PHY_DATA_OV: u32 = REG_DSI_WRAP_BASE + 0x44;

pub const REG_DSI_PHY_LPTX_OV: u32 = REG_DSI_WRAP_BASE + 0x4C;

pub const REG_DSI_PHY_LPRX_OV: u32 = REG_DSI_WRAP_BASE + 0x4C;

pub const REG_DSI_PHY_PD: u32 = REG_DSI_WRAP_BASE + 0x64;

pub const REG_DSI_PHY_TXPLL: u32 = REG_DSI_WRAP_BASE + 0x6C;

pub const REG_DSI_PHY_REG_8C: u32 = REG_DSI_WRAP_BASE + 0x8C;

pub const REG_DSI_PHY_REG_SET: u32 = REG_DSI_WRAP_BASE + 0x90;

pub const REG_DSI_PHY_LANE_SEL: u32 = REG_DSI_WRAP_BASE + 0x9C;

pub const REG_DSI_PHY_LANE_PN_SWAP: u32 = REG_DSI_WRAP_BASE + 0xA0;

pub const REG_DSI_PHY_LVDS_EN: u32 = REG_DSI_WRAP_BASE + 0xB4;

pub const REG_DSI_PHY_EXT_GPIO: u32 = REG_DSI_WRAP_BASE + 0xC0;


/// The address that `REG_SCL_IMG_BASE` names.
pub open spec fn reg_scl_img_base_spec(x: u32) -> int {
    REG_SCL_TOP_BASE + 0x2000 + 0x1000*x
}

#[allow(non_snake_case)]
pub fn REG_SCL_IMG_BASE(x: u32) -> (r: u32)
    requires
        reg_scl_img_base_spec(x) <= u32::MAX,
    ensures
        r == reg_scl_img_base_spec(x),
{
    REG_SCL_TOP_BASE + 0x2000 + 0x1000*x
}

/// The address that `REG_SCL_CORE_BASE` names.
pub open spec fn reg_scl_core_base_spec(x: u32) -> int {
    REG_SCL_TOP_BASE + 0x4000 + 0x1000*x
}

#[allow(non_snake_case)]
pub fn REG_SCL_CORE_BASE(x: u32) -> (r: u32)
    requires
        reg_scl_core_base_spec(x) <= u32::MAX,
    ensures
        r == reg_scl_core_base_spec(x),
{
    REG_SCL_TOP_BASE + 0x4000 + 0x1000*x
}

/// The address that `REG_SCL_IMG_CFG` names.
pub open spec fn reg_scl_img_cfg_spec(x: u32) -> int {
    reg_scl_img_base_spec(x) + 0x00
}

#[allow(non_snake_case)]
pub fn REG_SCL_IMG_CFG(x: u32) -> (r: u32)
    requires
        reg_scl_img_cfg_spec(x) <= u32::MAX,
    ensures
        r == reg_scl_img_cfg_spec(x),
{
    REG_SCL_IMG_BASE(x) + 0x00
}

/// The address that `REG_SCL_IMG_OFFSET` names.
pub open spec fn reg_scl_img_offset_spec(x: u32) -> int {
    reg_scl_img_base_spec(x) + 0x04
}

#[allow(non_snake_case)]
pub fn REG_SCL_IMG_OFFSET(x: u32) -> (r: u32)
    requires
        reg_scl_img_offset_spec(x) <= u32::MAX,
    ensures
        r == reg_scl_img_offset_spec(x),
{
    REG_SCL_IMG_BASE(x) + 0x04
}

/// The address that `REG_SCL_IMG_SIZE` names.
pub open spec fn reg_scl_img_size_spec(x: u32) -> int {
    reg_scl_img_base_spec(x) + 0x08
}

#[allow(non_snake_case)]
pub fn REG_SCL_IMG_SIZE(x: u32) -> (r: u32)
    requires
        reg_scl_img_size_spec(x) <= u32::MAX,
    ensures
        r == reg_scl_img_size_spec(x),
{
    REG_SCL_IMG_BASE(x) + 0x08
}

/// The address that `REG_SCL_IMG_PITCH_Y` names.
pub open spec fn reg_scl_img_pitch_y_spec(x: u32) -> int {
    reg_scl_img_base_spec(x) + 0x0C
}

#[allow(non_snake_case)]
pub fn REG_SCL_IMG_PITCH_Y(x: u32) -> (r: u32)
    requires
        reg_scl_img_pitch_y_spec(x) <= u32::MAX,
    ensures
        r == reg_scl_img_pitch_y_spec(x),
{
    REG_SCL_IMG_BASE(x) + 0x0C
}

/// The address that `REG_SCL_IMG_PITCH_C` names.
pub open spec fn reg_scl_img_pitch_c_spec(x: u32) -> int {
    reg_scl_img_base_spec(x) + 0x10
}

#[allow(non_snake_case)]
pub fn REG_SCL_IMG_PITCH_C(x: u32) -> (r: u32)
    requires
        reg_scl_img_pitch_c_spec(x) <= u32::MAX,
    ensures
        r == reg_scl_img_pitch_c_spec(x),
{
    REG_SCL_IMG_BASE(x) + 0x10
}

/// The address that `REG_SCL_IMG_SHD` names.
pub open spec fn reg_scl_img_shd_spec(x: u32) -> int {
    reg_scl_img_base_spec(x) + 0x14
}

#[allow(non_snake_case)]
pub fn REG_SCL_IMG_SHD(x: u32) -> (r: u32)
    requires
        reg_scl_img_shd_spec(x) <= u32::MAX,
    ensures
        r == reg_scl_img_shd_spec(x),
{
    REG_SCL_IMG_BASE(x) + 0x14
}

/// The address that `REG_SCL_IMG_ADDR0_L` names.
pub open spec fn reg_scl_img_addr0_l_spec(x: u32) -> int {
    reg_scl_img_base_spec(x) + 0x24
}

#[allow(non_snake_case)]
pub fn REG_SCL_IMG_ADDR0_L(x: u32) -> (r: u32)
    requires
        reg_scl_img_addr0_l_spec(x) <= u32::MAX,
    ensures
        r == reg_scl_img_addr0_l_spec(x),
{
    REG_SCL_IMG_BASE(x) + 0x24
}

/// The address that `REG_SCL_IMG_ADDR0_H` names.
pub open spec fn reg_scl_img_addr0_h_spec(x: u32) -> int {
    reg_scl_img_base_spec(x) + 0x28
}

#[allow(non_snake_case)]
pub fn REG_SCL_IMG_ADDR0_H(x: u32) -> (r: u32)
    requires
        reg_scl_img_addr0_h_spec(x) <= u32::MAX,
    ensures
        r == reg_scl_img_addr0_h_spec(x),
{
    REG_SCL_IMG_BASE(x) + 0x28
}

/// The address that `REG_SCL_IMG_ADDR1_L` names.
pub open spec fn reg_scl_img_addr1_l_spec(x: u32) -> int {
    reg_scl_img_base_spec(x) + 0x2C
}

#[allow(non_snake_case)]
pub fn REG_SCL_IMG_ADDR1_L(x: u32) -> (r: u32)
    requires
        reg_scl_img_addr1_l_spec(x) <= u32::MAX,
    ensures
        r == reg_scl_img_addr1_l_spec(x),
{
    REG_SCL_IMG_BASE(x) + 0x2C
}

/// The address that `REG_SCL_IMG_ADDR1_H` names.
pub open spec fn reg_scl_img_addr1_h_spec(x: u32) -> int {
    reg_scl_img_base_spec(x) + 0x30
}

#[allow(non_snake_case)]
pub fn REG_SCL_IMG_ADDR1_H(x: u32) -> (r: u32)
    requires
        reg_scl_img_addr1_h_spec(x) <= u32::MAX,
    ensures
        r == reg_scl_img_addr1_h_spec(x),
{
    REG_SCL_IMG_BASE(x) + 0x30
}

/// The address that `REG_SCL_IMG_ADDR2_L` names.
pub open spec fn reg_scl_img_addr2_l_spec(x: u32) -> int {
    reg_scl_img_base_spec(x) + 0x34
}

#[allow(non_snake_case)]
pub fn REG_SCL_IMG_ADDR2_L(x: u32) -> (r: u32)
    requires
        reg_scl_img_addr2_l_spec(x) <= u32::MAX,
    ensures
        r == reg_scl_img_addr2_l_spec(x),
{
    REG_SCL_IMG_BASE(x) + 0x34
}

/// The address that `REG_SCL_IMG_ADDR2_H` names.
pub open spec fn reg_scl_img_addr2_h_spec(x: u32) -> int {
    reg_scl_img_base_spec(x) + 0x38
}

#[allow(non_snake_case)]
pub fn REG_SCL_IMG_ADDR2_H(x: u32) -> (r: u32)
    requires
        reg_scl_img_addr2_h_spec(x) <= u32::MAX,
    ensures
        r == reg_scl_img_addr2_h_spec(x),
{
    REG_SCL_IMG_BASE(x) + 0x38
}

/// The address that `REG_SCL_IMG_CSC_COEF0` names.
pub open spec fn reg_scl_img_csc_coef0_spec(x: u32) -> int {
    reg_scl_img_base_spec(x) + 0x40
}

#[allow(non_snake_case)]
pub fn REG_SCL_IMG_CSC_COEF0(x: u32) -> (r: u32)
    requires
        reg_scl_img_csc_coef0_spec(x) <= u32::MAX,
    ensures
        r == reg_scl_img_csc_coef0_spec(x),
{
    REG_SCL_IMG_BASE(x) + 0x40
}

/// The address that `REG_SCL_IMG_CSC_COEF1` names.
pub open spec fn reg_scl_img_csc_coef1_spec(x: u32) -> int {
    reg_scl_img_base_spec(x) + 0x44
}

#[allow(non_snake_case)]
pub fn REG_SCL_IMG_CSC_COEF1(x: u32) -> (r: u32)
    requires
        reg_scl_img_csc_coef1_spec(x) <= u32::MAX,
    ensures
        r == reg_scl_img_csc_coef1_spec(x),
{
    REG_SCL_IMG_BASE(x) + 0x44
}

/// The address that `REG_SCL_IMG_CSC_COEF2` names.
pub open spec fn reg_scl_img_csc_coef2_spec(x: u32) -> int {
    reg_scl_img_base_spec(x) + 0x48
}

#[allow(non_snake_case)]
pub fn REG_SCL_IMG_CSC_COEF2(x: u32) -> (r: u32)
    requires
        reg_scl_img_csc_coef2_spec(x) <= u32::MAX,
    ensures
        r == reg_scl_img_csc_coef2_spec(x),
{
    REG_SCL_IMG_BASE(x) + 0x48
}

/// The address that `REG_SCL_IMG_CSC_COEF3` names.
pub open spec fn reg_scl_img_csc_coef3_spec(x: u32) -> int {
    reg_scl_img_base_spec(x) + 0x4C
}

#[allow(non_snake_case)]
pub fn REG_SCL_IMG_CSC_COEF3(x: u32) -> (r: u32)
    requires
        reg_scl_img_csc_coef3_spec(x) <= u32::MAX,
    ensures
        r == reg_scl_img_csc_coef3_spec(x),
{
    REG_SCL_IMG_BASE(x) + 0x4C
}

/// The address that `REG_SCL_IMG_CSC_COEF4` names.
pub open spec fn reg_scl_img_csc_coef4_spec(x: u32) -> int {
    reg_scl_img_base_spec(x) + 0x50
}

#[allow(non_snake_case)]
pub fn REG_SCL_IMG_CSC_COEF4(x: u32) -> (r: u32)
    requires
        reg_scl_img_csc_coef4_spec(x) <= u32::MAX,
    ensures
        r == reg_scl_img_csc_coef4_spec(x),
{
    REG_SCL_IMG_BASE(x) + 0x50
}

/// The address that `REG_SCL_IMG_CSC_COEF5` names.
pub open spec fn reg_scl_img_csc_coef5_spec(x: u32) -> int {
    reg_scl_img_base_spec(x) + 0x54
}

#[allow(non_snake_case)]
pub fn REG_SCL_IMG_CSC_COEF5(x: u32) -> (r: u32)
    requires
        reg_scl_img_csc_coef5_spec(x) <= u32::MAX,
    ensures
        r == reg_scl_img_csc_coef5_spec(x),
{
    REG_SCL_IMG_BASE(x) + 0x54
}

/// The address that `REG_SCL_IMG_CSC_SUB` names.
pub open spec fn reg_scl_img_csc_sub_spec(x: u32) -> int {
    reg_scl_img_base_spec(x) + 0x58
}

#[allow(non_snake_case)]
pub fn REG_SCL_IMG_CSC_SUB(x: u32) -> (r: u32)
    requires
        reg_scl_img_csc_sub_spec(x) <= u32::MAX,
    ensures
        r == reg_scl_img_csc_sub_spec(x),
{
    REG_SCL_IMG_BASE(x) + 0x58
}

/// The address that `REG_SCL_IMG_CSC_ADD` names.
pub open spec fn reg_scl_img_csc_add_spec(x: u32) -> int {
    reg_scl_img_base_spec(x) + 0x5C
}

#[allow(non_snake_case)]
pub fn REG_SCL_IMG_CSC_ADD(x: u32) -> (r: u32)
    requires
        reg_scl_img_csc_add_spec(x) <= u32::MAX,
    ensures
        r == reg_scl_img_csc_add_spec(x),
{
    REG_SCL_IMG_BASE(x) + 0x5C
}

/// The address that `REG_SCL_IMG_DBG` names.
pub open spec fn reg_scl_img_dbg_spec(x: u32) -> int {
    reg_scl_img_base_spec(x) + 0x68
}

#[allow(non_snake_case)]
pub fn REG_SCL_IMG_DBG(x: u32) -> (r: u32)
    requires
        reg_scl_img_dbg_spec(x) <= u32::MAX,
    ensures
        r == reg_scl_img_dbg_spec(x),
{
    REG_SCL_IMG_BASE(x) + 0x68
}

/// The address that `REG_SCL_CIR_BASE` names.
pub open spec fn reg_scl_cir_base_spec(x: u32) -> int {
    reg_scl_core_base_spec(x) + 0x200
}

#[allow(non_snake_case)]
pub fn REG_SCL_CIR_BASE(x: u32) -> (r: u32)
    requires
        reg_scl_cir_base_spec(x) <= u32::MAX,
    ensures
        r == reg_scl_cir_base_spec(x),
{
    REG_SCL_CORE_BASE(x) + 0x200
}

/// The address that `REG_SCL_GOP_BASE` names.
pub open spec fn reg_scl_gop_base_spec(x: u32) -> int {
    reg_scl_core_base_spec(x) + REG_GOP_OFFSET
}

#[allow(non_snake_case)]
pub fn REG_SCL_GOP_BASE(x: u32) -> (r: u32)
    requires
        reg_scl_gop_base_spec(x) <= u32::MAX,
    ensures
        r == reg_scl_gop_base_spec(x),
{
    REG_SCL_CORE_BASE(x) + REG_GOP_OFFSET
}

/// The address that `REG_SCL_BORDER_BASE` names.
pub open spec fn reg_scl_border_base_spec(x: u32) -> int {
    reg_scl_core_base_spec(x) + 0xA00
}

#[allow(non_snake_case)]
pub fn REG_SCL_BORDER_BASE(x: u32) -> (r: u32)
    requires
        reg_scl_border_base_spec(x) <= u32::MAX,
    ensures
        r == reg_scl_border_base_spec(x),
{
    REG_SCL_CORE_BASE(x) + 0xA00
}

/// The address that `REG_SCL_ODMA_BASE` names.
pub open spec fn reg_scl_odma_base_spec(x: u32) -> int {
    reg_scl_core_base_spec(x) + 0xC00
}

#[allow(non_snake_case)]
pub fn REG_SCL_ODMA_BASE(x: u32) -> (r: u32)
    requires
        reg_scl_odma_base_spec(x) <= u32::MAX,
    ensures
        r == reg_scl_odma_base_spec(x),
{
    REG_SCL_CORE_BASE(x) + 0xC00
}

/// The address that `REG_SCL_CSC_BASE` names.
pub open spec fn reg_scl_csc_base_spec(x: u32) -> int {
    reg_scl_core_base_spec(x) + 0xD00
}

#[allow(non_snake_case)]
pub fn REG_SCL_CSC_BASE(x: u32) -> (r: u32)
    requires
        reg_scl_csc_base_spec(x) <= u32::MAX,
    ensures
        r == reg_scl_csc_base_spec(x),
{
    REG_SCL_CORE_BASE(x) + 0xD00
}

/// The address that `REG_SCL_CFG` names.
pub open spec fn reg_scl_cfg_spec(x: u32) -> int {
    reg_scl_core_base_spec(x) + 0x00
}

#[allow(non_snake_case)]
pub fn REG_SCL_CFG(x: u32) -> (r: u32)
    requires
        reg_scl_cfg_spec(x) <= u32::MAX,
    ensures
        r == reg_scl_cfg_spec(x),
{
    REG_SCL_CORE_BASE(x) + 0x00
}

/// The address that `REG_SCL_SHD` names.
pub open spec fn reg_scl_shd_spec(x: u32) -> int {
    reg_scl_core_base_spec(x) + 0x04
}

#[allow(non_snake_case)]
pub fn REG_SCL_SHD(x: u32) -> (r: u32)
    requires
        reg_scl_shd_spec(x) <= u32::MAX,
    ensures
        r == reg_scl_shd_spec(x),
{
    REG_SCL_CORE_BASE(x) + 0x04
}

/// The address that `REG_SCL_STATUS` names.
pub open spec fn reg_scl_status_spec(x: u32) -> int {
    reg_scl_core_base_spec(x) + 0x08
}

#[allow(non_snake_case)]
pub fn REG_SCL_STATUS(x: u32) -> (r: u32)
    requires
        reg_scl_status_spec(x) <= u32::MAX,
    ensures
        r == reg_scl_status_spec(x),
{
    REG_SCL_CORE_BASE(x) + 0x08
}

/// The address that `REG_SCL_SRC_SIZE` names.
pub open spec fn reg_scl_src_size_spec(x: u32) -> int {
    reg_scl_core_base_spec(x) + 0x0c
}

#[allow(non_snake_case)]
pub fn REG_SCL_SRC_SIZE(x: u32) -> (r: u32)
    requires
        reg_scl_src_size_spec(x) <= u32::MAX,
    ensures
        r == reg_scl_src_size_spec(x),
{
    REG_SCL_CORE_BASE(x) + 0x0c
}

/// The address that `REG_SCL_CROP_OFFSET` names.
pub open spec fn reg_scl_crop_offset_spec(x: u32) -> int {
    reg_scl_core_base_spec(x) + 0x10
}

#[allow(non_snake_case)]
pub fn REG_SCL_CROP_OFFSET(x: u32) -> (r: u32)
    requires
        reg_scl_crop_offset_spec(x) <= u32::MAX,
    ensures
        r == reg_scl_crop_offset_spec(x),
{
    REG_SCL_CORE_BASE(x) + 0x10
}

/// The address that `REG_SCL_CROP_SIZE` names.
pub open spec fn reg_scl_crop_size_spec(x: u32) -> int {
    reg_scl_core_base_spec(x) + 0x14
}

#[allow(non_snake_case)]
pub fn REG_SCL_CROP_SIZE(x: u32) -> (r: u32)
    requires
        reg_scl_crop_size_spec(x) <= u32::MAX,
    ensures
        r == reg_scl_crop_size_spec(x),
{
    REG_SCL_CORE_BASE(x) + 0x14
}

/// The address that `REG_SCL_COEF0` names.
pub open spec fn reg_scl_coef0_spec(x: u32) -> int {
    reg_scl_core_base_spec(x) + 0x118
}

#[allow(non_snake_case)]
pub fn REG_SCL_COEF0(x: u32) -> (r: u32)
    requires
        reg_scl_coef0_spec(x) <= u32::MAX,
    ensures
        r == reg_scl_coef0_spec(x),
{
    REG_SCL_CORE_BASE(x) + 0x118
}

/// The address that `REG_SCL_COEF1` names.
pub open spec fn reg_scl_coef1_spec(x: u32) -> int {
    reg_scl_core_base_spec(x) + 0x11C
}

#[allow(non_snake_case)]
pub fn REG_SCL_COEF1(x: u32) -> (r: u32)
    requires
        reg_scl_coef1_spec(x) <= u32::MAX,
    ensures
        r == reg_scl_coef1_spec(x),
{
    REG_SCL_CORE_BASE(x) + 0x11C
}

/// The address that `REG_SCL_COEF2` names.
pub open spec fn reg_scl_coef2_spec(x: u32) -> int {
    reg_scl_core_base_spec(x) + 0x120
}

#[allow(non_snake_case)]
pub fn REG_SCL_COEF2(x: u32) -> (r: u32)
    requires
        reg_scl_coef2_spec(x) <= u32::MAX,
    ensures
        r == reg_scl_coef2_spec(x),
{
    REG_SCL_CORE_BASE(x) + 0x120
}

/// The address that `REG_SCL_COEF3` names.
pub open spec fn reg_scl_coef3_spec(x: u32) -> int {
    reg_scl_core_base_spec(x) + 0x124
}

#[allow(non_snake_case)]
pub fn REG_SCL_COEF3(x: u32) -> (r: u32)
    requires
        reg_scl_coef3_spec(x) <= u32::MAX,
    ensures
        r == reg_scl_coef3_spec(x),
{
    REG_SCL_CORE_BASE(x) + 0x124
}

/// The address that `REG_SCL_COEF4` names.
pub open spec fn reg_scl_coef4_spec(x: u32) -> int {
    reg_scl_core_base_spec(x) + 0x128
}

#[allow(non_snake_case)]
pub fn REG_SCL_COEF4(x: u32) -> (r: u32)
    requires
        reg_scl_coef4_spec(x) <= u32::MAX,
    ensures
        r == reg_scl_coef4_spec(x),
{
    REG_SCL_CORE_BASE(x) + 0x128
}

/// The address that `REG_SCL_COEF5` names.
pub open spec fn reg_scl_coef5_spec(x: u32) -> int {
    reg_scl_core_base_spec(x) + 0x12C
}

#[allow(non_snake_case)]
pub fn REG_SCL_COEF5(x: u32) -> (r: u32)
    requires
        reg_scl_coef5_spec(x) <= u32::MAX,
    ensures
        r == reg_scl_coef5_spec(x),
{
    REG_SCL_CORE_BASE(x) + 0x12C
}

/// The address that `REG_SCL_COEF6` names.
pub open spec fn reg_scl_coef6_spec(x: u32) -> int {
    reg_scl_core_base_spec(x) + 0x130
}

#[allow(non_snake_case)]
pub fn REG_SCL_COEF6(x: u32) -> (r: u32)
    requires
        reg_scl_coef6_spec(x) <= u32::MAX,
    ensures
        r == reg_scl_coef6_spec(x),
{
    REG_SCL_CORE_BASE(x) + 0x130
}

/// The address that `REG_SCL_SC_CFG` names.
pub open spec fn reg_scl_sc_cfg_spec(x: u32) -> int {
    reg_scl_core_base_spec(x) + 0x134
}

#[allow(non_snake_case)]
pub fn REG_SCL_SC_CFG(x: u32) -> (r: u32)
    requires
        reg_scl_sc_cfg_spec(x) <= u32::MAX,
    ensures
        r == reg_scl_sc_cfg_spec(x),
{
    REG_SCL_CORE_BASE(x) + 0x134
}

/// The address that `REG_SCL_SC_H_CFG` names.
pub open spec fn reg_scl_sc_h_cfg_spec(x: u32) -> int {
    reg_scl_core_base_spec(x) + 0x138
}

#[allow(non_snake_case)]
pub fn REG_SCL_SC_H_CFG(x: u32) -> (r: u32)
    requires
        reg_scl_sc_h_cfg_spec(x) <= u32::MAX,
    ensures
        r == reg_scl_sc_h_cfg_spec(x),
{
    REG_SCL_CORE_BASE(x) + 0x138
}

/// The address that `REG_SCL_SC_V_CFG` names.
pub open spec fn reg_scl_sc_v_cfg_spec(x: u32) -> int {
    reg_scl_core_base_spec(x) + 0x13C
}

#[allow(non_snake_case)]
pub fn REG_SCL_SC_V_CFG(x: u32) -> (r: u32)
    requires
        reg_scl_sc_v_cfg_spec(x) <= u32::MAX,
    ensures
        r == reg_scl_sc_v_cfg_spec(x),
{
    REG_SCL_CORE_BASE(x) + 0x13C
}

/// The address that `REG_SCL_OUT_SIZE` names.
pub open spec fn reg_scl_out_size_spec(x: u32) -> int {
    reg_scl_core_base_spec(x) + 0x140
}

#[allow(non_snake_case)]
pub fn REG_SCL_OUT_SIZE(x: u32) -> (r: u32)
    requires
        reg_scl_out_size_spec(x) <= u32::MAX,
    ensures
        r == reg_scl_out_size_spec(x),
{
    REG_SCL_CORE_BASE(x) + 0x140
}

/// The address that `REG_SCL_SC_INI_PH` names.
pub open spec fn reg_scl_sc_ini_ph_spec(x: u32) -> int {
    reg_scl_core_base_spec(x) + 0x148
}

#[allow(non_snake_case)]
pub fn REG_SCL_SC_INI_PH(x: u32) -> (r: u32)
    requires
        reg_scl_sc_ini_ph_spec(x) <= u32::MAX,
    ensures
        r == reg_scl_sc_ini_ph_spec(x),
{
    REG_SCL_CORE_BASE(x) + 0x148
}

/// The address that `REG_SCL_CIR_CFG` names.
pub open spec fn reg_scl_cir_cfg_spec(x: u32) -> int {
    reg_scl_cir_base_spec(x) + 0x00
}

#[allow(non_snake_case)]
pub fn REG_SCL_CIR_CFG(x: u32) -> (r: u32)
    requires
        reg_scl_cir_cfg_spec(x) <= u32::MAX,
    ensures
        r == reg_scl_cir_cfg_spec(x),
{
    REG_SCL_CIR_BASE(x) + 0x00
}

/// The address that `REG_SCL_CIR_CENTER_X` names.
pub open spec fn reg_scl_cir_center_x_spec(x: u32) -> int {
    reg_scl_cir_base_spec(x) + 0x04
}

#[allow(non_snake_case)]
pub fn REG_SCL_CIR_CENTER_X(x: u32) -> (r: u32)
    requires
        reg_scl_cir_center_x_spec(x) <= u32::MAX,
    ensures
        r == reg_scl_cir_center_x_spec(x),
{
    REG_SCL_CIR_BASE(x) + 0x04
}

/// The address that `REG_SCL_CIR_CENTER_Y` names.
pub open spec fn reg_scl_cir_center_y_spec(x: u32) -> int {
    reg_scl_cir_base_spec(x) + 0x08
}

#[allow(non_snake_case)]
pub fn REG_SCL_CIR_CENTER_Y(x: u32) -> (r: u32)
    requires
        reg_scl_cir_center_y_spec(x) <= u32::MAX,
    ensures
        r == reg_scl_cir_center_y_spec(x),
{
    REG_SCL_CIR_BASE(x) + 0x08
}

/// The address that `REG_SCL_CIR_RADIUS` names.
pub open spec fn reg_scl_cir_radius_spec(x: u32) -> int {
    reg_scl_cir_base_spec(x) + 0x0C
}

#[allow(non_snake_case)]
pub fn REG_SCL_CIR_RADIUS(x: u32) -> (r: u32)
    requires
        reg_scl_cir_radius_spec(x) <= u32::MAX,
    ensures
        r == reg_scl_cir_radius_spec(x),
{
    REG_SCL_CIR_BASE(x) + 0x0C
}

/// The address that `REG_SCL_CIR_SIZE` names.
pub open spec fn reg_scl_cir_size_spec(x: u32) -> int {
    reg_scl_cir_base_spec(x) + 0x10
}

#[allow(non_snake_case)]
pub fn REG_SCL_CIR_SIZE(x: u32) -> (r: u32)
    requires
        reg_scl_cir_size_spec(x) <= u32::MAX,
    ensures
        r == reg_scl_cir_size_spec(x),
{
    REG_SCL_CIR_BASE(x) + 0x10
}

/// The address that `REG_SCL_CIR_OFFSET` names.
pub open spec fn reg_scl_cir_offset_spec(x: u32) -> int {
    reg_scl_cir_base_spec(x) + 0x14
}

#[allow(non_snake_case)]
pub fn REG_SCL_CIR_OFFSET(x: u32) -> (r: u32)
    requires
        reg_scl_cir_offset_spec(x) <= u32::MAX,
    ensures
        r == reg_scl_cir_offset_spec(x),
{
    REG_SCL_CIR_BASE(x) + 0x14
}

/// The address that `REG_SCL_CIR_COLOR` names.
pub open spec fn reg_scl_cir_color_spec(x: u32) -> int {
    reg_scl_cir_base_spec(x) + 0x18
}

#[allow(non_snake_case)]
pub fn REG_SCL_CIR_COLOR(x: u32) -> (r: u32)
    requires
        reg_scl_cir_color_spec(x) <= u32::MAX,
    ensures
        r == reg_scl_cir_color_spec(x),
{
    REG_SCL_CIR_BASE(x) + 0x18
}

/// The address that `REG_SCL_GOP_FMT` names.
pub open spec fn reg_scl_gop_fmt_spec(x: u32, y: u32) -> int {
    reg_scl_gop_base_spec(x) + 0x20*y + 0x00
}

#[allow(non_snake_case)]
pub fn REG_SCL_GOP_FMT(x: u32, y: u32) -> (r: u32)
    requires
        reg_scl_gop_fmt_spec(x, y) <= u32::MAX,
    ensures
        r == reg_scl_gop_fmt_spec(x, y),
{
    REG_SCL_GOP_BASE(x) + 0x20*y + 0x00
}

/// The address that `REG_SCL_GOP_H_RANGE` names.
pub open spec fn reg_scl_gop_h_range_spec(x: u32, y: u32) -> int {
    reg_scl_gop_base_spec(x) + 0x20*y + 0x04
}

#[allow(non_snake_case)]
pub fn REG_SCL_GOP_H_RANGE(x: u32, y: u32) -> (r: u32)
    requires
        reg_scl_gop_h_range_spec(x, y) <= u32::MAX,
    ensures
        r == reg_scl_gop_h_range_spec(x, y),
{
    REG_SCL_GOP_BASE(x) + 0x20*y + 0x04
}

/// The address that `REG_SCL_GOP_V_RANGE` names.
pub open spec fn reg_scl_gop_v_range_spec(x: u32, y: u32) -> int {
    reg_scl_gop_base_spec(x) + 0x20*y + 0x08
}

#[allow(non_snake_case)]
pub fn REG_SCL_GOP_V_RANGE(x: u32, y: u32) -> (r: u32)
    requires
        reg_scl_gop_v_range_spec(x, y) <= u32::MAX,
    ensures
        r == reg_scl_gop_v_range_spec(x, y),
{
    REG_SCL_GOP_BASE(x) + 0x20*y + 0x08
}

/// The address that `REG_SCL_GOP_ADDR_L` names.
pub open spec fn reg_scl_gop_addr_l_spec(x: u32, y: u32) -> int {
    reg_scl_gop_base_spec(x) + 0x20*y + 0x0c
}

#[allow(non_snake_case)]
pub fn REG_SCL_GOP_ADDR_L(x: u32, y: u32) -> (r: u32)
    requires
        reg_scl_gop_addr_l_spec(x, y) <= u32::MAX,
    ensures
        r == reg_scl_gop_addr_l_spec(x, y),
{
    REG_SCL_GOP_BASE(x) + 0x20*y + 0x0c
}

/// The address that `REG_SCL_GOP_ADDR_H` names.
pub open spec fn reg_scl_gop_addr_h_spec(x: u32, y: u32) -> int {
    reg_scl_gop_base_spec(x) + 0x20*y + 0x10
}

#[allow(non_snake_case)]
pub fn REG_SCL_GOP_ADDR_H(x: u32, y: u32) -> (r: u32)
    requires
        reg_scl_gop_addr_h_spec(x, y) <= u32::MAX,
    ensures
        r == reg_scl_gop_addr_h_spec(x, y),
{
    REG_SCL_GOP_BASE(x) + 0x20*y + 0x10
}

/// The address that `REG_SCL_GOP_PITCH` names.
pub open spec fn reg_scl_gop_pitch_spec(x: u32, y: u32) -> int {
    reg_scl_gop_base_spec(x) + 0x20*y + 0x14
}

#[allow(non_snake_case)]
pub fn REG_SCL_GOP_PITCH(x: u32, y: u32) -> (r: u32)
    requires
        reg_scl_gop_pitch_spec(x, y) <= u32::MAX,
    ensures
        r == reg_scl_gop_pitch_spec(x, y),
{
    REG_SCL_GOP_BASE(x) + 0x20*y + 0x14
}

/// The address that `REG_SCL_GOP_SIZE` names.
pub open spec fn reg_scl_gop_size_spec(x: u32, y: u32) -> int {
    reg_scl_gop_base_spec(x) + 0x20*y + 0x18
}

#[allow(non_snake_case)]
pub fn REG_SCL_GOP_SIZE(x: u32, y: u32) -> (r: u32)
    requires
        reg_scl_gop_size_spec(x, y) <= u32::MAX,
    ensures
        r == reg_scl_gop_size_spec(x, y),
{
    REG_SCL_GOP_BASE(x) + 0x20*y + 0x18
}

/// The address that `REG_SCL_GOP_CFG` names.
pub open spec fn reg_scl_gop_cfg_spec(x: u32) -> int {
    reg_scl_gop_base_spec(x) + 0x100
}

#[allow(non_snake_case)]
pub fn REG_SCL_GOP_CFG(x: u32) -> (r: u32)
    requires
        reg_scl_gop_cfg_spec(x) <= u32::MAX,
    ensures
        r == reg_scl_gop_cfg_spec(x),
{
    REG_SCL_GOP_BASE(x) + 0x100
}

/// The address that `REG_SCL_GOP_LUT0` names.
pub open spec fn reg_scl_gop_lut0_spec(x: u32) -> int {
    reg_scl_gop_base_spec(x) + 0x104
}

#[allow(non_snake_case)]
pub fn REG_SCL_GOP_LUT0(x: u32) -> (r: u32)
    requires
        reg_scl_gop_lut0_spec(x) <= u32::MAX,
    ensures
        r == reg_scl_gop_lut0_spec(x),
{
    REG_SCL_GOP_BASE(x) + 0x104
}

/// The address that `REG_SCL_GOP_LUT1` names.
pub open spec fn reg_scl_gop_lut1_spec(x: u32) -> int {
    reg_scl_gop_base_spec(x) + 0x108
}

#[allow(non_snake_case)]
pub fn REG_SCL_GOP_LUT1(x: u32) -> (r: u32)
    requires
        reg_scl_gop_lut1_spec(x) <= u32::MAX,
    ensures
        r == reg_scl_gop_lut1_spec(x),
{
    REG_SCL_GOP_BASE(x) + 0x108
}

/// The address that `REG_SCL_GOP_COLORKEY` names.
pub open spec fn reg_scl_gop_colorkey_spec(x: u32) -> int {
    reg_scl_gop_base_spec(x) + 0x10c
}

#[allow(non_snake_case)]
pub fn REG_SCL_GOP_COLORKEY(x: u32) -> (r: u32)
    requires
        reg_scl_gop_colorkey_spec(x) <= u32::MAX,
    ensures
        r == reg_scl_gop_colorkey_spec(x),
{
    REG_SCL_GOP_BASE(x) + 0x10c
}

/// The address that `REG_SCL_GOP_FONTCOLOR` names.
pub open spec fn reg_scl_gop_fontcolor_spec(x: u32) -> int {
    reg_scl_gop_base_spec(x) + 0x110
}

#[allow(non_snake_case)]
pub fn REG_SCL_GOP_FONTCOLOR(x: u32) -> (r: u32)
    requires
        reg_scl_gop_fontcolor_spec(x) <= u32::MAX,
    ensures
        r == reg_scl_gop_fontcolor_spec(x),
{
    REG_SCL_GOP_BASE(x) + 0x110
}

/// The address that `REG_SCL_BORDER_CFG` names.
pub open spec fn reg_scl_border_cfg_spec(x: u32) -> int {
    reg_scl_border_base_spec(x) + 0x00
}

#[allow(non_snake_case)]
pub fn REG_SCL_BORDER_CFG(x: u32) -> (r: u32)
    requires
        reg_scl_border_cfg_spec(x) <= u32::MAX,
    ensures
        r == reg_scl_border_cfg_spec(x),
{
    REG_SCL_BORDER_BASE(x) + 0x00
}

/// The address that `REG_SCL_BORDER_OFFSET` names.
pub open spec fn reg_scl_border_offset_spec(x: u32) -> int {
    reg_scl_border_base_spec(x) + 0x04
}

#[allow(non_snake_case)]
pub fn REG_SCL_BORDER_OFFSET(x: u32) -> (r: u32)
    requires
        reg_scl_border_offset_spec(x) <= u32::MAX,
    ensures
        r == reg_scl_border_offset_spec(x),
{
    REG_SCL_BORDER_BASE(x) + 0x04
}

/// The address that `REG_SCL_ODMA_CFG` names.
pub open spec fn reg_scl_odma_cfg_spec(x: u32) -> int {
    reg_scl_odma_base_spec(x) + 0x00
}

#[allow(non_snake_case)]
pub fn REG_SCL_ODMA_CFG(x: u32) -> (r: u32)
    requires
        reg_scl_odma_cfg_spec(x) <= u32::MAX,
    ensures
        r == reg_scl_odma_cfg_spec(x),
{
    REG_SCL_ODMA_BASE(x) + 0x00
}

/// The address that `REG_SCL_ODMA_ADDR0_L` names.
pub open spec fn reg_scl_odma_addr0_l_spec(x: u32) -> int {
    reg_scl_odma_base_spec(x) + 0x04
}

#[allow(non_snake_case)]
pub fn REG_SCL_ODMA_ADDR0_L(x: u32) -> (r: u32)
    requires
        reg_scl_odma_addr0_l_spec(x) <= u32::MAX,
    ensures
        r == reg_scl_odma_addr0_l_spec(x),
{
    REG_SCL_ODMA_BASE(x) + 0x04
}

/// The address that `REG_SCL_ODMA_ADDR0_H` names.
pub open spec fn reg_scl_odma_addr0_h_spec(x: u32) -> int {
    reg_scl_odma_base_spec(x) + 0x08
}

#[allow(non_snake_case)]
pub fn REG_SCL_ODMA_ADDR0_H(x: u32) -> (r: u32)
    requires
        reg_scl_odma_addr0_h_spec(x) <= u32::MAX,
    ensures
        r == reg_scl_odma_addr0_h_spec(x),
{
    REG_SCL_ODMA_BASE(x) + 0x08
}

/// The address that `REG_SCL_ODMA_ADDR1_L` names.
pub open spec fn reg_scl_odma_addr1_l_spec(x: u32) -> int {
    reg_scl_odma_base_spec(x) + 0x0C
}

#[allow(non_snake_case)]
pub fn REG_SCL_ODMA_ADDR1_L(x: u32) -> (r: u32)
    requires
        reg_scl_odma_addr1_l_spec(x) <= u32::MAX,
    ensures
        r == reg_scl_odma_addr1_l_spec(x),
{
    REG_SCL_ODMA_BASE(x) + 0x0C
}

/// The address that `REG_SCL_ODMA_ADDR1_H` names.
pub open spec fn reg_scl_odma_addr1_h_spec(x: u32) -> int {
    reg_scl_odma_base_spec(x) + 0x10
}

#[allow(non_snake_case)]
pub fn REG_SCL_ODMA_ADDR1_H(x: u32) -> (r: u32)
    requires
        reg_scl_odma_addr1_h_spec(x) <= u32::MAX,
    ensures
        r == reg_scl_odma_addr1_h_spec(x),
{
    REG_SCL_ODMA_BASE(x) + 0x10
}

/// The address that `REG_SCL_ODMA_ADDR2_L` names.
pub open spec fn reg_scl_odma_addr2_l_spec(x: u32) -> int {
    reg_scl_odma_base_spec(x) + 0x14
}

#[allow(non_snake_case)]
pub fn REG_SCL_ODMA_ADDR2_L(x: u32) -> (r: u32)
    requires
        reg_scl_odma_addr2_l_spec(x) <= u32::MAX,
    ensures
        r == reg_scl_odma_addr2_l_spec(x),
{
    REG_SCL_ODMA_BASE(x) + 0x14
}

/// The address that `REG_SCL_ODMA_ADDR2_H` names.
pub open spec fn reg_scl_odma_addr2_h_spec(x: u32) -> int {
    reg_scl_odma_base_spec(x) + 0x18
}

#[allow(non_snake_case)]
pub fn REG_SCL_ODMA_ADDR2_H(x: u32) -> (r: u32)
    requires
        reg_scl_odma_addr2_h_spec(x) <= u32::MAX,
    ensures
        r == reg_scl_odma_addr2_h_spec(x),
{
    REG_SCL_ODMA_BASE(x) + 0x18
}

/// The address that `REG_SCL_ODMA_PITCH_Y` names.
pub open spec fn reg_scl_odma_pitch_y_spec(x: u32) -> int {
    reg_scl_odma_base_spec(x) + 0x1C
}

#[allow(non_snake_case)]
pub fn REG_SCL_ODMA_PITCH_Y(x: u32) -> (r: u32)
    requires
        reg_scl_odma_pitch_y_spec(x) <= u32::MAX,
    ensures
        r == reg_scl_odma_pitch_y_spec(x),
{
    REG_SCL_ODMA_BASE(x) + 0x1C
}

/// The address that `REG_SCL_ODMA_PITCH_C` names.
pub open spec fn reg_scl_odma_pitch_c_spec(x: u32) -> int {
    reg_scl_odma_base_spec(x) + 0x20
}

#[allow(non_snake_case)]
pub fn REG_SCL_ODMA_PITCH_C(x: u32) -> (r: u32)
    requires
        reg_scl_odma_pitch_c_spec(x) <= u32::MAX,
    ensures
        r == reg_scl_odma_pitch_c_spec(x),
{
    REG_SCL_ODMA_BASE(x) + 0x20
}

/// The address that `REG_SCL_ODMA_OFFSET_X` names.
pub open spec fn reg_scl_odma_offset_x_spec(x: u32) -> int {
    reg_scl_odma_base_spec(x) + 0x24
}

#[allow(non_snake_case)]
pub fn REG_SCL_ODMA_OFFSET_X(x: u32) -> (r: u32)
    requires
        reg_scl_odma_offset_x_spec(x) <= u32::MAX,
    ensures
        r == reg_scl_odma_offset_x_spec(x),
{
    REG_SCL_ODMA_BASE(x) + 0x24
}

/// The address that `REG_SCL_ODMA_OFFSET_Y` names.
pub open spec fn reg_scl_odma_offset_y_spec(x: u32) -> int {
    reg_scl_odma_base_spec(x) + 0x28
}

#[allow(non_snake_case)]
pub fn REG_SCL_ODMA_OFFSET_Y(x: u32) -> (r: u32)
    requires
        reg_scl_odma_offset_y_spec(x) <= u32::MAX,
    ensures
        r == reg_scl_odma_offset_y_spec(x),
{
    REG_SCL_ODMA_BASE(x) + 0x28
}

/// The address that `REG_SCL_ODMA_WIDTH` names.
pub open spec fn reg_scl_odma_width_spec(x: u32) -> int {
    reg_scl_odma_base_spec(x) + 0x2C
}

#[allow(non_snake_case)]
pub fn REG_SCL_ODMA_WIDTH(x: u32) -> (r: u32)
    requires
        reg_scl_odma_width_spec(x) <= u32::MAX,
    ensures
        r == reg_scl_odma_width_spec(x),
{
    REG_SCL_ODMA_BASE(x) + 0x2C
}

/// The address that `REG_SCL_ODMA_HEIGHT` names.
pub open spec fn reg_scl_odma_height_spec(x: u32) -> int {
    reg_scl_odma_base_spec(x) + 0x30
}

#[allow(non_snake_case)]
pub fn REG_SCL_ODMA_HEIGHT(x: u32) -> (r: u32)
    requires
        reg_scl_odma_height_spec(x) <= u32::MAX,
    ensures
        r == reg_scl_odma_height_spec(x),
{
    REG_SCL_ODMA_BASE(x) + 0x30
}

/// The address that `REG_SCL_ODMA_DBG` names.
pub open spec fn reg_scl_odma_dbg_spec(x: u32) -> int {
    reg_scl_odma_base_spec(x) + 0x34
}

#[allow(non_snake_case)]
pub fn REG_SCL_ODMA_DBG(x: u32) -> (r: u32)
    requires
        reg_scl_odma_dbg_spec(x) <= u32::MAX,
    ensures
        r == reg_scl_odma_dbg_spec(x),
{
    REG_SCL_ODMA_BASE(x) + 0x34
}

/// The address that `REG_SCL_CSC_EN` names.
pub open spec fn reg_scl_csc_en_spec(x: u32) -> int {
    reg_scl_csc_base_spec(x) + 0x00
}

#[allow(non_snake_case)]
pub fn REG_SCL_CSC_EN(x: u32) -> (r: u32)
    requires
        reg_scl_csc_en_spec(x) <= u32::MAX,
    ensures
        r == reg_scl_csc_en_spec(x),
{
    REG_SCL_CSC_BASE(x) + 0x00
}

/// The address that `REG_SCL_CSC_COEF0` names.
pub open spec fn reg_scl_csc_coef0_spec(x: u32) -> int {
    reg_scl_csc_base_spec(x) + 0x04
}

#[allow(non_snake_case)]
pub fn REG_SCL_CSC_COEF0(x: u32) -> (r: u32)
    requires
        reg_scl_csc_coef0_spec(x) <= u32::MAX,
    ensures
        r == reg_scl_csc_coef0_spec(x),
{
    REG_SCL_CSC_BASE(x) + 0x04
}

/// The address that `REG_SCL_CSC_COEF1` names.
pub open spec fn reg_scl_csc_coef1_spec(x: u32) -> int {
    reg_scl_csc_base_spec(x) + 0x08
}

#[allow(non_snake_case)]
pub fn REG_SCL_CSC_COEF1(x: u32) -> (r: u32)
    requires
        reg_scl_csc_coef1_spec(x) <= u32::MAX,
    ensures
        r == reg_scl_csc_coef1_spec(x),
{
    REG_SCL_CSC_BASE(x) + 0x08
}

/// The address that `REG_SCL_CSC_COEF2` names.
pub open spec fn reg_scl_csc_coef2_spec(x: u32) -> int {
    reg_scl_csc_base_spec(x) + 0x0c
}

#[allow(non_snake_case)]
pub fn REG_SCL_CSC_COEF2(x: u32) -> (r: u32)
    requires
        reg_scl_csc_coef2_spec(x) <= u32::MAX,
    ensures
        r == reg_scl_csc_coef2_spec(x),
{
    REG_SCL_CSC_BASE(x) + 0x0c
}

/// The address that `REG_SCL_CSC_COEF3` names.
pub open spec fn reg_scl_csc_coef3_spec(x: u32) -> int {
    reg_scl_csc_base_spec(x) + 0x10
}

#[allow(non_snake_case)]
pub fn REG_SCL_CSC_COEF3(x: u32) -> (r: u32)
    requires
        reg_scl_csc_coef3_spec(x) <= u32::MAX,
    ensures
        r == reg_scl_csc_coef3_spec(x),
{
    REG_SCL_CSC_BASE(x) + 0x10
}

/// The address that `REG_SCL_CSC_COEF4` names.
pub open spec fn reg_scl_csc_coef4_spec(x: u32) -> int {
    reg_scl_csc_base_spec(x) + 0x14
}

#[allow(non_snake_case)]
pub fn REG_SCL_CSC_COEF4(x: u32) -> (r: u32)
    requires
        reg_scl_csc_coef4_spec(x) <= u32::MAX,
    ensures
        r == reg_scl_csc_coef4_spec(x),
{
    REG_SCL_CSC_BASE(x) + 0x14
}

/// The address that `REG_SCL_CSC_OFFSET` names.
pub open spec fn reg_scl_csc_offset_spec(x: u32) -> int {
    reg_scl_csc_base_spec(x) + 0x18
}

#[allow(non_snake_case)]
pub fn REG_SCL_CSC_OFFSET(x: u32) -> (r: u32)
    requires
        reg_scl_csc_offset_spec(x) <= u32::MAX,
    ensures
        r == reg_scl_csc_offset_spec(x),
{
    REG_SCL_CSC_BASE(x) + 0x18
}

/// The address that `REG_SCL_CSC_FRAC0` names.
pub open spec fn reg_scl_csc_frac0_spec(x: u32) -> int {
    reg_scl_csc_base_spec(x) + 0x1C
}

#[allow(non_snake_case)]
pub fn REG_SCL_CSC_FRAC0(x: u32) -> (r: u32)
    requires
        reg_scl_csc_frac0_spec(x) <= u32::MAX,
    ensures
        r == reg_scl_csc_frac0_spec(x),
{
    REG_SCL_CSC_BASE(x) + 0x1C
}

/// The address that `REG_SCL_CSC_FRAC1` names.
pub open spec fn reg_scl_csc_frac1_spec(x: u32) -> int {
    reg_scl_csc_base_spec(x) + 0x20
}

#[allow(non_snake_case)]
pub fn REG_SCL_CSC_FRAC1(x: u32) -> (r: u32)
    requires
        reg_scl_csc_frac1_spec(x) <= u32::MAX,
    ensures
        r == reg_scl_csc_frac1_spec(x),
{
    REG_SCL_CSC_BASE(x) + 0x20
}

/// The address that `REG_SCL_DISP_GOP_FMT` names.
pub open spec fn reg_scl_disp_gop_fmt_spec(y: u32) -> int {
    REG_SCL_DISP_BASE + REG_GOP_OFFSET + 0x20*y + 0x00
}

#[allow(non_snake_case)]
pub fn REG_SCL_DISP_GOP_FMT(y: u32) -> (r: u32)
    requires
        reg_scl_disp_gop_fmt_spec(y) <= u32::MAX,
    ensures
        r == reg_scl_disp_gop_fmt_spec(y),
{
    REG_SCL_DISP_BASE + REG_GOP_OFFSET + 0x20*y + 0x00
}

/// The address that `REG_SCL_DISP_GOP_H_RANGE` names.
pub open spec fn reg_scl_disp_gop_h_range_spec(y: u32) -> int {
    REG_SCL_DISP_BASE + REG_GOP_OFFSET + 0x20*y + 0x04
}

#[allow(non_snake_case)]
pub fn REG_SCL_DISP_GOP_H_RANGE(y: u32) -> (r: u32)
    requires
        reg_scl_disp_gop_h_range_spec(y) <= u32::MAX,
    ensures
        r == reg_scl_disp_gop_h_range_spec(y),
{
    REG_SCL_DISP_BASE + REG_GOP_OFFSET + 0x20*y + 0x04
}

/// The address that `REG_SCL_DISP_GOP_V_RANGE` names.
pub open spec fn reg_scl_disp_gop_v_range_spec(y: u32) -> int {
    REG_SCL_DISP_BASE + REG_GOP_OFFSET + 0x20*y + 0x08
}

#[allow(non_snake_case)]
pub fn REG_SCL_DISP_GOP_V_RANGE(y: u32) -> (r: u32)
    requires
        reg_scl_disp_gop_v_range_spec(y) <= u32::MAX,
    ensures
        r == reg_scl_disp_gop_v_range_spec(y),
{
    REG_SCL_DISP_BASE + REG_GOP_OFFSET + 0x20*y + 0x08
}

/// The address that `REG_SCL_DISP_GOP_ADDR_L` names.
pub open spec fn reg_scl_disp_gop_addr_l_spec(y: u32) -> int {
    REG_SCL_DISP_BASE + REG_GOP_OFFSET + 0x20*y + 0x0c
}

#[allow(non_snake_case)]
pub fn REG_SCL_DISP_GOP_ADDR_L(y: u32) -> (r: u32)
    requires
        reg_scl_disp_gop_addr_l_spec(y) <= u32::MAX,
    ensures
        r == reg_scl_disp_gop_addr_l_spec(y),
{
    REG_SCL_DISP_BASE + REG_GOP_OFFSET + 0x20*y + 0x0c
}

/// The address that `REG_SCL_DISP_GOP_ADDR_H` names.
pub open spec fn reg_scl_disp_gop_addr_h_spec(y: u32) -> int {
    REG_SCL_DISP_BASE + REG_GOP_OFFSET + 0x20*y + 0x10
}

#[allow(non_snake_case)]
pub fn REG_SCL_DISP_GOP_ADDR_H(y: u32) -> (r: u32)
    requires
        reg_scl_disp_gop_addr_h_spec(y) <= u32::MAX,
    ensures
        r == reg_scl_disp_gop_addr_h_spec(y),
{
    REG_SCL_DISP_BASE + REG_GOP_OFFSET + 0x20*y + 0x10
}

/// The address that `REG_SCL_DISP_GOP_PITCH` names.
pub open spec fn reg_scl_disp_gop_pitch_spec(y: u32) -> int {
    REG_SCL_DISP_BASE + REG_GOP_OFFSET + 0x20*y + 0x14
}

#[allow(non_snake_case)]
pub fn REG_SCL_DISP_GOP_PITCH(y: u32) -> (r: u32)
    requires
        reg_scl_disp_gop_pitch_spec(y) <= u32::MAX,
    ensures
        r == reg_scl_disp_gop_pitch_spec(y),
{
    REG_SCL_DISP_BASE + REG_GOP_OFFSET + 0x20*y + 0x14
}

/// The address that `REG_SCL_DISP_GOP_SIZE` names.
pub open spec fn reg_scl_disp_gop_size_spec(y: u32) -> int {
    REG_SCL_DISP_BASE + REG_GOP_OFFSET + 0x20*y + 0x18
}

#[allow(non_snake_case)]
pub fn REG_SCL_DISP_GOP_SIZE(y: u32) -> (r: u32)
    requires
        reg_scl_disp_gop_size_spec(y) <= u32::MAX,
    ensures
        r == reg_scl_disp_gop_size_spec(y),
{
    REG_SCL_DISP_BASE + REG_GOP_OFFSET + 0x20*y + 0x18
}

} // verus!
