//! Verified logic of a bare-metal stack for the Milk-V Duo board.
pub mod ansi_graphics;
pub mod ansi;
pub mod ddr;
pub mod dsi;
pub mod bl_ansi;
pub mod cmd;
pub mod fip;
pub mod fip_laws;
pub mod line_editor;
pub mod mem;
pub mod monitor;
pub mod paging;
pub mod plic;
pub mod regs;
pub mod table_dump;
pub mod tasks;
pub mod timer;
pub mod trap;
pub mod uart;
pub mod uart_sys;
pub mod vga;
pub mod vga_signal;
