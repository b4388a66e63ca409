use milkv::cmd::{apply_ctrl, timer_command, CtrlSetting, TimerCommand, TimerOp, TIMERS_BASE};
use milkv::timer::{
    compare_value, compare_writes, get_enabled, get_masked, get_mode, set_enabled, set_masked, set_mode, TimerMode,
};

#[test]
fn compare_register_words() {
    let v = 0x1234_5678_9abc_def0u64;
    let w = compare_writes(v);
    assert_eq!(w, [(true, u32::MAX), (false, 0x9abc_def0), (true, 0x1234_5678)]);
    assert_eq!(compare_value(w[1].1, w[2].1), v);
    assert_eq!(compare_value(1, 2), 0x2_0000_0001);
}

#[test]
fn control_word_settings() {
    let c = 0b1000;
    assert!(get_masked(set_masked(c, true)));
    assert_eq!(set_masked(0b1111, false), 0b1011);
    assert_eq!(get_mode(set_mode(c, TimerMode::Count)), TimerMode::Count);
    assert_eq!(set_mode(0b1110, TimerMode::Free), 0b1100);
    assert!(get_enabled(set_enabled(c, true)));
    assert_eq!(set_enabled(0b1001, false), 0b1000);
    assert_eq!(get_mode(0), TimerMode::Free);
}

#[test]
fn timer_command_addresses() {
    assert_eq!(timer_command(0, TimerOp::Read, 0), TimerCommand::Report { regs: 0x030A_0000 });
    assert_eq!(
        timer_command(2, TimerOp::Ei, 1),
        TimerCommand::Ctrl { addr: TIMERS_BASE + 0x28 + 8, setting: CtrlSetting::Masked(true) }
    );
    assert_eq!(
        timer_command(1, TimerOp::E, 0),
        TimerCommand::Ctrl { addr: 0x030A_0014 + 8, setting: CtrlSetting::Enabled(false) }
    );
    assert_eq!(
        timer_command(1, TimerOp::C, 3),
        TimerCommand::Ctrl { addr: 0x030A_0014 + 8, setting: CtrlSetting::Mode(TimerMode::Count) }
    );
    assert_eq!(timer_command(7, TimerOp::Ci, 0), TimerCommand::ClearInterrupts { addr: 0x030A_00A4 });
    assert_eq!(timer_command(3, TimerOp::SetLoad, 99), TimerCommand::Load { addr: 0x030A_003C, value: 99 });
    assert_eq!(apply_ctrl(0b101, CtrlSetting::Masked(false)), 0b001);
    assert_eq!(apply_ctrl(0b000, CtrlSetting::Mode(TimerMode::Count)), 0b010);
}

#[test]
fn timer_read_report() {
    let text = String::from_utf8(milkv::cmd::timer_report(2, 1000, 250, 0b101, 1, 0b100)).unwrap();
    assert_eq!(
        text,
        "Timer2 load: 1000\nTimer2 curr: 250\nTimer2 int mask: masked\nTimer2 mode: free\n\
Timer2 enable: true\nTimer2 int stat: 1\nTimer int stat: 0b00000100\n"
    );
    let text = String::from_utf8(milkv::cmd::timer_report(0, 0, 0, 0b010, 0, 0x1ff)).unwrap();
    assert!(text.contains("int mask: not masked\n"));
    assert!(text.contains("mode: count\n"));
    assert!(text.contains("enable: false\n"));
    assert!(text.ends_with("0b111111111\n"));
}
