use milkv::plic::{disable_int, enable_int, int_word, plic_report};

#[test]
fn enable_bits_of_interrupts() {
    assert_eq!(int_word(44), 1);
    assert_eq!(enable_int(0, 44), 1 << 12);
    assert_eq!(disable_int(u32::MAX, 31), 0x7fff_ffff);
    assert_eq!(enable_int(0b1, 32), 0b1);
}

#[test]
fn report_lists_enabled_and_pending() {
    let mut mie = [0u32; 32];
    let mut sie = [0u32; 32];
    let mut pend = [0u32; 32];
    let mut prio = [0u32; 1024];
    mie[1] = enable_int(mie[1], 44);
    sie[0] = enable_int(sie[0], 3);
    pend[0] = enable_int(pend[0], 3);
    pend[3] = enable_int(pend[3], 100);
    // the id 0 is never listed
    mie[0] = enable_int(mie[0], 0);
    prio[44] = 7;
    prio[3] = 1;
    let text = String::from_utf8(plic_report(2, 0, &mie, &sie, &pend, &prio)).unwrap();
    assert_eq!(
        text,
        "m thresh: 2\ns thresh: 0\n\
int: 3 senabled priority(1) pending\n\
int: 44 menabled priority(7) \n\
int: 100 pending\n"
    );
}
