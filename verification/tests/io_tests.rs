use milkv::timer::{get_timer, mdelay, odelay, udelay, Delay};
use milkv::uart::{be_bytes, be_value, deploy_messages, print, print_c, ResetDetector, LOAD_ADDRESS};
use milkv::uart_sys::{uart_irq, Buffer, UartIrq};

#[test]
fn line_feed_gets_carriage_return() {
    assert_eq!(print_c(b'\n'), vec![b'\r', b'\n']);
    assert_eq!(print_c(b'x'), vec![b'x']);
    assert_eq!(print("a\nb"), b"a\r\nb".to_vec());
    assert_eq!(print(""), Vec::<u8>::new());
}

#[test]
fn reset_request_resets_at_its_end() {
    let mut d = ResetDetector::new();
    for b in b"~~~~~~" {
        assert!(!d.read_b(*b));
    }
    assert!(d.read_b(b'\r'));
}

#[test]
fn reset_needs_exactly_six() {
    let mut d = ResetDetector::new();
    for b in b"~~~~~\r" {
        assert!(!d.read_b(*b));
    }
    let mut d = ResetDetector::new();
    for b in b"~~~x~~~~~~" {
        assert!(!d.read_b(*b));
    }
    assert!(d.read_b(b'\r'));
    let mut d = ResetDetector::new();
    for b in b"~~~~~~~" {
        assert!(!d.read_b(*b));
    }
    assert!(!d.read_b(b'\r'));
    assert_eq!(d.count, 0);
}

#[test]
fn deploy_messages_frame_the_image() {
    let image = vec![1u8, 2, 3];
    let m = deploy_messages(&image);
    assert_eq!(m.len(), 5);
    assert_eq!(m[0], b"~~~~~~\r".to_vec());
    assert_eq!(m[1], b"lpc\r".to_vec());
    assert_eq!(m[2], 0x8000_0000u64.to_be_bytes().to_vec());
    assert_eq!(m[3], 3u64.to_be_bytes().to_vec());
    assert_eq!(m[4], image);
    let mut d = ResetDetector::new();
    let resets: Vec<bool> = m[0].iter().map(|b| d.read_b(*b)).collect();
    assert_eq!(resets, vec![false, false, false, false, false, false, true]);
    assert_eq!(LOAD_ADDRESS, 0x8000_0000);
}

#[test]
fn big_endian_round_trip() {
    let x = 0x0123_4567_89ab_cdefu64;
    let b = be_bytes(x);
    assert_eq!(b, x.to_be_bytes().to_vec());
    let arr: [u8; 8] = b.try_into().unwrap();
    assert_eq!(be_value(&arr), x);
}

#[test]
fn buffer_is_fifo() {
    let mut q = Buffer::new();
    assert!(q.is_empty());
    q.push(1);
    q.push(2);
    assert!(!q.is_empty());
    assert_eq!(q.pop(), Some(1));
    assert_eq!(q.pop(), Some(2));
    assert_eq!(q.pop(), None);
}

#[test]
fn buffer_keeps_latest_4096() {
    let mut q = Buffer::new();
    for i in 0..5000u32 {
        q.push((i % 251) as u8);
    }
    for i in 904..5000u32 {
        assert_eq!(q.pop(), Some((i % 251) as u8));
    }
    assert_eq!(q.pop(), None);
}

#[test]
fn delays() {
    assert_eq!(udelay(10, 100), Delay { start: 100, ticks: 250 });
    assert_eq!(mdelay(2, 5), Delay { start: 5, ticks: 50_000 });
    assert_eq!(odelay(7, 1), Delay { start: 1, ticks: 7 });
    let d = udelay(1, u64::MAX - 10);
    assert!(!d.done(u64::MAX));
    assert!(d.done(14));
}

#[test]
fn elapsed_milliseconds() {
    assert_eq!(get_timer(0, 1234), 1234);
    assert_eq!(get_timer(75_000, 25_000), 2);
}

#[test]
fn uart_interrupt_causes() {
    assert_eq!(uart_irq(0b1100), UartIrq::Receive);
    assert_eq!(uart_irq(0xC4), UartIrq::Receive);
    assert_eq!(uart_irq(0b0010), UartIrq::Transmit);
    assert_eq!(uart_irq(0b0001), UartIrq::Other);
    assert_eq!(uart_irq(0b0110), UartIrq::Other);
}

#[test]
fn print_of_joined_text_is_joined_output() {
    let mut joined = print("ab\n");
    joined.extend(print("c\nd"));
    assert_eq!(print("ab\nc\nd"), joined);
    assert_eq!(joined, b"ab\r\nc\r\nd".to_vec());
    assert!(print("").is_empty());
}
