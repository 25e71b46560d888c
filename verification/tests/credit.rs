use cyw43::credit::{available, diff, next_credit, sum, CREDIT_WINDOW};
use cyw43::runner::Runner;
use cyw43::structs::SdpcmHeader;

fn header(channel_and_flags: u8, credit: u8) -> SdpcmHeader {
    SdpcmHeader {
        len: 12,
        len_inv: !12,
        sequence: 0,
        channel_and_flags,
        next_length: 0,
        header_length: 12,
        wireless_flow_control: 0,
        bus_data_credit: credit,
        reserved: [0, 0],
    }
}

#[test]
fn wrapping_arithmetic_is_modulo_256() {
    assert_eq!(diff(5, 3), 2);
    assert_eq!(diff(3, 5), 254);
    assert_eq!(diff(0, 255), 1);
    assert_eq!(sum(255, 1), 0);
    assert_eq!(sum(254, 2), 0);
    assert_eq!(sum(10, 2), 12);
}

#[test]
fn credit_clamp() {
    let mut runner = Runner::new(false);
    runner.sdpcm_seq = 10;
    runner.update_credit(&header(0, 200));
    assert_eq!(runner.sdpcm_seq_max, 12);
    assert_eq!(runner.sdpcm_seq, 10);
}

#[test]
fn credit_within_the_window_is_taken() {
    let mut runner = Runner::new(false);
    runner.sdpcm_seq = 10;
    runner.update_credit(&header(2, 10 + CREDIT_WINDOW));
    assert_eq!(runner.sdpcm_seq_max, 74);
    runner.update_credit(&header(1, 10));
    assert_eq!(runner.sdpcm_seq_max, 10);
    runner.update_credit(&header(0, 75));
    assert_eq!(runner.sdpcm_seq_max, 12);
}

#[test]
fn credit_clamp_wraps_at_the_top() {
    let mut runner = Runner::new(false);
    runner.sdpcm_seq = 255;
    runner.update_credit(&header(0, 100));
    assert_eq!(runner.sdpcm_seq_max, 1);
    runner.sdpcm_seq = 250;
    runner.update_credit(&header(0, 4));
    assert_eq!(runner.sdpcm_seq_max, 4);
}

#[test]
fn credit_of_unknown_channels_is_ignored() {
    let mut runner = Runner::new(false);
    runner.update_credit(&header(3, 9));
    assert_eq!(runner.sdpcm_seq_max, 1);
    runner.update_credit(&header(0x0f, 9));
    assert_eq!(runner.sdpcm_seq_max, 1);
    runner.update_credit(&header(0xf2, 9));
    assert_eq!(runner.sdpcm_seq_max, 9);
}

#[test]
fn window_never_exceeds_its_width() {
    for seq in 0..=255u8 {
        for credit in 0..=255u8 {
            let m = next_credit(seq, 0, 1, credit);
            assert!(diff(m, seq) <= CREDIT_WINDOW);
        }
    }
}

#[test]
fn has_credit_follows_the_window() {
    let mut runner = Runner::new(false);
    assert!(runner.has_credit());
    runner.sdpcm_seq = 1;
    assert!(!runner.has_credit());
    runner.sdpcm_seq = 2;
    assert!(!runner.has_credit());
    runner.sdpcm_seq = 250;
    runner.sdpcm_seq_max = 3;
    assert!(runner.has_credit());
    assert!(available(0, 127));
    assert!(!available(0, 128));
    assert!(!available(7, 7));
}

#[test]
fn new_runner_may_send_one_frame() {
    let runner = Runner::new(true);
    assert_eq!(runner.ioctl_id, 0);
    assert_eq!(runner.sdpcm_seq, 0);
    assert_eq!(runner.sdpcm_seq_max, 1);
    assert!(runner.firmware_logs);
    assert_eq!(runner.log.addr(), 0);
    assert_eq!(runner.log.last_idx(), 0);
    assert_eq!(runner.log.line_len(), 0);
}
