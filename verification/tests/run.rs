use cyw43::bus::BusOp;
use cyw43::bytes::{pack_words, slice8};
use cyw43::events::{Event, EventStatus};
use cyw43::ioctl::{IoctlType, PendingIoctl};
use cyw43::runner::{DropReason, Phase, Received, Runner};
use cyw43::run::{Action, Input, LOG_SHARED_ADDR};
use cyw43::structs::{
    BcdHeader, CdcHeader, EthernetHeader, EventHeader, EventMessage, EventPacket, SdpcmHeader,
};

fn frame(channel: u8, credit: u8, payload: &[u8]) -> Vec<u8> {
    let len = (12 + payload.len()) as u16;
    let h = SdpcmHeader {
        len,
        len_inv: !len,
        sequence: 0,
        channel_and_flags: channel,
        next_length: 0,
        header_length: 12,
        wireless_flow_control: 0,
        bus_data_credit: credit,
        reserved: [0, 0],
    };
    let mut v = h.to_bytes().to_vec();
    v.extend_from_slice(payload);
    v
}

fn words_of(bytes: &[u8]) -> Vec<u32> {
    let mut padded = bytes.to_vec();
    while padded.len() % 4 != 0 {
        padded.push(0xee);
    }
    pack_words(&padded)
}

fn status_for(len: usize) -> u32 {
    0x100 | ((len as u32) << 9)
}

fn step(runner: &mut Runner, input: Input) -> Action {
    assert!(runner.accepts(&input));
    runner.run(input)
}

/// Feeds one packet to a runner that asked for the bus status, and returns
/// what the packet asks for.
fn inject(runner: &mut Runner, packet: &[u8]) -> Received {
    assert_eq!(step(runner, Input::Value(status_for(packet.len()))), Action::WlanRead { len: packet.len() });
    match step(runner, Input::Words(words_of(packet))) {
        Action::Handle(received) => received,
        other => panic!("the packet was not handled: {:?}", other),
    }
}

fn join_event_payload() -> Vec<u8> {
    let mut p = EventPacket {
        eth: EthernetHeader { destination_mac: [0; 6], source_mac: [0; 6], ether_type: 0x886c },
        hdr: EventHeader { subtype: 32769, length: 0, version: 2, oui: [0x00, 0x10, 0x18], user_subtype: 1 },
        msg: EventMessage {
            version: 2,
            flags: 0,
            event_type: 1,
            status: 0,
            reason: 0,
            auth_type: 0,
            datalen: 0,
            addr: [0; 6],
            ifname: [0; 16],
            ifidx: 0,
            bsscfg_idx: 0,
        },
    };
    p.byteswap();
    let mut v = BcdHeader { flags: 0x20, priority: 0, flags2: 0, data_offset: 0 }.to_bytes().to_vec();
    v.extend_from_slice(&p.to_bytes());
    v
}

#[test]
fn ioctl_round_trip() {
    let mut runner = Runner::new(false);
    assert_eq!(step(&mut runner, Input::Done), Action::Wait { tx: true });
    let request = PendingIoctl { buf: vec![0xaa, 0xbb], kind: IoctlType::SET, cmd: 0x20, iface: 0 };
    assert_eq!(
        step(&mut runner, Input::Ioctl(request)),
        Action::WlanWrite {
            words: vec![
                0xffe1_001e,
                0x0c00_0000,
                0x0000_0000,
                0x0000_0020,
                0x0000_0002,
                0x0001_0002,
                0x0000_0000,
                0x0000_bbaa,
            ],
            tx_done: false,
        }
    );
    assert_eq!(runner.ioctl_id, 1);
    assert_eq!(runner.sdpcm_seq, 1);
    assert_eq!(step(&mut runner, Input::Done), Action::Status);

    let mut reply = CdcHeader { cmd: 0x20, len: 3, flags: 2, id: 1, status: 0 }.to_bytes().to_vec();
    reply.extend_from_slice(&[0x01, 0x02, 0x03]);
    assert_eq!(
        inject(&mut runner, &frame(0, 5, &reply)),
        Received::IoctlDone(vec![0x01, 0x02, 0x03])
    );
    assert_eq!(runner.sdpcm_seq_max, 5);
    assert_eq!(step(&mut runner, Input::Done), Action::Status);
    assert_eq!(step(&mut runner, Input::Value(0)), Action::Wait { tx: true });
}

#[test]
fn ioctl_flags_carry_kind_and_interface() {
    let mut runner = Runner::new(false);
    let words = runner.send_ioctl(IoctlType::GET, 0x0107, 3, &[1, 2, 3, 4, 5]);
    assert_eq!(words.len(), 9);
    assert_eq!(words[0], 0xffde_0021);
    assert_eq!(words[3], 0x0107);
    assert_eq!(words[4], 5);
    assert_eq!(words[5], 0x0001_3000);
    assert_eq!(words[7], 0x0403_0201);
    assert_eq!(words[8], 0x0000_0005);
    let words = runner.send_ioctl(IoctlType::SET, 1, 0x1_0012, &[]);
    assert_eq!(words.len(), 7);
    assert_eq!(words[1], 0x0c00_0001);
    assert_eq!(words[5], 0x0002_2002);
    assert_eq!(runner.ioctl_id, 2);
    assert_eq!(runner.sdpcm_seq, 2);
}

#[test]
fn ioctl_id_and_sequence_wrap() {
    let mut runner = Runner::new(false);
    runner.ioctl_id = 0xffff;
    runner.sdpcm_seq = 255;
    let words = runner.send_ioctl(IoctlType::SET, 1, 0, &[]);
    assert_eq!(runner.ioctl_id, 0);
    assert_eq!(runner.sdpcm_seq, 0);
    assert_eq!(words[1], 0x0c00_00ff);
    assert_eq!(words[5], 0x0000_0002);
}

#[test]
fn data_frame_wraps_the_packet() {
    let mut runner = Runner::new(false);
    runner.sdpcm_seq = 4;
    let words = runner.send_data(&[1, 2, 3, 4, 5, 6]);
    assert_eq!(
        words,
        vec![0xffe9_0016, 0x0c00_0204, 0x0000_0000, 0x0000_0020, 0x0403_0201, 0x0000_0605]
    );
    assert_eq!(runner.sdpcm_seq, 5);
    assert_eq!(runner.ioctl_id, 0);
}

#[test]
fn largest_frames_fill_the_scratch_buffer() {
    let mut runner = Runner::new(false);
    assert_eq!(runner.send_data(&vec![7u8; 2048 - 16]).len(), 512);
    assert_eq!(runner.send_ioctl(IoctlType::SET, 1, 0, &vec![7u8; 2048 - 28]).len(), 512);
    runner.phase = Phase::Waiting;
    runner.sdpcm_seq_max = 9;
    assert!(runner.accepts(&Input::Tx(vec![0; 2048 - 16])));
    assert!(!runner.accepts(&Input::Tx(vec![0; 2048 - 15])));
    let fits = PendingIoctl { buf: vec![0; 2048 - 28], kind: IoctlType::GET, cmd: 1, iface: 0 };
    let too_long = PendingIoctl { buf: vec![0; 2048 - 27], kind: IoctlType::GET, cmd: 1, iface: 0 };
    assert!(runner.accepts(&Input::Ioctl(fits)));
    assert!(!runner.accepts(&Input::Ioctl(too_long)));
}

#[test]
fn sent_header_carries_the_complement_of_its_length() {
    let mut runner = Runner::new(false);
    for n in [0usize, 1, 2, 3, 100, 1514] {
        let words = runner.send_data(&vec![0x55u8; n]);
        let len = (words[0] & 0xffff) as u16;
        let len_inv = (words[0] >> 16) as u16;
        assert_eq!(len as usize, 16 + n);
        assert_eq!(len_inv, !len);
        assert_eq!(words.len(), (16 + n + 3) / 4);
    }
}

#[test]
fn event_publish() {
    let mut runner = Runner::new(false);
    assert_eq!(step(&mut runner, Input::Done), Action::Wait { tx: true });
    assert_eq!(
        step(&mut runner, Input::Irq),
        Action::Bus(BusOp::Read16 { func: 0, addr: 0x04 })
    );
    assert_eq!(step(&mut runner, Input::Value(0x20)), Action::Status);
    assert_eq!(
        inject(&mut runner, &frame(1, 1, &join_event_payload())),
        Received::Event(EventStatus { status: 0, event_type: Event::JOIN })
    );
    assert_eq!(step(&mut runner, Input::Done), Action::Status);
    assert_eq!(step(&mut runner, Input::Value(0)), Action::Wait { tx: true });
}

#[test]
fn rx_ring_full() {
    let mut runner = Runner::new(false);
    step(&mut runner, Input::Done);
    step(&mut runner, Input::Irq);
    assert_eq!(step(&mut runner, Input::Value(0x20)), Action::Status);
    let first = frame(2, 1, &[0x20, 0, 0, 0, 1, 2, 3]);
    assert_eq!(inject(&mut runner, &first), Received::Data(vec![1, 2, 3]));
    // Whether the host had room for the frame or not, the runner hears
    // nothing of it and goes on with the next packet.
    assert_eq!(step(&mut runner, Input::Done), Action::Status);
    let second = frame(2, 1, &[0x20, 0, 0, 0, 4, 5]);
    assert_eq!(inject(&mut runner, &second), Received::Data(vec![4, 5]));
    assert_eq!(step(&mut runner, Input::Done), Action::Status);
    assert_eq!(step(&mut runner, Input::Value(0)), Action::Wait { tx: true });
}

#[test]
fn malformed_packet_in_the_loop_is_dropped() {
    let mut runner = Runner::new(false);
    step(&mut runner, Input::Done);
    step(&mut runner, Input::Irq);
    step(&mut runner, Input::Value(0x20));
    let mut packet = vec![0u8; 100];
    packet[0] = 100;
    packet[9] = 50;
    let before = runner;
    assert_eq!(inject(&mut runner, &packet), Received::Dropped(DropReason::LenInvMismatch));
    assert_eq!(runner.sdpcm_seq_max, before.sdpcm_seq_max);
    assert_eq!(runner.sdpcm_seq, before.sdpcm_seq);
    assert_eq!(runner.ioctl_id, before.ioctl_id);
    assert_eq!(step(&mut runner, Input::Done), Action::Status);
}

#[test]
fn last_credit_blocks_the_next_frame() {
    let mut runner = Runner::new(false);
    assert!(runner.has_credit());
    assert_eq!(step(&mut runner, Input::Done), Action::Wait { tx: true });
    match step(&mut runner, Input::Tx(vec![1, 2, 3])) {
        Action::WlanWrite { tx_done, .. } => assert!(tx_done),
        other => panic!("the frame was not sent: {:?}", other),
    }
    assert_eq!(runner.sdpcm_seq, runner.sdpcm_seq_max);
    assert!(!runner.has_credit());
    assert_eq!(step(&mut runner, Input::Done), Action::Status);
    assert_eq!(step(&mut runner, Input::Value(0)), Action::Wait { tx: false });
    assert!(!runner.accepts(&Input::Tx(vec![1])));
    let request = PendingIoctl { buf: vec![], kind: IoctlType::GET, cmd: 1, iface: 0 };
    assert!(!runner.accepts(&Input::Ioctl(request)));
    assert!(runner.accepts(&Input::Irq));
    // A packet that brings credit opens the transmit side again.
    step(&mut runner, Input::Irq);
    step(&mut runner, Input::Value(0x20));
    assert_eq!(inject(&mut runner, &frame(3, 0, &[])), Received::Ignored);
    step(&mut runner, Input::Done);
    assert_eq!(step(&mut runner, Input::Value(0)), Action::Wait { tx: false });
    step(&mut runner, Input::Irq);
    step(&mut runner, Input::Value(0x20));
    assert_eq!(inject(&mut runner, &frame(2, 3, &[0x20, 0, 0, 0])), Received::Data(vec![]));
    step(&mut runner, Input::Done);
    assert_eq!(step(&mut runner, Input::Value(0)), Action::Wait { tx: true });
}

#[test]
fn interrupt_without_packet_goes_back_to_the_wait() {
    let mut runner = Runner::new(false);
    step(&mut runner, Input::Done);
    step(&mut runner, Input::Irq);
    assert_eq!(step(&mut runner, Input::Value(0)), Action::Wait { tx: true });
}

#[test]
fn data_unavailable_is_cleared() {
    let mut runner = Runner::new(false);
    step(&mut runner, Input::Done);
    step(&mut runner, Input::Irq);
    assert_eq!(
        step(&mut runner, Input::Value(0x0001)),
        Action::Bus(BusOp::Write16 { func: 0, addr: 0x04, val: 1 })
    );
    assert_eq!(step(&mut runner, Input::Done), Action::Wait { tx: true });
}

#[test]
fn data_unavailable_is_cleared_after_the_packets() {
    let mut runner = Runner::new(false);
    step(&mut runner, Input::Done);
    step(&mut runner, Input::Irq);
    assert_eq!(step(&mut runner, Input::Value(0x0021)), Action::Status);
    assert_eq!(inject(&mut runner, &frame(2, 1, &[0x20, 0, 0, 0, 1])), Received::Data(vec![1]));
    assert_eq!(step(&mut runner, Input::Done), Action::Status);
    assert_eq!(
        step(&mut runner, Input::Value(0x20)),
        Action::Bus(BusOp::Write16 { func: 0, addr: 0x04, val: 1 })
    );
    assert_eq!(step(&mut runner, Input::Done), Action::Wait { tx: true });
}

#[test]
fn handle_irq_and_check_status_decide_on_their_own() {
    let mut runner = Runner::new(false);
    assert_eq!(runner.handle_irq(0x0020), Action::Status);
    assert_eq!(runner.phase, Phase::Status { clear: false });
    assert_eq!(runner.handle_irq(0xffde), Action::Wait { tx: true });
    assert_eq!(runner.phase, Phase::Waiting);
    assert_eq!(runner.check_status(0x100 | (100 << 9), true), Action::WlanRead { len: 100 });
    assert_eq!(runner.phase, Phase::Reading { len: 100, clear: true });
    assert_eq!(runner.check_status(0x000f_ff00, false), Action::WlanRead { len: 2047 });
    assert_eq!(runner.check_status(0xffff_feff, false), Action::Wait { tx: true });
    assert_eq!(
        runner.check_status(0, true),
        Action::Bus(BusOp::Write16 { func: 0, addr: 0x04, val: 1 })
    );
    assert_eq!(runner.phase, Phase::Clearing);
}

#[test]
fn only_answers_to_the_last_request_are_accepted() {
    let mut runner = Runner::new(false);
    assert!(runner.accepts(&Input::Done));
    assert!(!runner.accepts(&Input::Irq));
    assert!(!runner.accepts(&Input::Value(0)));
    step(&mut runner, Input::Done);
    assert!(!runner.accepts(&Input::Done));
    assert!(!runner.accepts(&Input::Words(vec![])));
    step(&mut runner, Input::Irq);
    assert!(!runner.accepts(&Input::Irq));
    step(&mut runner, Input::Value(0x20));
    step(&mut runner, Input::Value(status_for(9)));
    assert!(!runner.accepts(&Input::Words(vec![0, 0])));
    assert!(runner.accepts(&Input::Words(vec![0, 0, 0])));
    assert!(!runner.accepts(&Input::Bytes(vec![0; 9])));
}

#[test]
fn firmware_log_is_located_then_tailed() {
    let mut runner = Runner::new(true);
    assert_eq!(LOG_SHARED_ADDR, 0x6_fffc);
    assert_eq!(
        step(&mut runner, Input::Done),
        Action::Bus(BusOp::BpRead32 { addr: 0x6_fffc })
    );
    assert_eq!(
        step(&mut runner, Input::Value(0x0004_0000)),
        Action::Bus(BusOp::BpRead { addr: 0x0004_0000, len: 32 })
    );
    assert!(!runner.accepts(&Input::Bytes(vec![0; 31])));
    let mut shared = vec![0u8; 32];
    shared[20..24].copy_from_slice(&0x0005_0000u32.to_le_bytes());
    assert_eq!(
        step(&mut runner, Input::Bytes(shared)),
        Action::Bus(BusOp::BpRead { addr: 0x0005_0008, len: 16 })
    );
    assert_eq!(runner.log.addr(), 0x0005_0008);

    // Nothing new: straight to the wait.
    let mut header = vec![0u8; 16];
    header[0..4].copy_from_slice(&0x0006_0000u32.to_le_bytes());
    assert_eq!(step(&mut runner, Input::Bytes(header.clone())), Action::Wait { tx: true });

    // The firmware wrote a line and a half.
    step(&mut runner, Input::Irq);
    assert_eq!(
        step(&mut runner, Input::Value(0)),
        Action::Bus(BusOp::BpRead { addr: 0x0005_0008, len: 16 })
    );
    header[8] = 8;
    assert_eq!(
        step(&mut runner, Input::Bytes(header.clone())),
        Action::Bus(BusOp::BpRead { addr: 0x0006_0000, len: 0x400 })
    );
    assert!(!runner.accepts(&Input::Bytes(vec![0; 0x3ff])));
    let mut ring = vec![0u8; 0x400];
    ring[..8].copy_from_slice(b"hello\nwo");
    assert_eq!(step(&mut runner, Input::Bytes(ring.clone())), Action::Log(vec![b"hello".to_vec()]));
    assert_eq!(step(&mut runner, Input::Done), Action::Wait { tx: true });
    assert_eq!(runner.log.last_idx(), 8);
    assert_eq!(runner.log.line_len(), 2);

    // More of the same line, without its end: nothing to emit.
    step(&mut runner, Input::Irq);
    step(&mut runner, Input::Value(0));
    header[8] = 10;
    step(&mut runner, Input::Bytes(header));
    ring[8..10].copy_from_slice(b"rl");
    assert_eq!(step(&mut runner, Input::Bytes(ring)), Action::Wait { tx: true });
    assert_eq!(runner.log.line_len(), 4);
}

#[test]
fn sent_frames_are_received_as_what_was_sent() {
    let mut sender = Runner::new(false);
    let mut receiver = Runner::new(false);
    for n in [0usize, 1, 5, 64, 1514] {
        let packet: Vec<u8> = (0..n).map(|i| (i * 7) as u8).collect();
        let words = sender.send_data(&packet);
        let wire = slice8(&words, 16 + n);
        assert_eq!(receiver.rx(&wire), Received::Data(packet));
    }
    let data = vec![9u8, 8, 7];
    let words = sender.send_ioctl(IoctlType::SET, 263, 1, &data);
    receiver.ioctl_id = sender.ioctl_id;
    assert_eq!(receiver.rx(&slice8(&words, 28 + 3)), Received::IoctlDone(data));
}
