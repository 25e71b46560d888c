use cyw43::events::{Event, EventStatus};
use cyw43::runner::{DropReason, Received, Runner};
use cyw43::structs::{
    BcdHeader, CdcHeader, EthernetHeader, EventHeader, EventMessage, EventPacket, SdpcmHeader,
};

fn frame(channel_and_flags: u8, credit: u8, header_length: u8, payload: &[u8]) -> Vec<u8> {
    let len = (12 + payload.len()) as u16;
    let h = SdpcmHeader {
        len,
        len_inv: !len,
        sequence: 0,
        channel_and_flags,
        next_length: 0,
        header_length,
        wireless_flow_control: 0,
        bus_data_credit: credit,
        reserved: [0, 0],
    };
    let mut v = h.to_bytes().to_vec();
    v.extend_from_slice(payload);
    v
}

fn cdc(id: u16, status: u32, len: u32, data: &[u8]) -> Vec<u8> {
    let mut v = CdcHeader { cmd: 0x20, len, flags: 2, id, status }.to_bytes().to_vec();
    v.extend_from_slice(data);
    v
}

fn bcd(data_offset: u8, rest: &[u8]) -> Vec<u8> {
    let mut v = BcdHeader { flags: 0x20, priority: 0, flags2: 0, data_offset }.to_bytes().to_vec();
    v.extend_from_slice(rest);
    v
}

fn event(event_type: u32, status: u32, datalen: u32) -> EventPacket {
    EventPacket {
        eth: EthernetHeader {
            destination_mac: [0; 6],
            source_mac: [0; 6],
            ether_type: 0x886c,
        },
        hdr: EventHeader {
            subtype: 32769,
            length: 0,
            version: 2,
            oui: [0x00, 0x10, 0x18],
            user_subtype: 1,
        },
        msg: EventMessage {
            version: 2,
            flags: 0,
            event_type,
            status,
            reason: 0,
            auth_type: 0,
            datalen,
            addr: [0; 6],
            ifname: [0; 16],
            ifidx: 0,
            bsscfg_idx: 0,
        },
    }
}

fn on_wire(packet: EventPacket) -> Vec<u8> {
    let mut p = packet;
    p.byteswap();
    p.to_bytes().to_vec()
}

fn rx_event(packet: EventPacket, data_offset: u8, tail: &[u8]) -> Received {
    let mut body = vec![0u8; 4 * data_offset as usize];
    body.extend_from_slice(&on_wire(packet));
    body.extend_from_slice(tail);
    let mut runner = Runner::new(false);
    runner.rx(&frame(1, 1, 12, &bcd(data_offset, &body)))
}

#[test]
fn malformed_length() {
    let mut packet = vec![0u8; 100];
    packet[0] = 100;
    packet[5] = 0;
    packet[7] = 12;
    packet[9] = 40;
    let mut runner = Runner::new(false);
    let before = runner;
    assert_eq!(runner.rx(&packet), Received::Dropped(DropReason::LenInvMismatch));
    assert_eq!(runner, before);
}

#[test]
fn short_packet_is_dropped_and_changes_nothing() {
    let mut runner = Runner::new(false);
    let before = runner;
    assert_eq!(runner.rx(&[0u8; 11]), Received::Dropped(DropReason::PacketTooShort));
    assert_eq!(runner.rx(&[]), Received::Dropped(DropReason::PacketTooShort));
    assert_eq!(runner, before);
}

#[test]
fn length_that_is_not_the_packets_is_dropped() {
    let mut packet = frame(2, 9, 12, &bcd(0, &[1, 2, 3]));
    packet.push(0);
    let mut runner = Runner::new(false);
    let before = runner;
    assert_eq!(runner.rx(&packet), Received::Dropped(DropReason::LenMismatch));
    assert_eq!(runner, before);
}

#[test]
fn accepted_packet_updates_credit_only() {
    let mut runner = Runner::new(false);
    runner.ioctl_id = 7;
    runner.sdpcm_seq = 3;
    let before = runner;
    assert_eq!(runner.rx(&frame(2, 9, 12, &bcd(0, &[1, 2, 3]))), Received::Data(vec![1, 2, 3]));
    assert_eq!(runner.sdpcm_seq_max, 9);
    runner.sdpcm_seq_max = before.sdpcm_seq_max;
    assert_eq!(runner, before);
}

#[test]
fn header_length_past_the_packet_is_dropped_after_the_credit() {
    let mut runner = Runner::new(false);
    assert_eq!(
        runner.rx(&frame(2, 5, 17, &[0, 0, 0, 0])),
        Received::Dropped(DropReason::HeaderLengthOutOfRange)
    );
    assert_eq!(runner.sdpcm_seq_max, 5);
}

#[test]
fn header_length_skips_to_the_payload() {
    let mut runner = Runner::new(false);
    let mut payload = vec![0xee, 0xee];
    payload.extend_from_slice(&bcd(0, &[9, 8]));
    assert_eq!(runner.rx(&frame(2, 1, 14, &payload)), Received::Data(vec![9, 8]));
}

#[test]
fn unknown_channel_is_ignored() {
    let mut runner = Runner::new(false);
    assert_eq!(runner.rx(&frame(3, 77, 12, &[1, 2, 3, 4])), Received::Ignored);
    assert_eq!(runner.sdpcm_seq_max, 1);
    assert_eq!(runner.rx(&frame(0x0f, 77, 12, &[])), Received::Ignored);
}

#[test]
fn control_reply_is_handed_to_the_caller() {
    let mut runner = Runner::new(false);
    runner.ioctl_id = 1;
    assert_eq!(
        runner.rx(&frame(0, 1, 12, &cdc(1, 0, 3, &[1, 2, 3]))),
        Received::IoctlDone(vec![1, 2, 3])
    );
    assert_eq!(
        runner.rx(&frame(0, 1, 12, &cdc(1, 0, 2, &[1, 2, 3, 4]))),
        Received::IoctlDone(vec![1, 2])
    );
    assert_eq!(runner.rx(&frame(0, 1, 12, &cdc(1, 0, 0, &[]))), Received::IoctlDone(vec![]));
}

#[test]
fn control_reply_with_status_fails_the_request() {
    let mut runner = Runner::new(false);
    runner.ioctl_id = 1;
    assert_eq!(
        runner.rx(&frame(0, 1, 12, &cdc(1, 0xffff_fffe, 0, &[]))),
        Received::IoctlFailed(0xffff_fffe)
    );
}

#[test]
fn control_reply_for_another_request_is_dropped() {
    let mut runner = Runner::new(false);
    runner.ioctl_id = 2;
    assert_eq!(
        runner.rx(&frame(0, 1, 12, &cdc(1, 0, 3, &[1, 2, 3]))),
        Received::Dropped(DropReason::IoctlIdMismatch)
    );
}

#[test]
fn control_payload_faults_are_dropped() {
    let mut runner = Runner::new(false);
    runner.ioctl_id = 1;
    assert_eq!(
        runner.rx(&frame(0, 1, 12, &[0u8; 15])),
        Received::Dropped(DropReason::ControlTooShort)
    );
    assert_eq!(
        runner.rx(&frame(0, 1, 12, &cdc(1, 0, 4, &[1, 2, 3]))),
        Received::Dropped(DropReason::ResponseOutOfRange)
    );
}

#[test]
fn data_frame_is_handed_to_the_host() {
    let mut runner = Runner::new(false);
    assert_eq!(
        runner.rx(&frame(2, 1, 12, &bcd(1, &[0, 0, 0, 0, 5, 6, 7]))),
        Received::Data(vec![5, 6, 7])
    );
    assert_eq!(runner.rx(&frame(2, 1, 12, &bcd(0, &[]))), Received::Data(vec![]));
}

#[test]
fn data_frame_longer_than_the_host_takes_is_dropped() {
    let mut runner = Runner::new(false);
    assert_eq!(
        runner.rx(&frame(2, 1, 12, &bcd(0, &vec![7u8; 1515]))),
        Received::Dropped(DropReason::DataTooLong)
    );
    assert_eq!(
        runner.rx(&frame(2, 1, 12, &bcd(0, &vec![7u8; 1514]))),
        Received::Data(vec![7u8; 1514])
    );
    assert_eq!(
        runner.rx(&frame(2, 1, 12, &bcd(1, &vec![7u8; 1519]))),
        Received::Dropped(DropReason::DataTooLong)
    );
    assert_eq!(
        runner.rx(&frame(2, 1, 12, &bcd(1, &vec![7u8; 1518]))),
        Received::Data(vec![7u8; 1514])
    );
    assert_eq!(
        runner.rx(&frame(2, 1, 12, &vec![0u8; 2031])),
        Received::Dropped(DropReason::DataTooLong)
    );
}

#[test]
fn data_payload_faults_are_dropped() {
    let mut runner = Runner::new(false);
    assert_eq!(runner.rx(&frame(2, 1, 12, &[0x20, 0, 0])), Received::Dropped(DropReason::BcdTooShort));
    assert_eq!(
        runner.rx(&frame(2, 1, 12, &bcd(1, &[0, 0, 0]))),
        Received::Dropped(DropReason::DataStartOutOfRange)
    );
}

#[test]
fn join_event_is_published() {
    assert_eq!(
        rx_event(event(1, 0, 0), 0, &[]),
        Received::Event(EventStatus { status: 0, event_type: Event::JOIN })
    );
}

#[test]
fn auth_event_is_published_with_its_status() {
    assert_eq!(
        rx_event(event(3, 6, 4), 2, &[1, 2, 3, 4]),
        Received::Event(EventStatus { status: 6, event_type: Event::AUTH })
    );
}

#[test]
fn other_events_are_ignored() {
    assert_eq!(rx_event(event(0, 0, 0), 0, &[]), Received::Ignored);
    assert_eq!(rx_event(event(16, 0, 0), 0, &[]), Received::Ignored);
}

#[test]
fn event_type_is_compared_in_full() {
    assert_eq!(rx_event(event(0x0101, 0, 0), 0, &[]), Received::Ignored);
    assert_eq!(rx_event(event(0x0103, 0, 0), 0, &[]), Received::Ignored);
    assert_eq!(rx_event(event(0x0100_0001, 0, 0), 0, &[]), Received::Ignored);
    assert_eq!(rx_event(event(0xffff_ff03, 0, 0), 0, &[]), Received::Ignored);
}

#[test]
fn event_payload_faults_are_dropped() {
    let mut runner = Runner::new(false);
    assert_eq!(runner.rx(&frame(1, 1, 12, &[0x20])), Received::Dropped(DropReason::BcdTooShort));
    let wire = on_wire(event(1, 0, 0));
    assert_eq!(
        runner.rx(&frame(1, 1, 12, &bcd(0, &wire[..71]))),
        Received::Dropped(DropReason::EventIncompleteHeader)
    );
    assert_eq!(
        runner.rx(&frame(1, 1, 12, &bcd(1, &wire))),
        Received::Dropped(DropReason::EventIncompleteHeader)
    );
}

#[test]
fn foreign_event_frames_are_dropped() {
    let mut p = event(1, 0, 0);
    p.eth.ether_type = 0x0800;
    assert_eq!(rx_event(p, 0, &[]), Received::Dropped(DropReason::EventEtherType));
    let mut p = event(1, 0, 0);
    p.hdr.oui = [0x00, 0x10, 0x19];
    assert_eq!(rx_event(p, 0, &[]), Received::Dropped(DropReason::EventOui));
    let mut p = event(1, 0, 0);
    p.hdr.subtype = 32768;
    assert_eq!(rx_event(p, 0, &[]), Received::Dropped(DropReason::EventSubtype));
    let mut p = event(1, 0, 0);
    p.hdr.user_subtype = 2;
    assert_eq!(rx_event(p, 0, &[]), Received::Dropped(DropReason::EventUserSubtype));
}

#[test]
fn event_with_more_data_than_the_packet_is_dropped() {
    assert_eq!(
        rx_event(event(1, 0, 1), 0, &[]),
        Received::Dropped(DropReason::EventIncompleteData)
    );
    assert_eq!(
        rx_event(event(1, 0, 9), 0, &[0; 8]),
        Received::Dropped(DropReason::EventIncompleteData)
    );
    assert_eq!(
        rx_event(event(1, 0, 8), 0, &[0; 8]),
        Received::Event(EventStatus { status: 0, event_type: Event::JOIN })
    );
    assert_eq!(
        rx_event(event(1, 0, 3), 1, &[0; 8]),
        Received::Event(EventStatus { status: 0, event_type: Event::JOIN })
    );
    assert_eq!(
        rx_event(event(1, 0, 0xffff_ffff), 0, &[0; 8]),
        Received::Dropped(DropReason::EventIncompleteData)
    );
}

#[test]
fn event_codes_map_to_kinds() {
    assert_eq!(Event::from_code(1), Event::JOIN);
    assert_eq!(Event::from_code(3), Event::AUTH);
    assert_eq!(Event::from_code(0), Event::Other(0));
    assert_eq!(Event::from_code(2), Event::Other(2));
    assert_eq!(Event::from_code(0x0101), Event::Other(0x0101));
    assert_eq!(Event::from_code(0xffff_ffff), Event::Other(0xffff_ffff));
    assert!(Event::JOIN.is_published());
    assert!(Event::AUTH.is_published());
    assert!(!Event::Other(16).is_published());
}
