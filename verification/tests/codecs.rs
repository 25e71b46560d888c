use cyw43::bytes::{array_from_slice, pack_words, round_up4, slice8, vec_from_slice};
use cyw43::structs::{
    u16_byte, u16_from_le, u16_swap, u32_byte, u32_from_le, u32_swap, BcdHeader, CdcHeader,
    EthernetHeader, EventHeader, EventMessage, EventPacket, SdpcmHeader, SharedMemData,
    SharedMemLog,
};

fn sample_event() -> EventPacket {
    EventPacket {
        eth: EthernetHeader {
            destination_mac: [1, 2, 3, 4, 5, 6],
            source_mac: [7, 8, 9, 10, 11, 12],
            ether_type: 0x886c,
        },
        hdr: EventHeader {
            subtype: 32769,
            length: 0x1234,
            version: 2,
            oui: [0x00, 0x10, 0x18],
            user_subtype: 1,
        },
        msg: EventMessage {
            version: 2,
            flags: 0x0102,
            event_type: 1,
            status: 0x0a0b0c0d,
            reason: 7,
            auth_type: 9,
            datalen: 0x11223344,
            addr: [21, 22, 23, 24, 25, 26],
            ifname: [b'w', b'l', b'0', 0, 0, 0, 0, 0, 0, 0, 0, 0, 0, 0, 0, 0],
            ifidx: 3,
            bsscfg_idx: 4,
        },
    }
}

#[test]
fn little_endian_helpers_give_exact_values() {
    assert_eq!(u16_from_le(0x34, 0x12), 0x1234);
    assert_eq!(u32_from_le(0x78, 0x56, 0x34, 0x12), 0x12345678);
    assert_eq!(u16_byte(0x1234, 0), 0x34);
    assert_eq!(u16_byte(0x1234, 1), 0x12);
    assert_eq!(u32_byte(0x12345678, 0), 0x78);
    assert_eq!(u32_byte(0x12345678, 3), 0x12);
    assert_eq!(u16_swap(0x1234), 0x3412);
    assert_eq!(u32_swap(0x12345678), 0x78563412);
}

#[test]
fn sdpcm_header_encodes_field_by_field() {
    let h = SdpcmHeader {
        len: 0x0102,
        len_inv: !0x0102,
        sequence: 5,
        channel_and_flags: 0x12,
        next_length: 6,
        header_length: 12,
        wireless_flow_control: 7,
        bus_data_credit: 8,
        reserved: [9, 10],
    };
    let bytes = h.to_bytes();
    assert_eq!(bytes, [0x02, 0x01, 0xfd, 0xfe, 5, 0x12, 6, 12, 7, 8, 9, 10]);
    assert_eq!(bytes.len(), SdpcmHeader::SIZE);
    assert_eq!(SdpcmHeader::from_bytes(&bytes), h);
    assert!(h.len_valid());
    assert_eq!(h.channel(), 2);
}

#[test]
fn sdpcm_header_with_wrong_complement_is_not_valid() {
    let h = SdpcmHeader {
        len: 100,
        len_inv: 0,
        sequence: 0,
        channel_and_flags: 0,
        next_length: 0,
        header_length: 12,
        wireless_flow_control: 0,
        bus_data_credit: 0,
        reserved: [0, 0],
    };
    assert!(!h.len_valid());
}

#[test]
fn bcd_header_round_trips() {
    let h = BcdHeader { flags: 0x20, priority: 3, flags2: 4, data_offset: 5 };
    let bytes = h.to_bytes();
    assert_eq!(bytes, [0x20, 3, 4, 5]);
    assert_eq!(bytes.len(), BcdHeader::SIZE);
    assert_eq!(BcdHeader::from_bytes(&bytes), h);
}

#[test]
fn cdc_header_round_trips() {
    let h = CdcHeader { cmd: 0x01020304, len: 0x05060708, flags: 0x1002, id: 0x0a0b, status: 0xfffffffe };
    let bytes = h.to_bytes();
    assert_eq!(
        bytes,
        [4, 3, 2, 1, 8, 7, 6, 5, 0x02, 0x10, 0x0b, 0x0a, 0xfe, 0xff, 0xff, 0xff]
    );
    assert_eq!(bytes.len(), CdcHeader::SIZE);
    assert_eq!(CdcHeader::from_bytes(&bytes), h);
}

#[test]
fn event_packet_round_trips() {
    let p = sample_event();
    let bytes = p.to_bytes();
    assert_eq!(bytes.len(), EventPacket::SIZE);
    assert_eq!(EventPacket::SIZE, EthernetHeader::SIZE + EventHeader::SIZE + EventMessage::SIZE);
    assert_eq!(EventPacket::from_bytes(&bytes), p);
    assert_eq!(&bytes[0..6], &[1, 2, 3, 4, 5, 6]);
    assert_eq!(&bytes[12..14], &[0x6c, 0x88]);
    assert_eq!(&bytes[14..16], &[0x01, 0x80]);
    assert_eq!(&bytes[19..22], &[0x00, 0x10, 0x18]);
    assert_eq!(&bytes[44..48], &[0x44, 0x33, 0x22, 0x11]);
    assert_eq!(bytes[70], 3);
    assert_eq!(bytes[71], 4);
}

#[test]
fn event_packet_byteswap_swaps_numbers_only() {
    let p = sample_event();
    let mut q = p;
    q.byteswap();
    assert_eq!(q.eth.ether_type, 0x6c88);
    assert_eq!(q.eth.destination_mac, p.eth.destination_mac);
    assert_eq!(q.hdr.subtype, 0x0180);
    assert_eq!(q.hdr.length, 0x3412);
    assert_eq!(q.hdr.user_subtype, 0x0100);
    assert_eq!(q.hdr.oui, p.hdr.oui);
    assert_eq!(q.msg.event_type, 0x01000000);
    assert_eq!(q.msg.status, 0x0d0c0b0a);
    assert_eq!(q.msg.datalen, 0x44332211);
    assert_eq!(q.msg.ifname, p.msg.ifname);
    q.byteswap();
    assert_eq!(q, p);
}

#[test]
fn event_parts_byteswap_on_their_own() {
    let p = sample_event();
    let mut eth = p.eth;
    eth.byteswap();
    assert_eq!(eth.ether_type, 0x6c88);
    let mut hdr = p.hdr;
    hdr.byteswap();
    assert_eq!(hdr.subtype, 0x0180);
    let mut msg = p.msg;
    msg.byteswap();
    assert_eq!(msg.version, 0x0200);
    assert_eq!(msg.flags, 0x0201);
    assert_eq!(msg.reason, 0x07000000);
    assert_eq!(msg.auth_type, 0x09000000);
}

#[test]
fn shared_memory_structs_decode() {
    let mut bytes = [0u8; 32];
    for (i, b) in bytes.iter_mut().enumerate() {
        *b = i as u8;
    }
    let d = SharedMemData::from_bytes(&bytes);
    assert_eq!(d.flags, 0x03020100);
    assert_eq!(d.console_addr, 0x17161514);
    assert_eq!(d.fwid, 0x1f1e1d1c);
    assert_eq!(SharedMemData::SIZE, 32);

    let header = [0x00, 0x10, 0x00, 0x00, 0x00, 0x04, 0x00, 0x00, 0x05, 0, 0, 0, 0x06, 0, 0, 0];
    let l = SharedMemLog::from_bytes(&header);
    assert_eq!(l, SharedMemLog { buf: 0x1000, buf_size: 0x400, idx: 5, out_idx: 6 });
    assert_eq!(SharedMemLog::SIZE, 16);
}

#[test]
fn words_and_bytes_convert_little_endian() {
    let words = [0x04030201u32, 0x08070605];
    assert_eq!(slice8(&words, 8), vec![1, 2, 3, 4, 5, 6, 7, 8]);
    assert_eq!(slice8(&words, 5), vec![1, 2, 3, 4, 5]);
    assert_eq!(slice8(&words, 0), Vec::<u8>::new());
    assert_eq!(pack_words(&vec![1, 2, 3, 4, 5, 6, 7, 8]), vec![0x04030201, 0x08070605]);
    assert_eq!(pack_words(&Vec::new()), Vec::<u32>::new());
    let bytes: Vec<u8> = (0u8..16).collect();
    assert_eq!(slice8(&pack_words(&bytes), 16), bytes);
}

#[test]
fn slices_are_copied_by_range() {
    let s = [10u8, 11, 12, 13, 14, 15];
    let a: [u8; 3] = array_from_slice(&s, 2);
    assert_eq!(a, [12, 13, 14]);
    assert_eq!(vec_from_slice(&s, 1, 4), vec![11, 12, 13]);
    assert_eq!(vec_from_slice(&s, 6, 6), Vec::<u8>::new());
}

#[test]
fn lengths_round_up_to_whole_words() {
    assert_eq!(round_up4(0), 0);
    assert_eq!(round_up4(1), 4);
    assert_eq!(round_up4(4), 4);
    assert_eq!(round_up4(30), 32);
    assert_eq!(round_up4(2045), 2048);
}
