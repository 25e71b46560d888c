//! The runner: transmit framing, credit and the dispatch of received packets.

use vstd::prelude::*;
use crate::bytes::{
    array_from_slice, bytes_to_words, pack_words, round_up4, spec_round_up4, vec_from_slice,
};
use crate::consts::{
    BDC_VERSION, BDC_VERSION_SHIFT, CHANNEL_TYPE_CONTROL, CHANNEL_TYPE_DATA, CHANNEL_TYPE_EVENT,
    MTU, SCRATCH_BYTES,
};
use crate::credit::{available, credit_after, credit_available, next_credit, sum, wrapping_sum};
use crate::events::{Event, EventStatus};
use crate::ioctl::IoctlType;
use crate::log::{LogState, LogView};
use crate::structs::{
    be16_at, be32_at, byte16, le16, lemma_le16_of_bytes, lemma_swap_le16, lemma_swap_le32,
    BcdHeader, CdcHeader, EventPacket, SdpcmHeader,
};

verus! {

/// Ethernet type of the frames that carry firmware events.
pub const ETH_P_LINK_CTL: u16 = 0x886c;

/// Vendor subtype of an event frame.
pub const BCMILCP_SUBTYPE_VENDOR_LONG: u16 = 32769;

/// User subtype of an event frame.
pub const BCMILCP_BCM_SUBTYPE_EVENT: u16 = 1;

/// Why a received packet was dropped.
#[derive(Clone, Copy, Debug, PartialEq, Eq, Structural)]
pub enum DropReason {
    /// Shorter than a bus header.
    PacketTooShort,
    /// The length check word is not the complement of the length.
    LenInvMismatch,
    /// The length in the header is not the length of the packet.
    LenMismatch,
    /// The bus header's offset to the payload points past the packet.
    HeaderLengthOutOfRange,
    /// A control payload shorter than a control header.
    ControlTooShort,
    /// A control reply whose identifier is not that of the outstanding request.
    IoctlIdMismatch,
    /// A control reply that claims more data than the packet holds.
    ResponseOutOfRange,
    /// An event or data payload shorter than a data header.
    BcdTooShort,
    /// An event payload that ends before the event packet does.
    EventIncompleteHeader,
    /// An event frame of another Ethernet type.
    EventEtherType,
    /// An event frame of another vendor.
    EventOui,
    /// An event frame of another subtype.
    EventSubtype,
    /// An event frame of another user subtype.
    EventUserSubtype,
    /// An event that claims more data than the packet holds.
    EventIncompleteData,
    /// A data header whose offset points past the packet.
    DataStartOutOfRange,
    /// A network frame longer than the host takes.
    DataTooLong,
}

/// What is to be done with a received packet.
#[derive(Clone, Debug, PartialEq, Eq)]
pub enum Received {
    /// Malformed or unexpected: dropped with a warning.
    Dropped(DropReason),
    /// Well-formed, of no interest to anybody.
    Ignored,
    /// The reply to the outstanding control request, for its caller.
    IoctlDone(Vec<u8>),
    /// The firmware refused the outstanding control request with this status.
    IoctlFailed(u32),
    /// An event for the subscribers.
    Event(EventStatus),
    /// A network frame for the host stack.
    Data(Vec<u8>),
}

/// [`Received`] with its byte strings as sequences.
pub enum ReceivedView {
    Dropped(DropReason),
    Ignored,
    IoctlDone(Seq<u8>),
    IoctlFailed(u32),
    Event(EventStatus),
    Data(Seq<u8>),
}

impl View for Received {
    type V = ReceivedView;

    open spec fn view(&self) -> ReceivedView {
        match self {
            Received::Dropped(reason) => ReceivedView::Dropped(*reason),
            Received::Ignored => ReceivedView::Ignored,
            Received::IoctlDone(response) => ReceivedView::IoctlDone(response@),
            Received::IoctlFailed(status) => ReceivedView::IoctlFailed(*status),
            Received::Event(event) => ReceivedView::Event(*event),
            Received::Data(frame) => ReceivedView::Data(frame@),
        }
    }
}

/// The fault in a packet's bus header, if there is one.
pub open spec fn sdpcm_fault(packet: Seq<u8>) -> Option<DropReason> {
    if packet.len() < SdpcmHeader::SIZE {
        Some(DropReason::PacketTooShort)
    } else if le16(packet[2], packet[3]) != !le16(packet[0], packet[1]) {
        Some(DropReason::LenInvMismatch)
    } else if le16(packet[0], packet[1]) != packet.len() {
        Some(DropReason::LenMismatch)
    } else {
        None
    }
}

/// What a control payload asks for, where `ioctl_id` is the identifier of the
/// outstanding request.
pub open spec fn dispatch_control(ioctl_id: u16, payload: Seq<u8>) -> ReceivedView {
    let cdc = CdcHeader::spec_from_bytes(payload);
    if payload.len() < CdcHeader::SIZE {
        ReceivedView::Dropped(DropReason::ControlTooShort)
    } else if cdc.id != ioctl_id {
        ReceivedView::Dropped(DropReason::IoctlIdMismatch)
    } else if cdc.status != 0 {
        ReceivedView::IoctlFailed(cdc.status)
    } else if cdc.len > payload.len() - CdcHeader::SIZE {
        ReceivedView::Dropped(DropReason::ResponseOutOfRange)
    } else {
        ReceivedView::IoctlDone(
            payload.subrange(CdcHeader::SIZE as int, CdcHeader::SIZE + cdc.len),
        )
    }
}

/// Where the packet starts in a payload that begins with a data header.
pub open spec fn bcd_packet_start(payload: Seq<u8>) -> int {
    BcdHeader::SIZE + 4 * payload[3]
}

/// What an event frame asks for. The frame's numeric fields are big-endian;
/// the event's data follows the event packet, and an event that claims more
/// data than follows is dropped.
pub open spec fn dispatch_event_packet(frame: Seq<u8>) -> ReceivedView {
    let kind = Event::spec_from_code(be32_at(frame, 28));
    if be16_at(frame, 12) != ETH_P_LINK_CTL {
        ReceivedView::Dropped(DropReason::EventEtherType)
    } else if !(frame[19] == 0x00 && frame[20] == 0x10 && frame[21] == 0x18) {
        ReceivedView::Dropped(DropReason::EventOui)
    } else if be16_at(frame, 14) != BCMILCP_SUBTYPE_VENDOR_LONG {
        ReceivedView::Dropped(DropReason::EventSubtype)
    } else if be16_at(frame, 22) != BCMILCP_BCM_SUBTYPE_EVENT {
        ReceivedView::Dropped(DropReason::EventUserSubtype)
    } else if be32_at(frame, 44) > frame.len() - EventPacket::SIZE {
        ReceivedView::Dropped(DropReason::EventIncompleteData)
    } else if kind.spec_is_published() {
        ReceivedView::Event(EventStatus { status: be32_at(frame, 32), event_type: kind })
    } else {
        ReceivedView::Ignored
    }
}

/// What an event payload asks for.
pub open spec fn dispatch_event(payload: Seq<u8>) -> ReceivedView {
    if payload.len() < BcdHeader::SIZE {
        ReceivedView::Dropped(DropReason::BcdTooShort)
    } else if bcd_packet_start(payload) + EventPacket::SIZE > payload.len() {
        ReceivedView::Dropped(DropReason::EventIncompleteHeader)
    } else {
        dispatch_event_packet(payload.subrange(bcd_packet_start(payload), payload.len() as int))
    }
}

/// What a data payload asks for: the network frame behind the data header
/// goes to the host, unless it is longer than the host takes.
pub open spec fn dispatch_data(payload: Seq<u8>) -> ReceivedView {
    if payload.len() < BcdHeader::SIZE {
        ReceivedView::Dropped(DropReason::BcdTooShort)
    } else if bcd_packet_start(payload) > payload.len() {
        ReceivedView::Dropped(DropReason::DataStartOutOfRange)
    } else if payload.len() - bcd_packet_start(payload) > MTU {
        ReceivedView::Dropped(DropReason::DataTooLong)
    } else {
        ReceivedView::Data(payload.subrange(bcd_packet_start(payload), payload.len() as int))
    }
}

/// What a packet with a sound bus header asks for.
pub open spec fn dispatch(ioctl_id: u16, packet: Seq<u8>) -> ReceivedView {
    let header_length = packet[7] as int;
    let channel = packet[5] & 0x0f;
    let payload = packet.subrange(header_length, packet.len() as int);
    if header_length > packet.len() {
        ReceivedView::Dropped(DropReason::HeaderLengthOutOfRange)
    } else if channel == CHANNEL_TYPE_CONTROL {
        dispatch_control(ioctl_id, payload)
    } else if channel == CHANNEL_TYPE_EVENT {
        dispatch_event(payload)
    } else if channel == CHANNEL_TYPE_DATA {
        dispatch_data(payload)
    } else {
        ReceivedView::Ignored
    }
}

/// What a received packet asks for.
pub open spec fn received(ioctl_id: u16, packet: Seq<u8>) -> ReceivedView {
    match sdpcm_fault(packet) {
        Some(reason) => ReceivedView::Dropped(reason),
        None => dispatch(ioctl_id, packet),
    }
}

/// Dispatches the control payload that starts at `at` in `packet`.
fn rx_control(ioctl_id: u16, packet: &[u8], at: usize) -> (r: Received)
    requires
        at <= packet.len(),
    ensures
        r@ == dispatch_control(ioctl_id, packet@.subrange(at as int, packet.len() as int)),
{
    let ghost payload = packet@.subrange(at as int, packet.len() as int);
    let payload_len = packet.len() - at;
    if payload_len < CdcHeader::SIZE {
        return Received::Dropped(DropReason::ControlTooShort);
    }
    let bytes: [u8; 16] = array_from_slice(packet, at);
    let cdc = CdcHeader::from_bytes(&bytes);
    assert(cdc == CdcHeader::spec_from_bytes(payload));
    if cdc.id != ioctl_id {
        return Received::Dropped(DropReason::IoctlIdMismatch);
    }
    if cdc.status != 0 {
        return Received::IoctlFailed(cdc.status);
    }
    let resp_len = cdc.len as usize;
    if resp_len > payload_len - CdcHeader::SIZE {
        return Received::Dropped(DropReason::ResponseOutOfRange);
    }
    let response = vec_from_slice(packet, at + CdcHeader::SIZE, at + CdcHeader::SIZE + resp_len);
    assert(response@ =~= payload.subrange(CdcHeader::SIZE as int, CdcHeader::SIZE + cdc.len));
    Received::IoctlDone(response)
}

/// Dispatches the data payload that starts at `at` in `packet`.
fn rx_data(packet: &[u8], at: usize) -> (r: Received)
    requires
        at <= packet.len(),
    ensures
        r@ == dispatch_data(packet@.subrange(at as int, packet.len() as int)),
{
    let ghost payload = packet@.subrange(at as int, packet.len() as int);
    let payload_len = packet.len() - at;
    if payload_len < BcdHeader::SIZE {
        return Received::Dropped(DropReason::BcdTooShort);
    }
    let bytes: [u8; 4] = array_from_slice(packet, at);
    let bcd_header = BcdHeader::from_bytes(&bytes);
    let packet_start = BcdHeader::SIZE + 4 * (bcd_header.data_offset as usize);
    assert(packet_start == bcd_packet_start(payload));
    if packet_start > payload_len {
        return Received::Dropped(DropReason::DataStartOutOfRange);
    }
    if payload_len - packet_start > MTU {
        return Received::Dropped(DropReason::DataTooLong);
    }
    let frame = vec_from_slice(packet, at + packet_start, packet.len());
    assert(frame@ =~= payload.subrange(packet_start as int, payload.len() as int));
    Received::Data(frame)
}

/// Dispatches the event payload that starts at `at` in `packet`.
fn rx_event(packet: &[u8], at: usize) -> (r: Received)
    requires
        at <= packet.len(),
    ensures
        r@ == dispatch_event(packet@.subrange(at as int, packet.len() as int)),
{
    let ghost payload = packet@.subrange(at as int, packet.len() as int);
    let payload_len = packet.len() - at;
    if payload_len < BcdHeader::SIZE {
        return Received::Dropped(DropReason::BcdTooShort);
    }
    let bytes: [u8; 4] = array_from_slice(packet, at);
    let bcd_header = BcdHeader::from_bytes(&bytes);
    let packet_start = BcdHeader::SIZE + 4 * (bcd_header.data_offset as usize);
    assert(packet_start == bcd_packet_start(payload));
    if packet_start + EventPacket::SIZE > payload_len {
        return Received::Dropped(DropReason::EventIncompleteHeader);
    }
    let ghost frame = payload.subrange(packet_start as int, payload.len() as int);
    let frame_len = payload_len - packet_start;
    let bytes: [u8; 72] = array_from_slice(packet, at + packet_start);
    assert(bytes@ =~= frame.subrange(0, 72));
    let mut event_packet = EventPacket::from_bytes(&bytes);
    event_packet.byteswap();
    proof {
        lemma_swap_le16(frame[12], frame[13]);
        lemma_swap_le16(frame[14], frame[15]);
        lemma_swap_le16(frame[22], frame[23]);
        lemma_swap_le32(frame[28], frame[29], frame[30], frame[31]);
        lemma_swap_le32(frame[32], frame[33], frame[34], frame[35]);
        lemma_swap_le32(frame[44], frame[45], frame[46], frame[47]);
        assert(event_packet.hdr.oui@ == bytes@.subrange(19, 22));
        assert(event_packet.hdr.oui@[0] == frame[19]);
        assert(event_packet.hdr.oui@[1] == frame[20]);
        assert(event_packet.hdr.oui@[2] == frame[21]);
    }
    if event_packet.eth.ether_type != ETH_P_LINK_CTL {
        return Received::Dropped(DropReason::EventEtherType);
    }
    if !(event_packet.hdr.oui[0] == 0x00 && event_packet.hdr.oui[1] == 0x10
        && event_packet.hdr.oui[2] == 0x18) {
        return Received::Dropped(DropReason::EventOui);
    }
    if event_packet.hdr.subtype != BCMILCP_SUBTYPE_VENDOR_LONG {
        return Received::Dropped(DropReason::EventSubtype);
    }
    if event_packet.hdr.user_subtype != BCMILCP_BCM_SUBTYPE_EVENT {
        return Received::Dropped(DropReason::EventUserSubtype);
    }
    if event_packet.msg.datalen as usize > frame_len - EventPacket::SIZE {
        return Received::Dropped(DropReason::EventIncompleteData);
    }
    let kind = Event::from_code(event_packet.msg.event_type);
    if kind.is_published() {
        Received::Event(EventStatus { status: event_packet.msg.status, event_type: kind })
    } else {
        Received::Ignored
    }
}

/// The bus header of a frame of `len` bytes sent with sequence number `seq`
/// on `channel`, encoded.
pub open spec fn tx_sdpcm_bytes(len: u16, seq: u8, channel: u8) -> Seq<u8> {
    seq![
        byte16(len, 0),
        byte16(len, 1),
        byte16(!len, 0),
        byte16(!len, 1),
        seq,
        channel,
        0,
        12,
        0,
        0,
        0,
        0,
    ]
}

/// `body` followed by as many zero bytes as fill its last 32-bit word.
pub open spec fn padded(body: Seq<u8>) -> Seq<u8> {
    body + Seq::new((spec_round_up4(body.len() as int) - body.len()) as nat, |i: int| 0u8)
}

/// The flags of the control header of a request.
pub open spec fn ioctl_flags(kind: IoctlType, iface: u32) -> u16 {
    kind.spec_code() | (((iface & 0xffff) as u16) << 12)
}

/// `id + 1` modulo 65536.
pub open spec fn next_ioctl_id(id: u16) -> u16 {
    if id == 0xffff {
        0
    } else {
        (id + 1) as u16
    }
}

/// The bytes, before padding, of a control request sent with sequence number
/// `seq` and request identifier `id`.
pub open spec fn ioctl_frame(
    seq: u8,
    id: u16,
    kind: IoctlType,
    cmd: u32,
    iface: u32,
    data: Seq<u8>,
) -> Seq<u8> {
    tx_sdpcm_bytes(
        (SdpcmHeader::SIZE + CdcHeader::SIZE + data.len()) as u16,
        seq,
        CHANNEL_TYPE_CONTROL,
    ) + (CdcHeader {
        cmd,
        len: data.len() as u32,
        flags: ioctl_flags(kind, iface),
        id,
        status: 0,
    }).spec_to_bytes() + data
}

/// The bytes, before padding, of a network frame sent with sequence number
/// `seq`.
pub open spec fn data_frame(seq: u8, packet: Seq<u8>) -> Seq<u8> {
    tx_sdpcm_bytes(
        (SdpcmHeader::SIZE + BcdHeader::SIZE + packet.len()) as u16,
        seq,
        CHANNEL_TYPE_DATA,
    ) + (BcdHeader {
        flags: BDC_VERSION << BDC_VERSION_SHIFT,
        priority: 0,
        flags2: 0,
        data_offset: 0,
    }).spec_to_bytes() + packet
}

/// Every bus header that is sent carries the complement of its length in its
/// check word.
pub proof fn lemma_tx_len_inv(len: u16, seq: u8, channel: u8)
    ensures
        ({
            let b = tx_sdpcm_bytes(len, seq, channel);
            le16(b[2], b[3]) == !le16(b[0], b[1]) && le16(b[0], b[1]) == len
        }),
{
    lemma_le16_of_bytes(len);
    lemma_le16_of_bytes(!len);
}

/// Every packet that is accepted carries the complement of its length in its
/// check word.
pub proof fn lemma_rx_len_inv(ioctl_id: u16, packet: Seq<u8>)
    requires
        received(ioctl_id, packet) != ReceivedView::Dropped(DropReason::PacketTooShort),
        received(ioctl_id, packet) != ReceivedView::Dropped(DropReason::LenInvMismatch),
    ensures
        packet.len() >= SdpcmHeader::SIZE,
        le16(packet[2], packet[3]) == !le16(packet[0], packet[1]),
{
}

/// A network frame no longer than the host takes, framed for the bus, is
/// taken in, by a runner that receives those very bytes, as that network
/// frame.
pub proof fn lemma_data_loopback(ioctl_id: u16, seq: u8, packet: Seq<u8>)
    requires
        packet.len() <= MTU,
    ensures
        received(ioctl_id, data_frame(seq, packet)) == ReceivedView::Data(packet),
{
    let len = (SdpcmHeader::SIZE + BcdHeader::SIZE + packet.len()) as u16;
    let frame = data_frame(seq, packet);
    lemma_tx_len_inv(len, seq, CHANNEL_TYPE_DATA);
    assert(frame.len() == len);
    assert(2u8 & 0x0f == 2u8) by (bit_vector);
    assert(sdpcm_fault(frame) is None);
    let payload = frame.subrange(12, frame.len() as int);
    assert(payload[3] == 0);
    assert(payload.subrange(bcd_packet_start(payload), payload.len() as int) =~= packet);
}

/// A control request that was framed for the bus is taken in, by a runner
/// that receives those very bytes while that request is outstanding, as a
/// reply that carries the request's data.
pub proof fn lemma_ioctl_loopback(
    seq: u8,
    id: u16,
    kind: IoctlType,
    cmd: u32,
    iface: u32,
    data: Seq<u8>,
)
    requires
        SdpcmHeader::SIZE + CdcHeader::SIZE + data.len() <= SCRATCH_BYTES,
    ensures
        received(id, ioctl_frame(seq, id, kind, cmd, iface, data)) == ReceivedView::IoctlDone(data),
{
    let len = (SdpcmHeader::SIZE + CdcHeader::SIZE + data.len()) as u16;
    let frame = ioctl_frame(seq, id, kind, cmd, iface, data);
    let cdc = CdcHeader {
        cmd,
        len: data.len() as u32,
        flags: ioctl_flags(kind, iface),
        id,
        status: 0,
    };
    lemma_tx_len_inv(len, seq, CHANNEL_TYPE_CONTROL);
    assert(frame.len() == len);
    assert(0u8 & 0x0f == 0u8) by (bit_vector);
    assert(sdpcm_fault(frame) is None);
    let payload = frame.subrange(12, frame.len() as int);
    cdc.lemma_round_trip();
    assert(payload.subrange(0, 16) =~= cdc.spec_to_bytes());
    assert(CdcHeader::spec_from_bytes(payload) == CdcHeader::spec_from_bytes(cdc.spec_to_bytes()));
    assert(payload.subrange(CdcHeader::SIZE as int, CdcHeader::SIZE + cdc.len) =~= data);
}

/// Appends zero bytes to `frame` until its length is a multiple of four, and
/// packs it into words.
fn finish_frame(frame: Vec<u8>) -> (words: Vec<u32>)
    requires
        frame.len() <= SCRATCH_BYTES,
    ensures
        words@ == bytes_to_words(padded(frame@)),
{
    let mut frame = frame;
    let ghost body = frame@;
    let total = round_up4(frame.len());
    while frame.len() < total
        invariant
            body.len() <= frame.len() <= total,
            total == spec_round_up4(body.len() as int),
            total % 4 == 0,
            frame@.subrange(0, body.len() as int) == body,
            forall|i: int| body.len() <= i < frame.len() ==> frame@[i] == 0,
        decreases total - frame.len(),
    {
        frame.push(0);
    }
    assert(frame@ =~= padded(body));
    pack_words(&frame)
}

/// Builds the bus header of a frame to send.
fn tx_sdpcm_header(total_len: usize, seq: u8, channel: u8) -> (bytes: [u8; 12])
    requires
        total_len <= SCRATCH_BYTES,
    ensures
        bytes@ == tx_sdpcm_bytes(total_len as u16, seq, channel),
{
    let len = total_len as u16;
    let sdpcm_header = SdpcmHeader {
        len,
        len_inv: !len,
        sequence: seq,
        channel_and_flags: channel,
        next_length: 0,
        header_length: 12,
        wireless_flow_control: 0,
        bus_data_credit: 0,
        reserved: [0, 0],
    };
    let bytes = sdpcm_header.to_bytes();
    assert(bytes@ =~= tx_sdpcm_bytes(total_len as u16, seq, channel));
    bytes
}

/// What the runner has asked for last, and so what it waits to hear of.
#[derive(Clone, Copy, Debug, PartialEq, Eq, Structural)]
pub enum Phase {
    /// Nothing yet.
    Start,
    /// The address of the shared-memory descriptor.
    LogInitAddr,
    /// The shared-memory descriptor.
    LogInitShared,
    /// The header of the firmware's log.
    LogHeader,
    /// The ring of the firmware's log, to be read up to `idx`.
    LogRing { idx: usize },
    /// The emission of log lines.
    LogEmit,
    /// A control request, a frame of the host or an interrupt.
    Waiting,
    /// The writing of a frame to the chip.
    Sending,
    /// The interrupt register.
    IrqRead,
    /// The bus status. `clear` says that the interrupt register is to be
    /// cleared once the chip has no more packets.
    Status { clear: bool },
    /// A packet of `len` bytes from the chip.
    Reading { len: usize, clear: bool },
    /// The handling of what a packet asked for.
    Handing { clear: bool },
    /// The clearing of the interrupt register.
    Clearing,
}

/// State of the runner.
#[derive(Clone, Copy, Debug, PartialEq, Eq)]
pub struct Runner {
    /// Identifier of the control request sent last.
    pub ioctl_id: u16,
    /// Sequence number of the next frame to send.
    pub sdpcm_seq: u8,
    /// Highest sequence number the chip accepts at present.
    pub sdpcm_seq_max: u8,
    /// Whether the firmware's log is tailed.
    pub firmware_logs: bool,
    /// State of the log tailer.
    pub log: LogState,
    /// What the runner waits to hear of.
    pub phase: Phase,
}

/// The runner's state with the log tailer as its view.
pub struct RunnerView {
    pub ioctl_id: u16,
    pub sdpcm_seq: u8,
    pub sdpcm_seq_max: u8,
    pub firmware_logs: bool,
    pub log: LogView,
    pub phase: Phase,
}

impl View for Runner {
    type V = RunnerView;

    open spec fn view(&self) -> RunnerView {
        RunnerView {
            ioctl_id: self.ioctl_id,
            sdpcm_seq: self.sdpcm_seq,
            sdpcm_seq_max: self.sdpcm_seq_max,
            firmware_logs: self.firmware_logs,
            log: self.log@,
            phase: self.phase,
        }
    }
}

impl Runner {
    /// A runner that has sent nothing yet and may send one frame.
    pub fn new(firmware_logs: bool) -> (runner: Runner)
        ensures
            runner@ == (RunnerView {
                ioctl_id: 0,
                sdpcm_seq: 0,
                sdpcm_seq_max: 1,
                firmware_logs,
                log: LogView { addr: 0, last_idx: 0, line: Seq::empty() },
                phase: Phase::Start,
            }),
    {
        Runner {
            ioctl_id: 0,
            sdpcm_seq: 0,
            sdpcm_seq_max: 1,
            firmware_logs,
            log: LogState::default(),
            phase: Phase::Start,
        }
    }

    /// Takes the transmit credit from the bus header of a received frame.
    pub fn update_credit(&mut self, sdpcm_header: &SdpcmHeader)
        ensures
            *final(self) == (Runner {
                sdpcm_seq_max: credit_after(
                    old(self).sdpcm_seq,
                    old(self).sdpcm_seq_max,
                    sdpcm_header.channel_and_flags,
                    sdpcm_header.bus_data_credit,
                ),
                ..*old(self)
            }),
    {
        self.sdpcm_seq_max = next_credit(
            self.sdpcm_seq,
            self.sdpcm_seq_max,
            sdpcm_header.channel_and_flags,
            sdpcm_header.bus_data_credit,
        );
    }

    /// Whether a frame may be sent.
    pub open spec fn spec_has_credit(&self) -> bool {
        credit_available(self.sdpcm_seq, self.sdpcm_seq_max)
    }

    /// Whether a frame may be sent.
    #[verifier::when_used_as_spec(spec_has_credit)]
    pub fn has_credit(&self) -> (yes: bool)
        ensures
            yes == self.spec_has_credit(),
    {
        available(self.sdpcm_seq, self.sdpcm_seq_max)
    }

    /// The runner after it received `packet`: a packet with a sound bus header
    /// updates the credit, any other changes nothing.
    pub open spec fn after_rx(self, packet: Seq<u8>) -> Runner {
        if sdpcm_fault(packet) is None {
            Runner {
                sdpcm_seq_max: credit_after(
                    self.sdpcm_seq,
                    self.sdpcm_seq_max,
                    packet[5],
                    packet[9],
                ),
                ..self
            }
        } else {
            self
        }
    }

    /// Takes in a packet read from the bus: checks its bus header, updates the
    /// credit and says what is to be done with the payload.
    pub fn rx(&mut self, packet: &[u8]) -> (r: Received)
        ensures
            r@ == received(old(self).ioctl_id, packet@),
            *final(self) == old(self).after_rx(packet@),
    {
        if packet.len() < SdpcmHeader::SIZE {
            return Received::Dropped(DropReason::PacketTooShort);
        }
        let bytes: [u8; 12] = array_from_slice(packet, 0);
        let sdpcm_header = SdpcmHeader::from_bytes(&bytes);
        if !sdpcm_header.len_valid() {
            return Received::Dropped(DropReason::LenInvMismatch);
        }
        if sdpcm_header.len as usize != packet.len() {
            return Received::Dropped(DropReason::LenMismatch);
        }
        self.update_credit(&sdpcm_header);

        let channel = sdpcm_header.channel();
        let at = sdpcm_header.header_length as usize;
        if at > packet.len() {
            return Received::Dropped(DropReason::HeaderLengthOutOfRange);
        }
        if channel == CHANNEL_TYPE_CONTROL {
            rx_control(self.ioctl_id, packet, at)
        } else if channel == CHANNEL_TYPE_EVENT {
            rx_event(packet, at)
        } else if channel == CHANNEL_TYPE_DATA {
            rx_data(packet, at)
        } else {
            Received::Ignored
        }
    }

    /// Frames a control request for the bus and counts it: the frame takes
    /// the next sequence number and the next request identifier. Returns the
    /// words to write to the chip.
    pub fn send_ioctl(&mut self, kind: IoctlType, cmd: u32, iface: u32, data: &[u8]) -> (words:
        Vec<u32>)
        requires
            SdpcmHeader::SIZE + CdcHeader::SIZE + data.len() <= SCRATCH_BYTES,
        ensures
            *final(self) == (Runner {
                sdpcm_seq: wrapping_sum(old(self).sdpcm_seq, 1),
                ioctl_id: next_ioctl_id(old(self).ioctl_id),
                ..*old(self)
            }),
            words@ == bytes_to_words(
                padded(
                    ioctl_frame(
                        old(self).sdpcm_seq,
                        next_ioctl_id(old(self).ioctl_id),
                        kind,
                        cmd,
                        iface,
                        data@,
                    ),
                ),
            ),
    {
        let total_len = SdpcmHeader::SIZE + CdcHeader::SIZE + data.len();
        let sdpcm_seq = self.sdpcm_seq;
        self.sdpcm_seq = sum(self.sdpcm_seq, 1);
        self.ioctl_id = if self.ioctl_id == 0xffff {
            0
        } else {
            self.ioctl_id + 1
        };

        let sdpcm_bytes = tx_sdpcm_header(total_len, sdpcm_seq, CHANNEL_TYPE_CONTROL);
        let low = iface & 0xffff;
        assert(low <= 0xffff) by (bit_vector)
            requires
                low == iface & 0xffff,
        ;
        let cdc_header = CdcHeader {
            cmd,
            len: data.len() as u32,
            flags: kind.code() | ((low as u16) << 12),
            id: self.ioctl_id,
            status: 0,
        };
        let cdc_bytes = cdc_header.to_bytes();

        let mut frame: Vec<u8> = Vec::new();
        frame.extend_from_slice(sdpcm_bytes.as_slice());
        frame.extend_from_slice(cdc_bytes.as_slice());
        frame.extend_from_slice(data);
        assert(frame@ =~= ioctl_frame(sdpcm_seq, self.ioctl_id, kind, cmd, iface, data@));
        finish_frame(frame)
    }

    /// Frames a network frame of the host for the bus and counts it: the
    /// frame takes the next sequence number. Returns the words to write to
    /// the chip.
    pub fn send_data(&mut self, packet: &[u8]) -> (words: Vec<u32>)
        requires
            SdpcmHeader::SIZE + BcdHeader::SIZE + packet.len() <= SCRATCH_BYTES,
        ensures
            *final(self) == (Runner {
                sdpcm_seq: wrapping_sum(old(self).sdpcm_seq, 1),
                ..*old(self)
            }),
            words@ == bytes_to_words(padded(data_frame(old(self).sdpcm_seq, packet@))),
    {
        let total_len = SdpcmHeader::SIZE + BcdHeader::SIZE + packet.len();
        let seq = self.sdpcm_seq;
        self.sdpcm_seq = sum(self.sdpcm_seq, 1);

        let sdpcm_bytes = tx_sdpcm_header(total_len, seq, CHANNEL_TYPE_DATA);
        let bcd_header = BcdHeader {
            flags: BDC_VERSION << BDC_VERSION_SHIFT,
            priority: 0,
            flags2: 0,
            data_offset: 0,
        };
        let bcd_bytes = bcd_header.to_bytes();

        let mut frame: Vec<u8> = Vec::new();
        frame.extend_from_slice(sdpcm_bytes.as_slice());
        frame.extend_from_slice(bcd_bytes.as_slice());
        frame.extend_from_slice(packet);
        assert(frame@ =~= data_frame(seq, packet@));
        finish_frame(frame)
    }
}

} // verus!
