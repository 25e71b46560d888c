//! Fixed-layout headers of the chip's framing, with their byte encodings.
//!
//! Every header is encoded field by field, little-endian and without padding.

use vstd::prelude::*;

verus! {

/// The 16-bit value whose little-endian encoding is `lo`, `hi`.
pub open spec fn le16(lo: u8, hi: u8) -> u16 {
    (lo as u16) | ((hi as u16) << 8)
}

/// The 32-bit value whose little-endian encoding is `b0`, `b1`, `b2`, `b3`.
pub open spec fn le32(b0: u8, b1: u8, b2: u8, b3: u8) -> u32 {
    (b0 as u32) | ((b1 as u32) << 8) | ((b2 as u32) << 16) | ((b3 as u32) << 24)
}

/// Byte `i` (0 is the least significant) of a 16-bit value.
pub open spec fn byte16(x: u16, i: u16) -> u8 {
    ((x >> (8 * i) as u16) & 0xff) as u8
}

/// Byte `i` (0 is the least significant) of a 32-bit value.
pub open spec fn byte32(x: u32, i: u32) -> u8 {
    ((x >> (8 * i) as u32) & 0xff) as u8
}

/// A 16-bit value with its two bytes exchanged.
pub open spec fn swap16(x: u16) -> u16 {
    le16(byte16(x, 1), byte16(x, 0))
}

/// A 32-bit value with its four bytes in reverse order.
pub open spec fn swap32(x: u32) -> u32 {
    le32(byte32(x, 3), byte32(x, 2), byte32(x, 1), byte32(x, 0))
}

/// Reading back the bytes of a 16-bit value gives the value.
pub proof fn lemma_le16_of_bytes(x: u16)
    ensures
        le16(byte16(x, 0), byte16(x, 1)) == x,
{
    assert(((((x >> 0u16) & 0xff) as u8) as u16) | (((((x >> 8u16) & 0xff) as u8) as u16) << 8)
        == x) by (bit_vector);
}

/// The bytes of an assembled 16-bit value are the bytes it was made of.
pub proof fn lemma_bytes_of_le16(lo: u8, hi: u8)
    ensures
        byte16(le16(lo, hi), 0) == lo,
        byte16(le16(lo, hi), 1) == hi,
{
    assert(((((lo as u16) | ((hi as u16) << 8)) >> 0u16) & 0xff) as u8 == lo) by (bit_vector);
    assert(((((lo as u16) | ((hi as u16) << 8)) >> 8u16) & 0xff) as u8 == hi) by (bit_vector);
}

/// Reading back the bytes of a 32-bit value gives the value.
pub proof fn lemma_le32_of_bytes(x: u32)
    ensures
        le32(byte32(x, 0), byte32(x, 1), byte32(x, 2), byte32(x, 3)) == x,
{
    assert(((((x >> 0u32) & 0xff) as u8) as u32) | (((((x >> 8u32) & 0xff) as u8) as u32) << 8) | (
    ((((x >> 16u32) & 0xff) as u8) as u32) << 16) | (((((x >> 24u32) & 0xff) as u8) as u32) << 24)
        == x) by (bit_vector);
}

/// The bytes of an assembled 32-bit value are the bytes it was made of.
pub proof fn lemma_bytes_of_le32(b0: u8, b1: u8, b2: u8, b3: u8)
    ensures
        byte32(le32(b0, b1, b2, b3), 0) == b0,
        byte32(le32(b0, b1, b2, b3), 1) == b1,
        byte32(le32(b0, b1, b2, b3), 2) == b2,
        byte32(le32(b0, b1, b2, b3), 3) == b3,
{
    assert(((((b0 as u32) | ((b1 as u32) << 8) | ((b2 as u32) << 16) | ((b3 as u32) << 24))
        >> 0u32) & 0xff) as u8 == b0) by (bit_vector);
    assert(((((b0 as u32) | ((b1 as u32) << 8) | ((b2 as u32) << 16) | ((b3 as u32) << 24))
        >> 8u32) & 0xff) as u8 == b1) by (bit_vector);
    assert(((((b0 as u32) | ((b1 as u32) << 8) | ((b2 as u32) << 16) | ((b3 as u32) << 24))
        >> 16u32) & 0xff) as u8 == b2) by (bit_vector);
    assert(((((b0 as u32) | ((b1 as u32) << 8) | ((b2 as u32) << 16) | ((b3 as u32) << 24))
        >> 24u32) & 0xff) as u8 == b3) by (bit_vector);
}

/// Assembles a 16-bit value from its little-endian bytes.
pub fn u16_from_le(lo: u8, hi: u8) -> (x: u16)
    ensures
        x == le16(lo, hi),
{
    (lo as u16) | ((hi as u16) << 8)
}

/// Assembles a 32-bit value from its little-endian bytes.
pub fn u32_from_le(b0: u8, b1: u8, b2: u8, b3: u8) -> (x: u32)
    ensures
        x == le32(b0, b1, b2, b3),
{
    (b0 as u32) | ((b1 as u32) << 8) | ((b2 as u32) << 16) | ((b3 as u32) << 24)
}

/// Byte `i` of a 16-bit value, counted from the least significant.
pub fn u16_byte(x: u16, i: u16) -> (b: u8)
    requires
        i < 2,
    ensures
        b == byte16(x, i),
{
    assert(((x >> (8 * i) as u16) & 0xff) < 256) by (bit_vector);
    ((x >> (8 * i)) & 0xff) as u8
}

/// Byte `i` of a 32-bit value, counted from the least significant.
pub fn u32_byte(x: u32, i: u32) -> (b: u8)
    requires
        i < 4,
    ensures
        b == byte32(x, i),
{
    assert(((x >> (8 * i) as u32) & 0xff) < 256) by (bit_vector);
    ((x >> (8 * i)) & 0xff) as u8
}

/// Bus framing header: delimits a packet on the SPI bus and carries the
/// transmit credit.
#[derive(Clone, Copy, Debug, PartialEq, Eq)]
pub struct SdpcmHeader {
    /// Length of the whole frame in bytes, this header included.
    pub len: u16,
    /// Bitwise complement of `len`.
    pub len_inv: u16,
    /// Sequence number of the frame.
    pub sequence: u8,
    /// Channel in the low four bits, flags in the high four.
    pub channel_and_flags: u8,
    /// Length of the next data frame.
    pub next_length: u8,
    /// Offset from the start of this header to what follows it.
    pub header_length: u8,
    /// Flow control bits.
    pub wireless_flow_control: u8,
    /// Highest sequence number the chip accepts.
    pub bus_data_credit: u8,
    /// Reserved.
    pub reserved: [u8; 2],
}

impl SdpcmHeader {
    /// Encoded size in bytes.
    pub const SIZE: usize = 12;

    /// The encoding of the header.
    pub open spec fn spec_to_bytes(self) -> Seq<u8> {
        seq![
            byte16(self.len, 0),
            byte16(self.len, 1),
            byte16(self.len_inv, 0),
            byte16(self.len_inv, 1),
            self.sequence,
            self.channel_and_flags,
            self.next_length,
            self.header_length,
            self.wireless_flow_control,
            self.bus_data_credit,
            self.reserved[0],
            self.reserved[1],
        ]
    }

    /// Whether `h` is the header that the first twelve bytes of `s` encode.
    pub open spec fn decodes(s: Seq<u8>, h: SdpcmHeader) -> bool {
        &&& h.len == le16(s[0], s[1])
        &&& h.len_inv == le16(s[2], s[3])
        &&& h.sequence == s[4]
        &&& h.channel_and_flags == s[5]
        &&& h.next_length == s[6]
        &&& h.header_length == s[7]
        &&& h.wireless_flow_control == s[8]
        &&& h.bus_data_credit == s[9]
        &&& h.reserved@ == seq![s[10], s[11]]
    }

    /// Whether the length check word is the complement of the length.
    pub open spec fn spec_len_valid(&self) -> bool {
        self.len_inv == !self.len
    }

    /// Whether the length check word is the complement of the length.
    #[verifier::when_used_as_spec(spec_len_valid)]
    pub fn len_valid(&self) -> (ok: bool)
        ensures
            ok == self.spec_len_valid(),
    {
        self.len_inv == !self.len
    }

    /// The channel number, the low four bits of `channel_and_flags`.
    pub open spec fn spec_channel(&self) -> u8 {
        self.channel_and_flags & 0x0f
    }

    /// The channel number, the low four bits of `channel_and_flags`.
    #[verifier::when_used_as_spec(spec_channel)]
    pub fn channel(&self) -> (c: u8)
        ensures
            c == self.spec_channel(),
    {
        self.channel_and_flags & 0x0f
    }

    /// Encodes the header.
    pub fn to_bytes(&self) -> (bytes: [u8; 12])
        ensures
            bytes@ == self.spec_to_bytes(),
    {
        let bytes: [u8; 12] = [
            u16_byte(self.len, 0),
            u16_byte(self.len, 1),
            u16_byte(self.len_inv, 0),
            u16_byte(self.len_inv, 1),
            self.sequence,
            self.channel_and_flags,
            self.next_length,
            self.header_length,
            self.wireless_flow_control,
            self.bus_data_credit,
            self.reserved[0],
            self.reserved[1],
        ];
        assert(bytes@ =~= self.spec_to_bytes());
        bytes
    }

    /// Decodes a header.
    pub fn from_bytes(bytes: &[u8; 12]) -> (h: SdpcmHeader)
        ensures
            Self::decodes(bytes@, h),
    {
        let reserved: [u8; 2] = [bytes[10], bytes[11]];
        assert(reserved@ =~= seq![bytes@[10], bytes@[11]]);
        SdpcmHeader {
            len: u16_from_le(bytes[0], bytes[1]),
            len_inv: u16_from_le(bytes[2], bytes[3]),
            sequence: bytes[4],
            channel_and_flags: bytes[5],
            next_length: bytes[6],
            header_length: bytes[7],
            wireless_flow_control: bytes[8],
            bus_data_credit: bytes[9],
            reserved,
        }
    }

    /// Decoding an encoded header gives the header back.
    pub proof fn lemma_round_trip(self, decoded: SdpcmHeader)
        requires
            Self::decodes(self.spec_to_bytes(), decoded),
        ensures
            decoded == self,
            self.spec_to_bytes().len() == Self::SIZE,
    {
        lemma_le16_of_bytes(self.len);
        lemma_le16_of_bytes(self.len_inv);
        assert(decoded.reserved =~= self.reserved);
    }

    /// Two headers that the same bytes encode are the same header.
    pub proof fn lemma_decodes_unique(s: Seq<u8>, a: SdpcmHeader, b: SdpcmHeader)
        requires
            Self::decodes(s, a),
            Self::decodes(s, b),
        ensures
            a == b,
    {
        assert(a.reserved =~= b.reserved);
    }
}

/// Data-path header between the bus header and the payload.
#[derive(Clone, Copy, Debug, PartialEq, Eq, Structural)]
pub struct BcdHeader {
    /// Flags; the high four bits hold the protocol version.
    pub flags: u8,
    /// 802.1d priority in the low three bits.
    pub priority: u8,
    /// More flags.
    pub flags2: u8,
    /// Distance from the end of this header to the packet, in 32-bit words.
    pub data_offset: u8,
}

impl BcdHeader {
    /// Encoded size in bytes.
    pub const SIZE: usize = 4;

    /// The encoding of the header.
    pub open spec fn spec_to_bytes(self) -> Seq<u8> {
        seq![self.flags, self.priority, self.flags2, self.data_offset]
    }

    /// The header that the first four bytes of `s` encode.
    pub open spec fn spec_from_bytes(s: Seq<u8>) -> BcdHeader {
        BcdHeader { flags: s[0], priority: s[1], flags2: s[2], data_offset: s[3] }
    }

    /// Encodes the header.
    pub fn to_bytes(&self) -> (bytes: [u8; 4])
        ensures
            bytes@ == self.spec_to_bytes(),
    {
        let bytes: [u8; 4] = [self.flags, self.priority, self.flags2, self.data_offset];
        assert(bytes@ =~= self.spec_to_bytes());
        bytes
    }

    /// Decodes a header.
    pub fn from_bytes(bytes: &[u8; 4]) -> (h: BcdHeader)
        ensures
            h == Self::spec_from_bytes(bytes@),
    {
        BcdHeader {
            flags: bytes[0],
            priority: bytes[1],
            flags2: bytes[2],
            data_offset: bytes[3],
        }
    }

    /// Decoding an encoded header gives the header back.
    pub proof fn lemma_round_trip(self)
        ensures
            Self::spec_from_bytes(self.spec_to_bytes()) == self,
            self.spec_to_bytes().len() == Self::SIZE,
    {
    }
}

/// Control-path header of an IOCTL request or reply.
#[derive(Clone, Copy, Debug, PartialEq, Eq, Structural)]
pub struct CdcHeader {
    /// Command number.
    pub cmd: u32,
    /// Length of the data after the header.
    pub len: u32,
    /// Kind in the low two bits, interface index in bits 12 to 15.
    pub flags: u16,
    /// Identifier that pairs a reply with its request.
    pub id: u16,
    /// Error code of a reply, zero on success.
    pub status: u32,
}

impl CdcHeader {
    /// Encoded size in bytes.
    pub const SIZE: usize = 16;

    /// The encoding of the header.
    pub open spec fn spec_to_bytes(self) -> Seq<u8> {
        seq![
            byte32(self.cmd, 0),
            byte32(self.cmd, 1),
            byte32(self.cmd, 2),
            byte32(self.cmd, 3),
            byte32(self.len, 0),
            byte32(self.len, 1),
            byte32(self.len, 2),
            byte32(self.len, 3),
            byte16(self.flags, 0),
            byte16(self.flags, 1),
            byte16(self.id, 0),
            byte16(self.id, 1),
            byte32(self.status, 0),
            byte32(self.status, 1),
            byte32(self.status, 2),
            byte32(self.status, 3),
        ]
    }

    /// The header that the first sixteen bytes of `s` encode.
    pub open spec fn spec_from_bytes(s: Seq<u8>) -> CdcHeader {
        CdcHeader {
            cmd: le32(s[0], s[1], s[2], s[3]),
            len: le32(s[4], s[5], s[6], s[7]),
            flags: le16(s[8], s[9]),
            id: le16(s[10], s[11]),
            status: le32(s[12], s[13], s[14], s[15]),
        }
    }

    /// Encodes the header.
    pub fn to_bytes(&self) -> (bytes: [u8; 16])
        ensures
            bytes@ == self.spec_to_bytes(),
    {
        let bytes: [u8; 16] = [
            u32_byte(self.cmd, 0),
            u32_byte(self.cmd, 1),
            u32_byte(self.cmd, 2),
            u32_byte(self.cmd, 3),
            u32_byte(self.len, 0),
            u32_byte(self.len, 1),
            u32_byte(self.len, 2),
            u32_byte(self.len, 3),
            u16_byte(self.flags, 0),
            u16_byte(self.flags, 1),
            u16_byte(self.id, 0),
            u16_byte(self.id, 1),
            u32_byte(self.status, 0),
            u32_byte(self.status, 1),
            u32_byte(self.status, 2),
            u32_byte(self.status, 3),
        ];
        assert(bytes@ =~= self.spec_to_bytes());
        bytes
    }

    /// Decodes a header.
    pub fn from_bytes(bytes: &[u8; 16]) -> (h: CdcHeader)
        ensures
            h == Self::spec_from_bytes(bytes@),
    {
        CdcHeader {
            cmd: u32_from_le(bytes[0], bytes[1], bytes[2], bytes[3]),
            len: u32_from_le(bytes[4], bytes[5], bytes[6], bytes[7]),
            flags: u16_from_le(bytes[8], bytes[9]),
            id: u16_from_le(bytes[10], bytes[11]),
            status: u32_from_le(bytes[12], bytes[13], bytes[14], bytes[15]),
        }
    }

    /// Decoding an encoded header gives the header back.
    pub proof fn lemma_round_trip(self)
        ensures
            Self::spec_from_bytes(self.spec_to_bytes()) == self,
            self.spec_to_bytes().len() == Self::SIZE,
    {
        lemma_le32_of_bytes(self.cmd);
        lemma_le32_of_bytes(self.len);
        lemma_le16_of_bytes(self.flags);
        lemma_le16_of_bytes(self.id);
        lemma_le32_of_bytes(self.status);
    }
}

/// Exchanges the two bytes of a 16-bit value.
pub fn u16_swap(x: u16) -> (y: u16)
    ensures
        y == swap16(x),
{
    u16_from_le(u16_byte(x, 1), u16_byte(x, 0))
}

/// Reverses the four bytes of a 32-bit value.
pub fn u32_swap(x: u32) -> (y: u32)
    ensures
        y == swap32(x),
{
    u32_from_le(u32_byte(x, 3), u32_byte(x, 2), u32_byte(x, 1), u32_byte(x, 0))
}

/// Swapping the bytes of a 16-bit value twice gives the value back.
pub proof fn lemma_swap16_twice(x: u16)
    ensures
        swap16(swap16(x)) == x,
{
    lemma_bytes_of_le16(byte16(x, 1), byte16(x, 0));
    lemma_le16_of_bytes(x);
}

/// Swapping the bytes of a 32-bit value twice gives the value back.
pub proof fn lemma_swap32_twice(x: u32)
    ensures
        swap32(swap32(x)) == x,
{
    lemma_bytes_of_le32(byte32(x, 3), byte32(x, 2), byte32(x, 1), byte32(x, 0));
    lemma_le32_of_bytes(x);
}

/// Ethernet header of an event frame.
#[derive(Clone, Copy, Debug, PartialEq, Eq)]
pub struct EthernetHeader {
    pub destination_mac: [u8; 6],
    pub source_mac: [u8; 6],
    pub ether_type: u16,
}

impl EthernetHeader {
    /// Encoded size in bytes.
    pub const SIZE: usize = 14;

    /// The encoding of the header.
    pub open spec fn spec_to_bytes(self) -> Seq<u8> {
        self.destination_mac@ + self.source_mac@ + seq![
            byte16(self.ether_type, 0),
            byte16(self.ether_type, 1),
        ]
    }

    /// Whether `h` is the header that the fourteen bytes of `s` from `at` on
    /// encode.
    pub open spec fn decodes(s: Seq<u8>, at: int, h: EthernetHeader) -> bool {
        &&& h.destination_mac@ == s.subrange(at, at + 6)
        &&& h.source_mac@ == s.subrange(at + 6, at + 12)
        &&& h.ether_type == le16(s[at + 12], s[at + 13])
    }

    /// The header with its numeric field byte-swapped.
    pub open spec fn spec_byteswap(self) -> EthernetHeader {
        EthernetHeader { ether_type: swap16(self.ether_type), ..self }
    }

    /// Swaps the bytes of the numeric field, which the wire carries
    /// big-endian.
    pub fn byteswap(&mut self)
        ensures
            *final(self) == old(self).spec_byteswap(),
    {
        self.ether_type = u16_swap(self.ether_type);
    }
}

/// Vendor header of an event frame.
#[derive(Clone, Copy, Debug, PartialEq, Eq)]
pub struct EventHeader {
    pub subtype: u16,
    pub length: u16,
    pub version: u8,
    pub oui: [u8; 3],
    pub user_subtype: u16,
}

impl EventHeader {
    /// Encoded size in bytes.
    pub const SIZE: usize = 10;

    /// The encoding of the header.
    pub open spec fn spec_to_bytes(self) -> Seq<u8> {
        seq![
            byte16(self.subtype, 0),
            byte16(self.subtype, 1),
            byte16(self.length, 0),
            byte16(self.length, 1),
            self.version,
        ] + self.oui@ + seq![byte16(self.user_subtype, 0), byte16(self.user_subtype, 1)]
    }

    /// Whether `h` is the header that the ten bytes of `s` from `at` on encode.
    pub open spec fn decodes(s: Seq<u8>, at: int, h: EventHeader) -> bool {
        &&& h.subtype == le16(s[at], s[at + 1])
        &&& h.length == le16(s[at + 2], s[at + 3])
        &&& h.version == s[at + 4]
        &&& h.oui@ == s.subrange(at + 5, at + 8)
        &&& h.user_subtype == le16(s[at + 8], s[at + 9])
    }

    /// The header with its numeric fields byte-swapped.
    pub open spec fn spec_byteswap(self) -> EventHeader {
        EventHeader {
            subtype: swap16(self.subtype),
            length: swap16(self.length),
            user_subtype: swap16(self.user_subtype),
            ..self
        }
    }

    /// Swaps the bytes of each numeric field, which the wire carries
    /// big-endian.
    pub fn byteswap(&mut self)
        ensures
            *final(self) == old(self).spec_byteswap(),
    {
        self.subtype = u16_swap(self.subtype);
        self.length = u16_swap(self.length);
        self.user_subtype = u16_swap(self.user_subtype);
    }
}

/// Event message of an event frame.
#[derive(Clone, Copy, Debug, PartialEq, Eq)]
pub struct EventMessage {
    /// Version.
    pub version: u16,
    /// Flags.
    pub flags: u16,
    /// Event type.
    pub event_type: u32,
    /// Status code.
    pub status: u32,
    /// Reason code.
    pub reason: u32,
    /// Authentication type.
    pub auth_type: u32,
    /// Length of the data that follows the message.
    pub datalen: u32,
    /// 802.11 address.
    pub addr: [u8; 6],
    /// Name of the interface the event came in on.
    pub ifname: [u8; 16],
    /// Interface index.
    pub ifidx: u8,
    /// Index of the source BSS configuration.
    pub bsscfg_idx: u8,
}

impl EventMessage {
    /// Encoded size in bytes.
    pub const SIZE: usize = 48;

    /// The encoding of the message.
    pub open spec fn spec_to_bytes(self) -> Seq<u8> {
        seq![
            byte16(self.version, 0),
            byte16(self.version, 1),
            byte16(self.flags, 0),
            byte16(self.flags, 1),
            byte32(self.event_type, 0),
            byte32(self.event_type, 1),
            byte32(self.event_type, 2),
            byte32(self.event_type, 3),
            byte32(self.status, 0),
            byte32(self.status, 1),
            byte32(self.status, 2),
            byte32(self.status, 3),
            byte32(self.reason, 0),
            byte32(self.reason, 1),
            byte32(self.reason, 2),
            byte32(self.reason, 3),
            byte32(self.auth_type, 0),
            byte32(self.auth_type, 1),
            byte32(self.auth_type, 2),
            byte32(self.auth_type, 3),
            byte32(self.datalen, 0),
            byte32(self.datalen, 1),
            byte32(self.datalen, 2),
            byte32(self.datalen, 3),
        ] + self.addr@ + self.ifname@ + seq![self.ifidx, self.bsscfg_idx]
    }

    /// Whether `m` is the message that the 48 bytes of `s` from `at` on
    /// encode.
    pub open spec fn decodes(s: Seq<u8>, at: int, m: EventMessage) -> bool {
        &&& m.version == le16(s[at], s[at + 1])
        &&& m.flags == le16(s[at + 2], s[at + 3])
        &&& m.event_type == le32(s[at + 4], s[at + 5], s[at + 6], s[at + 7])
        &&& m.status == le32(s[at + 8], s[at + 9], s[at + 10], s[at + 11])
        &&& m.reason == le32(s[at + 12], s[at + 13], s[at + 14], s[at + 15])
        &&& m.auth_type == le32(s[at + 16], s[at + 17], s[at + 18], s[at + 19])
        &&& m.datalen == le32(s[at + 20], s[at + 21], s[at + 22], s[at + 23])
        &&& m.addr@ == s.subrange(at + 24, at + 30)
        &&& m.ifname@ == s.subrange(at + 30, at + 46)
        &&& m.ifidx == s[at + 46]
        &&& m.bsscfg_idx == s[at + 47]
    }

    /// The message with its numeric fields byte-swapped.
    pub open spec fn spec_byteswap(self) -> EventMessage {
        EventMessage {
            version: swap16(self.version),
            flags: swap16(self.flags),
            event_type: swap32(self.event_type),
            status: swap32(self.status),
            reason: swap32(self.reason),
            auth_type: swap32(self.auth_type),
            datalen: swap32(self.datalen),
            ..self
        }
    }

    /// Swaps the bytes of each numeric field, which the wire carries
    /// big-endian.
    pub fn byteswap(&mut self)
        ensures
            *final(self) == old(self).spec_byteswap(),
    {
        self.version = u16_swap(self.version);
        self.flags = u16_swap(self.flags);
        self.event_type = u32_swap(self.event_type);
        self.status = u32_swap(self.status);
        self.reason = u32_swap(self.reason);
        self.auth_type = u32_swap(self.auth_type);
        self.datalen = u32_swap(self.datalen);
    }
}

/// An event frame: Ethernet header, vendor header and event message.
#[derive(Clone, Copy, Debug, PartialEq, Eq)]
pub struct EventPacket {
    pub eth: EthernetHeader,
    pub hdr: EventHeader,
    pub msg: EventMessage,
}

impl EventPacket {
    /// Encoded size in bytes.
    pub const SIZE: usize = 72;

    /// The encoding of the packet: its three parts one after the other.
    pub open spec fn spec_to_bytes(self) -> Seq<u8> {
        self.eth.spec_to_bytes() + self.hdr.spec_to_bytes() + self.msg.spec_to_bytes()
    }

    /// Whether `p` is the packet that the first 72 bytes of `s` encode.
    pub open spec fn decodes(s: Seq<u8>, p: EventPacket) -> bool {
        &&& EthernetHeader::decodes(s, 0, p.eth)
        &&& EventHeader::decodes(s, 14, p.hdr)
        &&& EventMessage::decodes(s, 24, p.msg)
    }

    /// The packet with the numeric fields of each part byte-swapped.
    pub open spec fn spec_byteswap(self) -> EventPacket {
        EventPacket {
            eth: self.eth.spec_byteswap(),
            hdr: self.hdr.spec_byteswap(),
            msg: self.msg.spec_byteswap(),
        }
    }

    /// Encodes the packet.
    pub fn to_bytes(&self) -> (bytes: [u8; 72])
        ensures
            bytes@ == self.spec_to_bytes(),
    {
        let bytes: [u8; 72] = [
            self.eth.destination_mac[0],
            self.eth.destination_mac[1],
            self.eth.destination_mac[2],
            self.eth.destination_mac[3],
            self.eth.destination_mac[4],
            self.eth.destination_mac[5],
            self.eth.source_mac[0],
            self.eth.source_mac[1],
            self.eth.source_mac[2],
            self.eth.source_mac[3],
            self.eth.source_mac[4],
            self.eth.source_mac[5],
            u16_byte(self.eth.ether_type, 0),
            u16_byte(self.eth.ether_type, 1),
            u16_byte(self.hdr.subtype, 0),
            u16_byte(self.hdr.subtype, 1),
            u16_byte(self.hdr.length, 0),
            u16_byte(self.hdr.length, 1),
            self.hdr.version,
            self.hdr.oui[0],
            self.hdr.oui[1],
            self.hdr.oui[2],
            u16_byte(self.hdr.user_subtype, 0),
            u16_byte(self.hdr.user_subtype, 1),
            u16_byte(self.msg.version, 0),
            u16_byte(self.msg.version, 1),
            u16_byte(self.msg.flags, 0),
            u16_byte(self.msg.flags, 1),
            u32_byte(self.msg.event_type, 0),
            u32_byte(self.msg.event_type, 1),
            u32_byte(self.msg.event_type, 2),
            u32_byte(self.msg.event_type, 3),
            u32_byte(self.msg.status, 0),
            u32_byte(self.msg.status, 1),
            u32_byte(self.msg.status, 2),
            u32_byte(self.msg.status, 3),
            u32_byte(self.msg.reason, 0),
            u32_byte(self.msg.reason, 1),
            u32_byte(self.msg.reason, 2),
            u32_byte(self.msg.reason, 3),
            u32_byte(self.msg.auth_type, 0),
            u32_byte(self.msg.auth_type, 1),
            u32_byte(self.msg.auth_type, 2),
            u32_byte(self.msg.auth_type, 3),
            u32_byte(self.msg.datalen, 0),
            u32_byte(self.msg.datalen, 1),
            u32_byte(self.msg.datalen, 2),
            u32_byte(self.msg.datalen, 3),
            self.msg.addr[0],
            self.msg.addr[1],
            self.msg.addr[2],
            self.msg.addr[3],
            self.msg.addr[4],
            self.msg.addr[5],
            self.msg.ifname[0],
            self.msg.ifname[1],
            self.msg.ifname[2],
            self.msg.ifname[3],
            self.msg.ifname[4],
            self.msg.ifname[5],
            self.msg.ifname[6],
            self.msg.ifname[7],
            self.msg.ifname[8],
            self.msg.ifname[9],
            self.msg.ifname[10],
            self.msg.ifname[11],
            self.msg.ifname[12],
            self.msg.ifname[13],
            self.msg.ifname[14],
            self.msg.ifname[15],
            self.msg.ifidx,
            self.msg.bsscfg_idx,
        ];
        assert(bytes@ =~= self.spec_to_bytes());
        bytes
    }

    /// Decodes a packet, reading every numeric field little-endian.
    pub fn from_bytes(bytes: &[u8; 72]) -> (p: EventPacket)
        ensures
            Self::decodes(bytes@, p),
    {
        let destination_mac: [u8; 6] = [bytes[0], bytes[1], bytes[2], bytes[3], bytes[4], bytes[5]];
        let source_mac: [u8; 6] = [bytes[6], bytes[7], bytes[8], bytes[9], bytes[10], bytes[11]];
        let oui: [u8; 3] = [bytes[19], bytes[20], bytes[21]];
        let addr: [u8; 6] = [bytes[48], bytes[49], bytes[50], bytes[51], bytes[52], bytes[53]];
        let ifname: [u8; 16] = [bytes[54], bytes[55], bytes[56], bytes[57], bytes[58], bytes[59], bytes[60], bytes[61], bytes[62], bytes[63], bytes[64], bytes[65], bytes[66], bytes[67], bytes[68], bytes[69]];
        assert(destination_mac@ =~= bytes@.subrange(0, 6));
        assert(source_mac@ =~= bytes@.subrange(6, 12));
        assert(oui@ =~= bytes@.subrange(19, 22));
        assert(addr@ =~= bytes@.subrange(48, 54));
        assert(ifname@ =~= bytes@.subrange(54, 70));
        EventPacket {
            eth: EthernetHeader {
                destination_mac,
                source_mac,
                ether_type: u16_from_le(bytes[12], bytes[13]),
            },
            hdr: EventHeader {
                subtype: u16_from_le(bytes[14], bytes[15]),
                length: u16_from_le(bytes[16], bytes[17]),
                version: bytes[18],
                oui,
                user_subtype: u16_from_le(bytes[22], bytes[23]),
            },
            msg: EventMessage {
                version: u16_from_le(bytes[24], bytes[25]),
                flags: u16_from_le(bytes[26], bytes[27]),
                event_type: u32_from_le(bytes[28], bytes[29], bytes[30], bytes[31]),
                status: u32_from_le(bytes[32], bytes[33], bytes[34], bytes[35]),
                reason: u32_from_le(bytes[36], bytes[37], bytes[38], bytes[39]),
                auth_type: u32_from_le(bytes[40], bytes[41], bytes[42], bytes[43]),
                datalen: u32_from_le(bytes[44], bytes[45], bytes[46], bytes[47]),
                addr,
                ifname,
                ifidx: bytes[70],
                bsscfg_idx: bytes[71],
            },
        }
    }

    /// Swaps the bytes of each numeric field, which the wire carries
    /// big-endian.
    pub fn byteswap(&mut self)
        ensures
            *final(self) == old(self).spec_byteswap(),
    {
        self.eth.byteswap();
        self.hdr.byteswap();
        self.msg.byteswap();
    }

    /// Decoding an encoded packet gives the packet back.
    pub proof fn lemma_round_trip(self, decoded: EventPacket)
        requires
            Self::decodes(self.spec_to_bytes(), decoded),
        ensures
            decoded == self,
            self.spec_to_bytes().len() == Self::SIZE,
    {
        let s = self.spec_to_bytes();
        lemma_le16_of_bytes(self.eth.ether_type);
        lemma_le16_of_bytes(self.hdr.subtype);
        lemma_le16_of_bytes(self.hdr.length);
        lemma_le16_of_bytes(self.hdr.user_subtype);
        lemma_le16_of_bytes(self.msg.version);
        lemma_le16_of_bytes(self.msg.flags);
        lemma_le32_of_bytes(self.msg.event_type);
        lemma_le32_of_bytes(self.msg.status);
        lemma_le32_of_bytes(self.msg.reason);
        lemma_le32_of_bytes(self.msg.auth_type);
        lemma_le32_of_bytes(self.msg.datalen);
        assert(s.subrange(0, 6) =~= self.eth.destination_mac@);
        assert(s.subrange(6, 12) =~= self.eth.source_mac@);
        assert(s.subrange(19, 22) =~= self.hdr.oui@);
        assert(s.subrange(48, 54) =~= self.msg.addr@);
        assert(s.subrange(54, 70) =~= self.msg.ifname@);
        assert(decoded.eth.destination_mac =~= self.eth.destination_mac);
        assert(decoded.eth.source_mac =~= self.eth.source_mac);
        assert(decoded.hdr.oui =~= self.hdr.oui);
        assert(decoded.msg.addr =~= self.msg.addr);
        assert(decoded.msg.ifname =~= self.msg.ifname);
    }

    /// Swapping the bytes twice gives the packet back.
    pub proof fn lemma_byteswap_twice(self)
        ensures
            self.spec_byteswap().spec_byteswap() == self,
    {
        lemma_swap16_twice(self.eth.ether_type);
        lemma_swap16_twice(self.hdr.subtype);
        lemma_swap16_twice(self.hdr.length);
        lemma_swap16_twice(self.hdr.user_subtype);
        lemma_swap16_twice(self.msg.version);
        lemma_swap16_twice(self.msg.flags);
        lemma_swap32_twice(self.msg.event_type);
        lemma_swap32_twice(self.msg.status);
        lemma_swap32_twice(self.msg.reason);
        lemma_swap32_twice(self.msg.auth_type);
        lemma_swap32_twice(self.msg.datalen);
    }
}

/// The 32-bit value that four bytes of `s` from `at` on encode.
pub open spec fn le32_at(s: Seq<u8>, at: int) -> u32 {
    le32(s[at], s[at + 1], s[at + 2], s[at + 3])
}

/// Descriptor that the firmware leaves at the top of its RAM.
#[derive(Clone, Copy, Debug, PartialEq, Eq, Structural)]
pub struct SharedMemData {
    pub flags: u32,
    pub trap_addr: u32,
    pub assert_exp_addr: u32,
    pub assert_file_addr: u32,
    pub assert_line: u32,
    /// Address of the console structure.
    pub console_addr: u32,
    pub msgtrace_addr: u32,
    pub fwid: u32,
}

impl SharedMemData {
    /// Encoded size in bytes.
    pub const SIZE: usize = 32;

    /// The descriptor that the first 32 bytes of `s` encode.
    pub open spec fn spec_from_bytes(s: Seq<u8>) -> SharedMemData {
        SharedMemData {
            flags: le32_at(s, 0),
            trap_addr: le32_at(s, 4),
            assert_exp_addr: le32_at(s, 8),
            assert_file_addr: le32_at(s, 12),
            assert_line: le32_at(s, 16),
            console_addr: le32_at(s, 20),
            msgtrace_addr: le32_at(s, 24),
            fwid: le32_at(s, 28),
        }
    }

    /// Decodes a descriptor.
    pub fn from_bytes(bytes: &[u8; 32]) -> (d: SharedMemData)
        ensures
            d == Self::spec_from_bytes(bytes@),
    {
        SharedMemData {
            flags: u32_from_le(bytes[0], bytes[1], bytes[2], bytes[3]),
            trap_addr: u32_from_le(bytes[4], bytes[5], bytes[6], bytes[7]),
            assert_exp_addr: u32_from_le(bytes[8], bytes[9], bytes[10], bytes[11]),
            assert_file_addr: u32_from_le(bytes[12], bytes[13], bytes[14], bytes[15]),
            assert_line: u32_from_le(bytes[16], bytes[17], bytes[18], bytes[19]),
            console_addr: u32_from_le(bytes[20], bytes[21], bytes[22], bytes[23]),
            msgtrace_addr: u32_from_le(bytes[24], bytes[25], bytes[26], bytes[27]),
            fwid: u32_from_le(bytes[28], bytes[29], bytes[30], bytes[31]),
        }
    }
}

/// Header of the firmware's log ring.
#[derive(Clone, Copy, Debug, PartialEq, Eq, Structural)]
pub struct SharedMemLog {
    /// Address of the ring.
    pub buf: u32,
    /// Size of the ring in bytes.
    pub buf_size: u32,
    /// Position the firmware writes next.
    pub idx: u32,
    pub out_idx: u32,
}

impl SharedMemLog {
    /// Encoded size in bytes.
    pub const SIZE: usize = 16;

    /// The header that the first 16 bytes of `s` encode.
    pub open spec fn spec_from_bytes(s: Seq<u8>) -> SharedMemLog {
        SharedMemLog {
            buf: le32_at(s, 0),
            buf_size: le32_at(s, 4),
            idx: le32_at(s, 8),
            out_idx: le32_at(s, 12),
        }
    }

    /// Decodes a header.
    pub fn from_bytes(bytes: &[u8; 16]) -> (l: SharedMemLog)
        ensures
            l == Self::spec_from_bytes(bytes@),
    {
        SharedMemLog {
            buf: u32_from_le(bytes[0], bytes[1], bytes[2], bytes[3]),
            buf_size: u32_from_le(bytes[4], bytes[5], bytes[6], bytes[7]),
            idx: u32_from_le(bytes[8], bytes[9], bytes[10], bytes[11]),
            out_idx: u32_from_le(bytes[12], bytes[13], bytes[14], bytes[15]),
        }
    }
}

/// The 16-bit value that two bytes of `s` from `at` on encode big-endian.
pub open spec fn be16_at(s: Seq<u8>, at: int) -> u16 {
    le16(s[at + 1], s[at])
}

/// The 32-bit value that four bytes of `s` from `at` on encode big-endian.
pub open spec fn be32_at(s: Seq<u8>, at: int) -> u32 {
    le32(s[at + 3], s[at + 2], s[at + 1], s[at])
}

/// Swapping a value read little-endian gives the value read big-endian.
pub proof fn lemma_swap_le16(lo: u8, hi: u8)
    ensures
        swap16(le16(lo, hi)) == le16(hi, lo),
{
    lemma_bytes_of_le16(lo, hi);
}

/// Swapping a value read little-endian gives the value read big-endian.
pub proof fn lemma_swap_le32(b0: u8, b1: u8, b2: u8, b3: u8)
    ensures
        swap32(le32(b0, b1, b2, b3)) == le32(b3, b2, b1, b0),
{
    lemma_bytes_of_le32(b0, b1, b2, b3);
}

} // verus!
