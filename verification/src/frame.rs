//! Frame codec: the three header layers around a serialized payload.
//!
//! An outbound frame is a bus-transport header (4 bytes), a
//! message-transport header (5 bytes), an application header (2 bytes) and
//! the payload, which opens with the 2-byte big-endian command code.

use crate::error::{ExchangeError, ProtocolFault};
use vstd::prelude::*;

verus! {

/// Size of the bus-transport header.
pub const SMBUS_HEADER_SZ: usize = 4;

/// Offset of the length byte inside the bus-transport header.
pub const SMBUS_LEN_IDX: usize = 2;

/// Offset of the message-transport flags byte inside a packet.
pub const MCTP_FLAGS_IDX: usize = 6;

/// Size of the message-transport header.
pub const MCTP_HEADER_SZ: usize = 5;

/// Size of the application header, without the 2-byte command code.
pub const ODP_HEADER_SZ: usize = 2;

/// Size of the three header layers together.
pub const HEADER_SZ: usize = SMBUS_HEADER_SZ + MCTP_HEADER_SZ + ODP_HEADER_SZ;

/// Size of the command code that opens the payload of a first packet.
pub const CMD_CODE_SZ: usize = 2;

/// Capacity of the frame buffer and of the response buffer.
pub const BUFFER_SZ: usize = 256;

/// Largest value the length byte of an inbound packet may hold.
pub const MCTP_MAX_PACKET_LEN: usize = 69;

/// Flag bit that marks the first packet of a message.
pub const FLAG_SOM: u8 = 0x80;

/// Flag bit that marks the last packet of a message.
pub const FLAG_EOM: u8 = 0x40;

/// The service a frame is addressed to.
#[derive(Clone, Copy, Debug, PartialEq, Eq, Structural)]
pub enum Destination {
    Battery,
    Thermal,
    TimeAlarm,
}

impl Destination {
    /// The one-byte wire address of the service.
    pub open spec fn address(self) -> u8 {
        match self {
            Destination::Battery => 0x08,
            Destination::Thermal => 0x09,
            Destination::TimeAlarm => 0x0B,
        }
    }
}

impl From<Destination> for u8 {
    fn from(dst: Destination) -> (byte: u8) {
        match dst {
            Destination::Battery => 0x08,
            Destination::Thermal => 0x09,
            Destination::TimeAlarm => 0x0B,
        }
    }
}

impl vstd::std_specs::convert::FromSpecImpl<Destination> for u8 {
    open spec fn obeys_from_spec() -> bool {
        true
    }

    open spec fn from_spec(dst: Destination) -> u8 {
        dst.address()
    }
}

/// The eleven header bytes of a frame for `dst` whose payload holds
/// `payload_sz` bytes.
pub open spec fn header_bytes(dst: Destination, payload_sz: nat) -> Seq<u8> {
    seq![
        0x02u8,
        0x0Fu8,
        (MCTP_HEADER_SZ + ODP_HEADER_SZ + payload_sz) as u8,
        0x01u8,
        0x01u8,
        dst.address(),
        0x80u8,
        0xD3u8,
        0x7Du8,
        0x02u8,
        dst.address(),
    ]
}

/// Writes the three header layers into the first eleven bytes of `buffer`
/// and leaves the rest of it as it was.
pub fn prepend_headers(buffer: &mut [u8], dst: Destination, payload_sz: usize)
    requires
        old(buffer)@.len() >= HEADER_SZ,
        MCTP_HEADER_SZ + ODP_HEADER_SZ + payload_sz <= u8::MAX,
    ensures
        final(buffer)@.len() == old(buffer)@.len(),
        final(buffer)@.subrange(0, HEADER_SZ as int) == header_bytes(dst, payload_sz as nat),
        final(buffer)@.subrange(HEADER_SZ as int, old(buffer)@.len() as int) == old(buffer)@.subrange(
            HEADER_SZ as int,
            old(buffer)@.len() as int,
        ),
{
    // SMBUS
    buffer[0] = 0x2;
    buffer[1] = 0xF;
    buffer[2] = (MCTP_HEADER_SZ + ODP_HEADER_SZ + payload_sz) as u8;
    buffer[3] = 0x1;

    // MCTP
    buffer[4] = 0x1;
    buffer[5] = dst.into();
    buffer[6] = 0x80;
    buffer[7] = 0xD3;
    buffer[8] = 0x7D;

    // ODP
    buffer[9] = 1 << 1;
    buffer[10] = dst.into();

    proof {
        assert(1u8 << 1 == 2u8) by (bit_vector);
        assert(buffer@.subrange(0, HEADER_SZ as int) =~= header_bytes(dst, payload_sz as nat));
        assert(buffer@.subrange(HEADER_SZ as int, buffer@.len() as int) =~= old(buffer)@.subrange(
            HEADER_SZ as int,
            buffer@.len() as int,
        ));
    }
}

/// The value of two bytes read as a big-endian 16-bit integer.
pub open spec fn be_u16(hi: u8, lo: u8) -> u16 {
    (hi * 256 + lo) as u16
}

/// The two bytes of a 16-bit integer, most significant first.
pub open spec fn be_bytes(x: u16) -> Seq<u8> {
    seq![(x / 256) as u8, (x % 256) as u8]
}

/// The payload region of a first packet: the command code, then the
/// serialized message.
pub open spec fn command_payload(cmd_code: u16, message: Seq<u8>) -> Seq<u8> {
    be_bytes(cmd_code) + message
}

/// A whole frame: the headers for `dst`, then the payload.
pub open spec fn frame_bytes(dst: Destination, payload: Seq<u8>) -> Seq<u8> {
    header_bytes(dst, payload.len()) + payload
}

/// `buffer` with `payload` laid over it from the end of the headers on.
pub open spec fn with_payload(buffer: Seq<u8>, payload: Seq<u8>) -> Seq<u8> {
    buffer.subrange(0, HEADER_SZ as int) + payload + buffer.subrange(
        HEADER_SZ + payload.len(),
        buffer.len() as int,
    )
}

/// Reading back what `be_bytes` wrote gives the integer again.
pub proof fn lemma_be_round_trip(x: u16)
    ensures
        be_bytes(x).len() == 2,
        be_u16(be_bytes(x)[0], be_bytes(x)[1]) == x,
{
}

/// Reads two bytes as a big-endian 16-bit integer.
pub fn u16_from_be(hi: u8, lo: u8) -> (x: u16)
    ensures
        x == be_u16(hi, lo),
{
    (hi as u16) * 256 + (lo as u16)
}

/// Writes the command code and the serialized message behind the header
/// region of `to` and returns how many bytes that took. Nothing is written
/// when they do not fit.
pub fn append_cmd(to: &mut [u8], message: &[u8], cmd_code: u16) -> (r: Result<
    usize,
    ExchangeError,
>)
    ensures
        final(to)@.len() == old(to)@.len(),
        r is Ok <==> HEADER_SZ + CMD_CODE_SZ + message@.len() <= old(to)@.len(),
        r is Err ==> r == Err::<usize, ExchangeError>(ExchangeError::Serialization) && final(to)@
            == old(to)@,
        r matches Ok(n) ==> n == CMD_CODE_SZ + message@.len() && final(to)@ == with_payload(
            old(to)@,
            command_payload(cmd_code, message@),
        ),
{
    let n = message.len();
    let capacity = to.len();
    if capacity < HEADER_SZ + CMD_CODE_SZ || capacity - (HEADER_SZ + CMD_CODE_SZ) < n {
        return Err(ExchangeError::Serialization);
    }
    to[HEADER_SZ] = (cmd_code / 256) as u8;
    to[HEADER_SZ + 1] = (cmd_code % 256) as u8;
    let ghost payload = command_payload(cmd_code, message@);
    let mut i: usize = 0;
    while i < n
        invariant
            n == message@.len(),
            i <= n,
            HEADER_SZ + CMD_CODE_SZ + n <= capacity,
            to@.len() == capacity == old(to)@.len(),
            payload == command_payload(cmd_code, message@),
            forall|k: int| 0 <= k < HEADER_SZ ==> to@[k] == old(to)@[k],
            forall|k: int| 0 <= k < CMD_CODE_SZ + i ==> to@[HEADER_SZ + k] == payload[k],
            forall|k: int|
                HEADER_SZ + CMD_CODE_SZ + i <= k < to@.len() ==> to@[k] == old(to)@[k],
        decreases n - i,
    {
        to[HEADER_SZ + CMD_CODE_SZ + i] = message[i];
        i += 1;
    }
    proof {
        assert(to@ =~= with_payload(old(to)@, payload));
    }
    Ok(n + CMD_CODE_SZ)
}

/// Builds the frame that carries `payload` to `dst`. Fails exactly when the
/// frame would exceed the buffer capacity.
pub fn encode(dst: Destination, payload: &[u8]) -> (r: Result<Vec<u8>, ExchangeError>)
    ensures
        r is Ok <==> HEADER_SZ + payload@.len() <= BUFFER_SZ,
        r matches Ok(frame) ==> frame@ == frame_bytes(dst, payload@),
        r matches Err(e) ==> e == ExchangeError::Serialization,
{
    if payload.len() > BUFFER_SZ - HEADER_SZ {
        return Err(ExchangeError::Serialization);
    }
    let mut frame: Vec<u8> = vec![0u8; HEADER_SZ];
    prepend_headers(frame.as_mut_slice(), dst, payload.len());
    let ghost headers = frame@;
    frame.extend_from_slice(payload);
    proof {
        assert(headers =~= header_bytes(dst, payload@.len()));
        assert(frame@ =~= frame_bytes(dst, payload@));
    }
    Ok(frame)
}

/// Builds the frame of one request: the headers for `dst`, the command code
/// and the serialized message. Fails exactly when the frame would exceed the
/// buffer capacity.
pub fn encode_command(dst: Destination, cmd_code: u16, message: &[u8]) -> (r: Result<
    Vec<u8>,
    ExchangeError,
>)
    ensures
        r is Ok <==> HEADER_SZ + CMD_CODE_SZ + message@.len() <= BUFFER_SZ,
        r matches Ok(frame) ==> frame@ == frame_bytes(dst, command_payload(cmd_code, message@)),
        r matches Err(e) ==> e == ExchangeError::Serialization,
{
    let mut buffer: Vec<u8> = vec![0u8; BUFFER_SZ];

    // Serialize command into buffer
    let request_sz = match append_cmd(buffer.as_mut_slice(), message, cmd_code) {
        Ok(n) => n,
        Err(e) => {
            return Err(e);
        },
    };
    let ghost with_cmd = buffer@;

    // And now that we know request size, serialize headers into beginning of buffer
    prepend_headers(buffer.as_mut_slice(), dst, request_sz);
    buffer.truncate(HEADER_SZ + request_sz);
    proof {
        let payload = command_payload(cmd_code, message@);
        assert(buffer@ =~= frame_bytes(dst, payload)) by {
            assert forall|k: int| 0 <= k < buffer@.len() implies buffer@[k] == frame_bytes(
                dst,
                payload,
            )[k] by {
                if k < HEADER_SZ {
                    assert(buffer@[k] == header_bytes(dst, request_sz as nat)[k]);
                } else {
                    assert(buffer@[k] == with_cmd.subrange(
                        HEADER_SZ as int,
                        with_cmd.len() as int,
                    )[k - HEADER_SZ]);
                }
            }
        }
    }
    Ok(buffer)
}

/// What the headers of one inbound packet say.
#[derive(Clone, Copy, Debug, PartialEq, Eq)]
pub struct PacketHeader {
    /// The message-transport flags byte.
    pub flags: u8,
    /// The command code, present on a first packet only.
    pub cmd_code: Option<u16>,
    /// Offset of the first payload byte inside the packet.
    pub payload_start: usize,
    /// Offset one past the last payload byte: the size of the packet.
    pub payload_end: usize,
}

/// Whether a flags byte marks the first packet of a message.
pub open spec fn has_som(flags: u8) -> bool {
    flags & FLAG_SOM != 0
}

/// Whether a flags byte marks the last packet of a message.
pub open spec fn has_eom(flags: u8) -> bool {
    flags & FLAG_EOM != 0
}

impl PacketHeader {
    /// Whether the packet opens a message.
    pub fn is_first(&self) -> (b: bool)
        ensures
            b == has_som(self.flags),
    {
        self.flags & FLAG_SOM != 0
    }

    /// Whether the packet closes a message.
    pub fn is_last(&self) -> (b: bool)
        ensures
            b == has_eom(self.flags),
    {
        self.flags & FLAG_EOM != 0
    }
}

/// Whether a length byte lies in the accepted range.
pub open spec fn length_in_bounds(len: u8) -> bool {
    MCTP_HEADER_SZ <= len <= MCTP_MAX_PACKET_LEN
}

/// The number of bytes that follow a bus-transport header, or why the
/// header is refused.
pub open spec fn packet_length(bus_header: Seq<u8>) -> Result<usize, ExchangeError> {
    if bus_header.len() != SMBUS_HEADER_SZ {
        Err(ExchangeError::Protocol(ProtocolFault::PacketSizeMismatch))
    } else if !length_in_bounds(bus_header[SMBUS_LEN_IDX as int]) {
        Err(
            ExchangeError::Protocol(
                ProtocolFault::InvalidPacketLength(bus_header[SMBUS_LEN_IDX as int]),
            ),
        )
    } else {
        Ok(bus_header[SMBUS_LEN_IDX as int] as usize)
    }
}

/// What the headers of a whole packet say, or why the packet is refused.
pub open spec fn parse_packet(raw: Seq<u8>) -> Result<PacketHeader, ExchangeError> {
    if raw.len() < SMBUS_HEADER_SZ {
        Err(ExchangeError::Protocol(ProtocolFault::PacketSizeMismatch))
    } else {
        let len = raw[SMBUS_LEN_IDX as int];
        if !length_in_bounds(len) {
            Err(ExchangeError::Protocol(ProtocolFault::InvalidPacketLength(len)))
        } else if raw.len() != SMBUS_HEADER_SZ + len {
            Err(ExchangeError::Protocol(ProtocolFault::PacketSizeMismatch))
        } else {
            let flags = raw[MCTP_FLAGS_IDX as int];
            if has_som(flags) {
                if len < MCTP_HEADER_SZ + ODP_HEADER_SZ + CMD_CODE_SZ {
                    Err(ExchangeError::Protocol(ProtocolFault::FirstPacketTooShort(len)))
                } else {
                    Ok(
                        PacketHeader {
                            flags,
                            cmd_code: Some(
                                be_u16(raw[HEADER_SZ as int], raw[HEADER_SZ as int + 1]),
                            ),
                            payload_start: (HEADER_SZ + CMD_CODE_SZ) as usize,
                            payload_end: (SMBUS_HEADER_SZ + len) as usize,
                        },
                    )
                }
            } else {
                Ok(
                    PacketHeader {
                        flags,
                        cmd_code: None,
                        payload_start: (SMBUS_HEADER_SZ + MCTP_HEADER_SZ) as usize,
                        payload_end: (SMBUS_HEADER_SZ + len) as usize,
                    },
                )
            }
        }
    }
}

/// The payload fragment that a packet carries; empty where the packet is
/// refused.
pub open spec fn packet_payload(raw: Seq<u8>) -> Seq<u8> {
    match parse_packet(raw) {
        Ok(header) => raw.subrange(header.payload_start as int, header.payload_end as int),
        Err(_) => Seq::empty(),
    }
}

/// Checks the four bytes of a bus-transport header and returns how many
/// bytes of the packet are still to be read.
pub fn read_packet_length(bus_header: &[u8]) -> (r: Result<usize, ExchangeError>)
    ensures
        r == packet_length(bus_header@),
{
    if bus_header.len() != SMBUS_HEADER_SZ {
        return Err(ExchangeError::Protocol(ProtocolFault::PacketSizeMismatch));
    }
    // Get the length of the response and do a sanity check on it
    let len = bus_header[SMBUS_LEN_IDX];
    if (len as usize) < MCTP_HEADER_SZ || (len as usize) > MCTP_MAX_PACKET_LEN {
        return Err(ExchangeError::Protocol(ProtocolFault::InvalidPacketLength(len)));
    }
    Ok(len as usize)
}

/// Parses the headers of one whole inbound packet: checks the length byte,
/// reads the flags, and locates the payload. On a first packet the command
/// code is read and the payload starts behind it; on a continuation packet
/// the payload starts right behind the message-transport header.
pub fn parse_packet_header(raw_packet: &[u8]) -> (r: Result<PacketHeader, ExchangeError>)
    ensures
        r == parse_packet(raw_packet@),
        r matches Ok(header) ==> header.payload_start <= header.payload_end
            == raw_packet@.len(),
{
    if raw_packet.len() < SMBUS_HEADER_SZ {
        return Err(ExchangeError::Protocol(ProtocolFault::PacketSizeMismatch));
    }
    let len = raw_packet[SMBUS_LEN_IDX];
    if (len as usize) < MCTP_HEADER_SZ || (len as usize) > MCTP_MAX_PACKET_LEN {
        return Err(ExchangeError::Protocol(ProtocolFault::InvalidPacketLength(len)));
    }
    if raw_packet.len() != SMBUS_HEADER_SZ + len as usize {
        return Err(ExchangeError::Protocol(ProtocolFault::PacketSizeMismatch));
    }
    let flags = raw_packet[MCTP_FLAGS_IDX];

    // A first packet carries the application header and the command code
    if flags & FLAG_SOM != 0 {
        if (len as usize) < MCTP_HEADER_SZ + ODP_HEADER_SZ + CMD_CODE_SZ {
            return Err(ExchangeError::Protocol(ProtocolFault::FirstPacketTooShort(len)));
        }
        let cmd_code = u16_from_be(raw_packet[HEADER_SZ], raw_packet[HEADER_SZ + 1]);
        Ok(
            PacketHeader {
                flags,
                cmd_code: Some(cmd_code),
                payload_start: HEADER_SZ + CMD_CODE_SZ,
                payload_end: SMBUS_HEADER_SZ + len as usize,
            },
        )
    } else {
        Ok(
            PacketHeader {
                flags,
                cmd_code: None,
                payload_start: SMBUS_HEADER_SZ + MCTP_HEADER_SZ,
                payload_end: SMBUS_HEADER_SZ + len as usize,
            },
        )
    }
}

/// What the encoder writes, the parser reads: a request frame short enough
/// for one packet parses as a first packet that carries the same command
/// code and the same message.
pub proof fn lemma_frame_round_trip(dst: Destination, cmd_code: u16, message: Seq<u8>)
    requires
        MCTP_HEADER_SZ + ODP_HEADER_SZ + CMD_CODE_SZ + message.len() <= MCTP_MAX_PACKET_LEN,
    ensures
        parse_packet(frame_bytes(dst, command_payload(cmd_code, message))) == Ok::<
            PacketHeader,
            ExchangeError,
        >(
            PacketHeader {
                flags: FLAG_SOM,
                cmd_code: Some(cmd_code),
                payload_start: (HEADER_SZ + CMD_CODE_SZ) as usize,
                payload_end: (HEADER_SZ + CMD_CODE_SZ + message.len()) as usize,
            },
        ),
        packet_payload(frame_bytes(dst, command_payload(cmd_code, message))) == message,
{
    let payload = command_payload(cmd_code, message);
    let frame = frame_bytes(dst, payload);
    assert(has_som(FLAG_SOM)) by (bit_vector);
    lemma_be_round_trip(cmd_code);
    assert(frame[SMBUS_LEN_IDX as int] == MCTP_HEADER_SZ + ODP_HEADER_SZ + payload.len());
    assert(frame[MCTP_FLAGS_IDX as int] == FLAG_SOM);
    assert(frame[HEADER_SZ as int] == be_bytes(cmd_code)[0]);
    assert(frame[HEADER_SZ as int + 1] == be_bytes(cmd_code)[1]);
    assert(frame.subrange((HEADER_SZ + CMD_CODE_SZ) as int, frame.len() as int) =~= message);
}

} // verus!
