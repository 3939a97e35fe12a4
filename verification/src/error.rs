//! Failure classification of an exchange.

use vstd::prelude::*;

verus! {

/// What is wrong with the shape of an inbound packet or of the response.
#[derive(Clone, Copy, Debug, PartialEq, Eq, Structural)]
pub enum ProtocolFault {
    /// The bytes handed over are not one whole packet: fewer than the four
    /// bus-transport header bytes, or a size other than the one the length
    /// byte announces.
    PacketSizeMismatch,
    /// The length byte, carried here, lies outside `[5, 69]`.
    InvalidPacketLength(u8),
    /// A first packet whose length byte, carried here, leaves no room for
    /// the application header and the command code.
    FirstPacketTooShort(u8),
    /// The reassembled response would exceed the buffer capacity.
    ResponseTooLarge,
}

/// Why an exchange did not deliver a response.
#[derive(Clone, Copy, Debug, PartialEq, Eq, Structural)]
pub enum ExchangeError {
    /// The channel could not be opened or configured.
    Configuration,
    /// The request could not be encoded into the frame buffer.
    Serialization,
    /// A physical write or read failed or timed out.
    Transport,
    /// The inbound bytes break the framing rules.
    Protocol(ProtocolFault),
    /// The response bytes parse as no known response shape.
    Deserialization,
    /// The response parsed, but is not the variant the request calls for.
    WrongResponseVariant,
}

} // verus!
