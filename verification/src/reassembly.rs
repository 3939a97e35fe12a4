//! Reassembler: joins the payload fragments of one or more inbound packets
//! into one logical response.

use crate::error::{ExchangeError, ProtocolFault};
use crate::frame::{
    be_u16, has_eom, has_som, length_in_bounds, packet_payload, parse_packet,
    parse_packet_header, BUFFER_SZ, HEADER_SZ, MCTP_FLAGS_IDX, SMBUS_HEADER_SZ, SMBUS_LEN_IDX,
};
use vstd::prelude::*;

verus! {

/// The logical response gathered so far: the fragments in arrival order and
/// the command code of the latest first packet (0 before any).
pub struct Assembly {
    pub response: Seq<u8>,
    pub cmd_code: u16,
}

impl Assembly {
    /// Nothing received yet.
    pub open spec fn empty() -> Assembly {
        Assembly { response: Seq::empty(), cmd_code: 0 }
    }
}

/// The assembly after one more packet, or why the packet ends the exchange.
pub open spec fn accept(state: Assembly, raw: Seq<u8>) -> Result<Assembly, ExchangeError> {
    match parse_packet(raw) {
        Err(e) => Err(e),
        Ok(header) => {
            let fragment = packet_payload(raw);
            if state.response.len() + fragment.len() > BUFFER_SZ {
                Err(ExchangeError::Protocol(ProtocolFault::ResponseTooLarge))
            } else {
                Ok(
                    Assembly {
                        response: state.response + fragment,
                        cmd_code: match header.cmd_code {
                            Some(code) => code,
                            None => state.cmd_code,
                        },
                    },
                )
            }
        },
    }
}

/// Whether a packet that `accept` takes closes the message.
pub open spec fn closes_message(raw: Seq<u8>) -> bool {
    has_eom(raw[MCTP_FLAGS_IDX as int])
}

/// How reading a run of packets ends.
pub enum Reassembly {
    /// A packet with the end-of-message flag arrived; `packets_read` packets
    /// were consumed, that one included.
    Complete { assembly: Assembly, packets_read: nat },
    /// The packets ran out before any closed the message.
    Incomplete { assembly: Assembly },
    /// A packet was refused.
    Failed { error: ExchangeError },
}

/// Feeds `packets` in order into `state` and stops at the first packet that
/// closes the message or is refused.
pub open spec fn reassemble_from(state: Assembly, packets: Seq<Seq<u8>>) -> Reassembly
    decreases packets.len(),
{
    if packets.len() == 0 {
        Reassembly::Incomplete { assembly: state }
    } else {
        match accept(state, packets[0]) {
            Err(error) => Reassembly::Failed { error },
            Ok(next) => if closes_message(packets[0]) {
                Reassembly::Complete { assembly: next, packets_read: 1 }
            } else {
                match reassemble_from(next, packets.drop_first()) {
                    Reassembly::Complete { assembly, packets_read } => Reassembly::Complete {
                        assembly,
                        packets_read: packets_read + 1,
                    },
                    other => other,
                }
            },
        }
    }
}

/// The response buffer of one exchange.
pub struct Reassembler {
    buffer: Vec<u8>,
    cmd_code: u16,
}

impl View for Reassembler {
    type V = Assembly;

    closed spec fn view(&self) -> Assembly {
        Assembly { response: self.buffer@, cmd_code: self.cmd_code }
    }
}

impl Reassembler {
    /// The response fits the buffer capacity.
    pub open spec fn wf(&self) -> bool {
        self@.response.len() <= BUFFER_SZ
    }

    /// An empty response buffer.
    pub fn new() -> (r: Reassembler)
        ensures
            r.wf(),
            r@ == Assembly::empty(),
    {
        Reassembler { buffer: Vec::new(), cmd_code: 0 }
    }

    /// Takes one whole packet: appends its payload fragment and, on a first
    /// packet, records the command code. Returns whether the packet closes
    /// the message. A refused packet leaves the buffer as it was.
    pub fn push_packet(&mut self, raw_packet: &[u8]) -> (r: Result<bool, ExchangeError>)
        requires
            old(self).wf(),
        ensures
            final(self).wf(),
            match accept(old(self)@, raw_packet@) {
                Ok(next) => final(self)@ == next && r == Ok::<bool, ExchangeError>(
                    closes_message(raw_packet@),
                ),
                Err(e) => final(self)@ == old(self)@ && r == Err::<bool, ExchangeError>(e),
            },
    {
        let header = match parse_packet_header(raw_packet) {
            Ok(header) => header,
            Err(e) => {
                return Err(e);
            },
        };

        // The fragment must fit behind what is already there
        let fragment_len = header.payload_end - header.payload_start;
        if fragment_len > BUFFER_SZ - self.buffer.len() {
            return Err(ExchangeError::Protocol(ProtocolFault::ResponseTooLarge));
        }
        if let Some(code) = header.cmd_code {
            self.cmd_code = code;
        }
        // Finally copy the fragment behind the bytes received so far

        let ghost before = self.buffer@;
        let mut i: usize = header.payload_start;
        while i < header.payload_end
            invariant
                header.payload_start <= i <= header.payload_end == raw_packet@.len(),
                self.buffer@ == before + raw_packet@.subrange(header.payload_start as int, i as int),
                before.len() + (header.payload_end - header.payload_start) <= BUFFER_SZ,
                self.cmd_code == match header.cmd_code {
                    Some(code) => code,
                    None => old(self).cmd_code,
                },
            decreases header.payload_end - i,
        {
            self.buffer.push(raw_packet[i]);
            i += 1;
            proof {
                assert(self.buffer@ =~= before + raw_packet@.subrange(
                    header.payload_start as int,
                    i as int,
                ));
            }
        }
        Ok(header.is_last())
    }

    /// The bytes of the response received so far.
    pub fn response(&self) -> (bytes: &[u8])
        ensures
            bytes@ == self@.response,
    {
        self.buffer.as_slice()
    }

    /// A copy of the response received so far.
    pub fn to_vec(&self) -> (bytes: Vec<u8>)
        ensures
            bytes@ == self@.response,
    {
        self.buffer.clone()
    }

    /// The number of response bytes received so far.
    pub fn len(&self) -> (n: usize)
        ensures
            n == self@.response.len(),
    {
        self.buffer.len()
    }

    /// The command code of the latest first packet; 0 before any.
    pub fn cmd_code(&self) -> (code: u16)
        ensures
            code == self@.cmd_code,
    {
        self.cmd_code
    }
}

/// One complete logical response.
#[derive(Debug, PartialEq, Eq)]
pub struct LogicalResponse {
    /// The payload fragments, joined in arrival order.
    pub payload: Vec<u8>,
    /// The command code that the first packet carried.
    pub cmd_code: u16,
    /// How many packets were consumed, the closing one included.
    pub packets_read: usize,
}

/// The byte sequences of a run of packets.
pub open spec fn packet_views(packets: Seq<Vec<u8>>) -> Seq<Seq<u8>> {
    packets.map_values(|p: Vec<u8>| p@)
}

/// `outcome`, counted from a point `skipped` packets into the run.
pub open spec fn after_skipping(outcome: Reassembly, skipped: nat) -> Reassembly {
    match outcome {
        Reassembly::Complete { assembly, packets_read } => Reassembly::Complete {
            assembly,
            packets_read: packets_read + skipped,
        },
        other => other,
    }
}

/// Reassembles a response from packets already at hand. Reading stops at
/// the first packet that closes the message; `None` says that the packets
/// ran out before one did.
pub fn reassemble(packets: &[Vec<u8>]) -> (r: Result<Option<LogicalResponse>, ExchangeError>)
    ensures
        match reassemble_from(Assembly::empty(), packet_views(packets@)) {
            Reassembly::Complete { assembly, packets_read } => r matches Ok(Some(out))
                && out.payload@ == assembly.response && out.cmd_code == assembly.cmd_code
                && out.packets_read == packets_read,
            Reassembly::Incomplete { assembly } => r matches Ok(None),
            Reassembly::Failed { error } => r matches Err(e) && e == error,
        },
{
    let ghost all = packet_views(packets@);
    let mut state = Reassembler::new();
    let mut i: usize = 0;
    proof {
        assert(all.subrange(0, all.len() as int) =~= all);
    }
    while i < packets.len()
        invariant
            i <= packets@.len(),
            all == packet_views(packets@),
            state.wf(),
            reassemble_from(Assembly::empty(), all) == after_skipping(
                reassemble_from(state@, all.subrange(i as int, all.len() as int)),
                i as nat,
            ),
        decreases packets@.len() - i,
    {
        let ghost rest = all.subrange(i as int, all.len() as int);
        let ghost before = state@;
        proof {
            assert(rest[0] == packets@[i as int]@);
            assert(rest.drop_first() =~= all.subrange(i as int + 1, all.len() as int));
        }
        match state.push_packet(packets[i].as_slice()) {
            Err(e) => {
                return Err(e);
            },
            Ok(last) => {
                if last {
                    let payload = state.to_vec();
                    return Ok(
                        Some(
                            LogicalResponse {
                                payload,
                                cmd_code: state.cmd_code(),
                                packets_read: i + 1,
                            },
                        ),
                    );
                }
            },
        }
        i += 1;
    }
    Ok(None)
}

/// A packet stream in which every packet is accepted by the header parser,
/// only the first opens a message and only the last closes it.
pub open spec fn well_sequenced(packets: Seq<Seq<u8>>) -> bool {
    forall|i: int|
        0 <= i < packets.len() ==> {
            &&& parse_packet(#[trigger] packets[i]) is Ok
            &&& (has_som(packets[i][MCTP_FLAGS_IDX as int]) <==> i == 0)
            &&& (has_eom(packets[i][MCTP_FLAGS_IDX as int]) <==> i == packets.len() - 1)
        }
}

/// The payload fragments that a run of packets carries, one per packet.
pub open spec fn fragments_of(packets: Seq<Seq<u8>>) -> Seq<Seq<u8>> {
    packets.map_values(|p: Seq<u8>| packet_payload(p))
}

/// A packet whose length byte lies outside `[5, 69]` is refused as a
/// protocol error whatever else it holds, and `accept` then yields no new
/// assembly: the response gathered so far stays as it was.
pub proof fn lemma_length_out_of_bounds_rejected(state: Assembly, raw: Seq<u8>)
    requires
        raw.len() >= SMBUS_HEADER_SZ,
        !length_in_bounds(raw[SMBUS_LEN_IDX as int]),
    ensures
        accept(state, raw) == Err::<Assembly, ExchangeError>(
            ExchangeError::Protocol(
                ProtocolFault::InvalidPacketLength(raw[SMBUS_LEN_IDX as int]),
            ),
        ),
        reassemble_from(state, seq![raw]) == (Reassembly::Failed {
            error: ExchangeError::Protocol(
                ProtocolFault::InvalidPacketLength(raw[SMBUS_LEN_IDX as int]),
            ),
        }),
{
    assert(seq![raw][0] == raw);
}

/// A single packet that both opens and closes a message yields exactly its
/// own payload fragment and its own command code, after one packet read.
pub proof fn lemma_single_packet(raw: Seq<u8>)
    requires
        parse_packet(raw) is Ok,
        has_som(raw[MCTP_FLAGS_IDX as int]),
        has_eom(raw[MCTP_FLAGS_IDX as int]),
    ensures
        reassemble_from(Assembly::empty(), seq![raw]) == (Reassembly::Complete {
            assembly: Assembly {
                response: packet_payload(raw),
                cmd_code: be_u16(raw[HEADER_SZ as int], raw[HEADER_SZ as int + 1]),
            },
            packets_read: 1,
        }),
{
    assert(seq![raw][0] == raw);
    assert(Seq::<u8>::empty() + packet_payload(raw) =~= packet_payload(raw));
}

proof fn lemma_fragments_unfold(packets: Seq<Seq<u8>>)
    requires
        packets.len() >= 1,
    ensures
        fragments_of(packets).flatten() == packet_payload(packets[0]) + fragments_of(
            packets.drop_first(),
        ).flatten(),
{
    assert(fragments_of(packets).drop_first() =~= fragments_of(packets.drop_first()));
}

proof fn lemma_continuations(state: Assembly, packets: Seq<Seq<u8>>)
    requires
        packets.len() >= 1,
        forall|i: int|
            0 <= i < packets.len() ==> {
                &&& parse_packet(#[trigger] packets[i]) is Ok
                &&& !has_som(packets[i][MCTP_FLAGS_IDX as int])
                &&& (has_eom(packets[i][MCTP_FLAGS_IDX as int]) <==> i == packets.len() - 1)
            },
        state.response.len() + fragments_of(packets).flatten().len() <= BUFFER_SZ,
    ensures
        reassemble_from(state, packets) == (Reassembly::Complete {
            assembly: Assembly {
                response: state.response + fragments_of(packets).flatten(),
                cmd_code: state.cmd_code,
            },
            packets_read: packets.len(),
        }),
    decreases packets.len(),
{
    let first = packets[0];
    let rest = packets.drop_first();
    lemma_fragments_unfold(packets);
    let next = Assembly { response: state.response + packet_payload(first), cmd_code: state.cmd_code };
    assert(parse_packet(first) is Ok);
    assert(accept(state, first) == Ok::<Assembly, ExchangeError>(next));
    if packets.len() == 1 {
        assert(rest.len() == 0);
        assert(fragments_of(rest).flatten() =~= Seq::<u8>::empty());
        assert(state.response + fragments_of(packets).flatten() =~= next.response);
    } else {
        assert forall|i: int| 0 <= i < rest.len() implies {
            &&& parse_packet(#[trigger] rest[i]) is Ok
            &&& !has_som(rest[i][MCTP_FLAGS_IDX as int])
            &&& (has_eom(rest[i][MCTP_FLAGS_IDX as int]) <==> i == rest.len() - 1)
        } by {
            assert(rest[i] == packets[i + 1]);
        }
        lemma_continuations(next, rest);
        assert(next.response + fragments_of(rest).flatten() =~= state.response + fragments_of(
            packets,
        ).flatten());
    }
}

/// However a logical payload is cut into fragments, one per packet, the
/// reassembled response is the fragments joined in order: given a
/// well-sequenced packet stream whose fragments fit the buffer capacity
/// together, reassembly completes on the last packet with the
/// concatenation of all fragments and the command code of the first packet.
pub proof fn lemma_reassembly_concatenates(packets: Seq<Seq<u8>>, fragments: Seq<Seq<u8>>)
    requires
        packets.len() >= 1,
        well_sequenced(packets),
        fragments == fragments_of(packets),
        fragments.flatten().len() <= BUFFER_SZ,
    ensures
        reassemble_from(Assembly::empty(), packets) == (Reassembly::Complete {
            assembly: Assembly {
                response: fragments.flatten(),
                cmd_code: be_u16(packets[0][HEADER_SZ as int], packets[0][HEADER_SZ as int + 1]),
            },
            packets_read: packets.len(),
        }),
{
    let first = packets[0];
    let rest = packets.drop_first();
    lemma_fragments_unfold(packets);
    let code = be_u16(first[HEADER_SZ as int], first[HEADER_SZ as int + 1]);
    let next = Assembly { response: Seq::<u8>::empty() + packet_payload(first), cmd_code: code };
    assert(parse_packet(first) is Ok);
    assert(accept(Assembly::empty(), first) == Ok::<Assembly, ExchangeError>(next));
    if packets.len() == 1 {
        assert(fragments_of(rest).flatten() =~= Seq::<u8>::empty());
        assert(next.response =~= fragments.flatten());
    } else {
        assert forall|i: int| 0 <= i < rest.len() implies {
            &&& parse_packet(#[trigger] rest[i]) is Ok
            &&& !has_som(rest[i][MCTP_FLAGS_IDX as int])
            &&& (has_eom(rest[i][MCTP_FLAGS_IDX as int]) <==> i == rest.len() - 1)
        } by {
            assert(rest[i] == packets[i + 1]);
        }
        lemma_continuations(next, rest);
        assert(next.response + fragments_of(rest).flatten() =~= fragments.flatten());
    }
}

} // verus!
