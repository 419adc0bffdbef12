//! Packets and packet commitments.

use vstd::prelude::*;
use vstd::bytes::{spec_u64_to_le_bytes, u64_to_le_bytes};
use crate::height::Height;
use crate::ident::{ChannelId, PortId};

verus! {

/// A packet sequence number; sequences start at 1 on every channel.
#[derive(Clone, Copy, Debug, PartialEq, Eq, Hash, Structural)]
pub struct Sequence(pub u64);

impl Sequence {
    pub fn value(&self) -> (r: u64)
        ensures
            r == self.0,
    {
        self.0
    }
}

/// The mathematical content of a packet.
pub ghost struct PacketView {
    pub sequence: u64,
    pub source_port: Seq<char>,
    pub source_channel: Seq<char>,
    pub destination_port: Seq<char>,
    pub destination_channel: Seq<char>,
    pub data: Seq<u8>,
    pub timeout_height: Height,
    pub timeout_timestamp: u64,
}

/// A packet in flight between two `(port, channel)` endpoints.
///
/// `data` is opaque to the core. `timeout_height` of zero and
/// `timeout_timestamp` of zero (nanoseconds) each mean that kind of timeout
/// is disabled.
#[derive(Debug)]
pub struct Packet {
    pub sequence: Sequence,
    pub source_port: PortId,
    pub source_channel: ChannelId,
    pub destination_port: PortId,
    pub destination_channel: ChannelId,
    pub data: Vec<u8>,
    pub timeout_height: Height,
    pub timeout_timestamp: u64,
}

impl View for Packet {
    type V = PacketView;

    open spec fn view(&self) -> PacketView {
        PacketView {
            sequence: self.sequence.0,
            source_port: self.source_port@,
            source_channel: self.source_channel@,
            destination_port: self.destination_port@,
            destination_channel: self.destination_channel@,
            data: self.data@,
            timeout_height: self.timeout_height,
            timeout_timestamp: self.timeout_timestamp,
        }
    }
}

impl Clone for Packet {
    fn clone(&self) -> (r: Self)
        ensures
            r@ == self@,
    {
        let r = Packet {
            sequence: self.sequence,
            source_port: self.source_port.clone(),
            source_channel: self.source_channel.clone(),
            destination_port: self.destination_port.clone(),
            destination_channel: self.destination_channel.clone(),
            data: self.data.clone(),
            timeout_height: self.timeout_height,
            timeout_timestamp: self.timeout_timestamp,
        };
        proof {
            assert(r.data@ =~= self.data@);
        }
        r
    }
}

impl PacketView {
    /// Identifiers are well-formed and the sequence number is positive.
    pub open spec fn wf(&self) -> bool {
        &&& crate::ident::valid_identifier(self.source_port)
        &&& crate::ident::valid_identifier(self.source_channel)
        &&& crate::ident::valid_identifier(self.destination_port)
        &&& crate::ident::valid_identifier(self.destination_channel)
        &&& self.sequence >= 1
    }

    /// At send time at least one of the two timeouts must be enabled.
    pub open spec fn some_timeout_enabled(&self) -> bool {
        ||| !(self.timeout_height == Height { revision_number: 0u64, revision_height: 0u64 })
        ||| self.timeout_timestamp != 0
    }
}

/// The bytes whose ledger-specific hash is stored as a packet commitment:
/// the timeout timestamp, the two timeout height components (each in
/// little-endian), then the packet data.
pub open spec fn spec_commitment_input(
    timeout_timestamp: u64,
    timeout_height: Height,
    data: Seq<u8>,
) -> Seq<u8> {
    spec_u64_to_le_bytes(timeout_timestamp) + spec_u64_to_le_bytes(timeout_height.revision_number)
        + spec_u64_to_le_bytes(timeout_height.revision_height) + data
}

/// Build the pre-image of a packet's commitment from its timeout fields and
/// payload.
pub fn commitment_input(timeout_timestamp: u64, timeout_height: Height, data: &Vec<u8>) -> (r: Vec<
    u8,
>)
    ensures
        r@ == spec_commitment_input(timeout_timestamp, timeout_height, data@),
{
    let mut out = u64_to_le_bytes(timeout_timestamp);
    let mut rev = u64_to_le_bytes(timeout_height.revision_number);
    let mut hgt = u64_to_le_bytes(timeout_height.revision_height);
    out.append(&mut rev);
    out.append(&mut hgt);
    let mut i: usize = 0;
    let ghost prefix = out@;
    while i < data.len()
        invariant
            0 <= i <= data.len(),
            out@ == prefix + data@.take(i as int),
        decreases data.len() - i,
    {
        out.push(data[i]);
        proof {
            assert(prefix + data@.take(i + 1) =~= (prefix + data@.take(i as int)).push(
                data@[i as int],
            ));
        }
        i = i + 1;
    }
    proof {
        assert(data@.take(data@.len() as int) =~= data@);
        assert(out@ =~= spec_commitment_input(timeout_timestamp, timeout_height, data@));
    }
    out
}

} // verus!
