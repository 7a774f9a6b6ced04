//! The verifier node's lifecycle: phase tracking around a single stored
//! packet, with header and digest accessors that delegate to the decoder.

use crate::codec::Header;
use crate::codec::HeaderView;
use crate::codec::MINIMUM_PACKET_LENGTH;
use crate::codec::extract_header;
use crate::codec::extract_message;
use crate::codec::spec_extract_header;
use crate::codec::spec_extract_message;
use crate::codec::spec_header_bytes;
use crate::codec::spec_header_of;
use crate::hashing::keccak256_bytes;
use crate::hashing::keccak_of;
use vstd::prelude::*;

verus! {

/// Configuration held by the node. Its contents and loading mechanism belong
/// to external collaborators; this core only stores it at construction and
/// hands it back read-only.
pub struct DvnConfig {}

/// Lifecycle phase of the verifier node.
#[derive(Clone, Copy, Debug, PartialEq, Eq, Structural)]
pub enum DvnStatus {
    Stopped,
    Listening,
    PacketReceived,
    Verifying,
}

/// A verifier node: its configuration, its current phase, and at most one
/// stored packet, kept as the raw encoded bytes.
pub struct Dvn {
    config: DvnConfig,
    status: DvnStatus,
    packet: Option<Vec<u8>>,
}

/// Mathematical model of a node: configuration, phase, and the stored packet
/// as a byte sequence, if any.
#[verifier::ext_equal]
pub ghost struct DvnView {
    pub config: DvnConfig,
    pub status: DvnStatus,
    pub packet: Option<Seq<u8>>,
}

impl View for Dvn {
    type V = DvnView;

    closed spec fn view(&self) -> DvnView {
        DvnView {
            config: self.config,
            status: self.status,
            packet: match self.packet {
                None => None,
                Some(p) => Some(p@),
            },
        }
    }
}

/// The state of a freshly created node: stopped, holding no packet.
pub open spec fn spec_new(config: DvnConfig) -> DvnView {
    DvnView { config, status: DvnStatus::Stopped, packet: None }
}

/// Transition: begin listening. The stored packet is untouched.
pub open spec fn spec_listening(d: DvnView) -> DvnView {
    DvnView { status: DvnStatus::Listening, ..d }
}

/// Transition: a packet arrives. It is stored (replacing any previous one)
/// and the phase becomes packet-received.
pub open spec fn spec_packet_received(d: DvnView, p: Seq<u8>) -> DvnView {
    DvnView { status: DvnStatus::PacketReceived, packet: Some(p), ..d }
}

/// Transition: the stored packet is dropped and the node listens again.
pub open spec fn spec_reset_packet(d: DvnView) -> DvnView {
    DvnView { status: DvnStatus::Listening, packet: None, ..d }
}

/// Transition: verification begins. The stored packet is untouched.
pub open spec fn spec_verifying(d: DvnView) -> DvnView {
    DvnView { status: DvnStatus::Verifying, ..d }
}

/// What the header accessor returns: the decoded header of the stored
/// packet, or nothing when no packet is stored or it is too short.
pub open spec fn spec_header_result(d: DvnView) -> Option<HeaderView> {
    match d.packet {
        None => None,
        Some(p) => spec_extract_header(p),
    }
}

/// What the header-hash accessor returns: the Keccak-256 digest of the
/// serialized decoded header, or nothing when no packet is stored or it is
/// too short.
pub open spec fn spec_header_hash_result(d: DvnView) -> Option<Seq<u8>> {
    match d.packet {
        None => None,
        Some(p) => if p.len() < MINIMUM_PACKET_LENGTH {
            None
        } else {
            Some(keccak_of(spec_header_bytes(spec_header_of(p))))
        },
    }
}

/// What the message-hash accessor returns: the Keccak-256 digest of the
/// stored packet's message body, or nothing when no packet is stored or it
/// is too short.
pub open spec fn spec_message_hash_result(d: DvnView) -> Option<Seq<u8>> {
    match d.packet {
        None => None,
        Some(p) => match spec_extract_message(p) {
            None => None,
            Some(m) => Some(keccak_of(m)),
        },
    }
}

impl Dvn {
    /// Creates a node in the stopped phase with no stored packet.
    pub fn new(config: DvnConfig) -> (r: Dvn)
        ensures
            r@ == spec_new(config),
    {
        Dvn { config, status: DvnStatus::Stopped, packet: None }
    }

    /// The stored packet, if any, as an owned copy of its bytes.
    pub fn packet(&self) -> (r: Option<Vec<u8>>)
        ensures
            match r {
                None => self@.packet is None,
                Some(p) => self@.packet == Some(p@),
            },
    {
        match &self.packet {
            None => None,
            Some(p) => Some(p.clone()),
        }
    }

    /// The configuration the node was created with, read-only.
    pub fn config(&self) -> (r: &DvnConfig)
        ensures
            *r == self@.config,
    {
        &self.config
    }

    /// The node's current lifecycle phase.
    pub fn status(&self) -> (r: DvnStatus)
        ensures
            r == self@.status,
    {
        self.status
    }

    /// Unconditional transition to the listening phase; the stored packet and
    /// configuration are untouched.
    pub fn listening(&mut self)
        ensures
            final(self)@ == spec_listening(old(self)@),
    {
        self.status = DvnStatus::Listening;
        proof {
            assert(self@ =~= spec_listening(old(self)@));
        }
    }

    /// Stores `packet` (replacing any previous one) and moves to the
    /// packet-received phase. No validation happens here: well-formedness is
    /// deferred to header and message extraction.
    pub fn packet_received(&mut self, packet: Vec<u8>)
        ensures
            final(self)@ == spec_packet_received(old(self)@, packet@),
    {
        let ghost packet_view = packet@;
        self.packet = Some(packet);
        self.status = DvnStatus::PacketReceived;
        proof {
            assert(self@ =~= spec_packet_received(old(self)@, packet_view));
        }
    }

    /// Drops the stored packet and returns to the listening phase; used when
    /// this node's attestation turns out not to be required.
    pub fn reset_packet(&mut self)
        ensures
            final(self)@ == spec_reset_packet(old(self)@),
    {
        self.packet = None;
        self.status = DvnStatus::Listening;
        proof {
            assert(self@ =~= spec_reset_packet(old(self)@));
        }
    }

    /// Unconditional transition to the verifying phase; the stored packet is
    /// neither consumed nor altered.
    pub fn verifying(&mut self)
        ensures
            final(self)@ == spec_verifying(old(self)@),
    {
        self.status = DvnStatus::Verifying;
        proof {
            assert(self@ =~= spec_verifying(old(self)@));
        }
    }

    /// Decodes and returns the stored packet's header. Returns nothing
    /// exactly when no packet is stored or the stored packet is shorter than
    /// the minimum packet length.
    pub fn get_header(&self) -> (r: Option<Header>)
        ensures
            r is Some <==> (self@.packet matches Some(p) && p.len() >= MINIMUM_PACKET_LENGTH),
            match r {
                None => spec_header_result(self@) is None,
                Some(h) => spec_header_result(self@) == Some(h@),
            },
    {
        match &self.packet {
            None => None,
            Some(p) => extract_header(p.as_slice()),
        }
    }

    /// The Keccak-256 digest of the serialized decoded header of the stored
    /// packet. Returns nothing exactly when no packet is stored or the stored
    /// packet is shorter than the minimum packet length.
    pub fn get_header_hash(&self) -> (r: Option<Vec<u8>>)
        ensures
            r is Some <==> (self@.packet matches Some(p) && p.len() >= MINIMUM_PACKET_LENGTH),
            match r {
                None => spec_header_hash_result(self@) is None,
                Some(hash) => spec_header_hash_result(self@) == Some(hash@) && hash@.len() == 32,
            },
    {
        match &self.packet {
            None => None,
            Some(p) => match extract_header(p.as_slice()) {
                None => None,
                Some(h) => {
                    let header_bytes = h.to_slice();
                    Some(keccak256_bytes(header_bytes.as_slice()))
                },
            },
        }
    }

    /// The Keccak-256 digest of the stored packet's message body. Returns
    /// nothing exactly when no packet is stored or the stored packet is
    /// shorter than the minimum packet length.
    pub fn get_message_hash(&self) -> (r: Option<Vec<u8>>)
        ensures
            r is Some <==> (self@.packet matches Some(p) && p.len() >= MINIMUM_PACKET_LENGTH),
            match r {
                None => spec_message_hash_result(self@) is None,
                Some(hash) => spec_message_hash_result(self@) == Some(hash@) && hash@.len() == 32,
            },
    {
        match &self.packet {
            None => None,
            Some(p) => match extract_message(p.as_slice()) {
                None => None,
                Some(message) => Some(keccak256_bytes(message.as_slice())),
            },
        }
    }
}

/// Law: starting from a freshly created node, after beginning to listen and
/// then receiving packet `p`, a header is available exactly when `p` is at
/// least the minimum packet length.
pub proof fn lemma_listen_receive_header(config: DvnConfig, p: Seq<u8>)
    ensures
        spec_header_result(spec_packet_received(spec_listening(spec_new(config)), p)) is Some
            <==> p.len() >= MINIMUM_PACKET_LENGTH,
{
}

/// Law: after receiving packet `p` and then resetting, the node is listening
/// again and neither a header nor a message hash is available.
pub proof fn lemma_reset_clears_packet(d: DvnView, p: Seq<u8>)
    ensures
        spec_reset_packet(spec_packet_received(d, p)).status == DvnStatus::Listening,
        spec_header_result(spec_reset_packet(spec_packet_received(d, p))) is None,
        spec_message_hash_result(spec_reset_packet(spec_packet_received(d, p))) is None,
{
}

} // verus!
