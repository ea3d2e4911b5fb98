//! Flow identities and the integer code under which a flow is stored.

use vstd::prelude::*;

verus! {

/// The identity of a flow: source address, transport protocol and
/// destination port. The source port is not part of the identity.
#[derive(Clone, Copy, Debug, PartialEq, Eq, Hash, Structural)]
pub struct FlowKey {
    /// The IPv4 source address as a 32-bit number, first octet highest.
    pub src_ip: u32,
    /// The IP protocol number (6 for TCP, 17 for UDP).
    pub protocol: u8,
    /// The destination port.
    pub dest_port: u16,
}

/// One more than the largest code of a flow: codes use 56 bits.
pub const CODE_LIMIT: u64 = 0x100_0000_0000_0000;

impl FlowKey {
    /// The code of a flow: the address in bits 24 to 55, the protocol in
    /// bits 16 to 23, the port in bits 0 to 15.
    pub open spec fn spec_code(&self) -> u64 {
        (self.src_ip * 0x100_0000 + self.protocol * 0x1_0000 + self.dest_port) as u64
    }

    /// The flow that a code stands for.
    pub open spec fn from_code(code: u64) -> FlowKey {
        FlowKey {
            src_ip: (code / 0x100_0000) as u32,
            protocol: ((code / 0x1_0000) % 0x100) as u8,
            dest_port: (code % 0x1_0000) as u16,
        }
    }

    /// The identity of the flow from `src_ip` over `protocol` to `dest_port`.
    pub fn new(src_ip: u32, protocol: u8, dest_port: u16) -> (key: FlowKey)
        ensures
            key == (FlowKey { src_ip, protocol, dest_port }),
    {
        FlowKey { src_ip, protocol, dest_port }
    }

    /// Computes the code of this flow.
    #[verifier::when_used_as_spec(spec_code)]
    pub fn code(&self) -> (code: u64)
        ensures
            code == self.spec_code(),
            code < CODE_LIMIT,
    {
        self.src_ip as u64 * 0x100_0000 + self.protocol as u64 * 0x1_0000 + self.dest_port as u64
    }

    /// A flow is recovered from its own code.
    pub proof fn lemma_code_round_trip(self)
        ensures
            self.code() < CODE_LIMIT,
            FlowKey::from_code(self.code()) == self,
    {
    }

    /// Every code below the limit is the code of the flow it stands for.
    pub proof fn lemma_from_code_round_trip(code: u64)
        requires
            code < CODE_LIMIT,
        ensures
            FlowKey::from_code(code).code() == code,
    {
    }

    /// Two flows with the same code are the same flow.
    pub proof fn lemma_code_injective(a: FlowKey, b: FlowKey)
        requires
            a.code() == b.code(),
        ensures
            a == b,
    {
        a.lemma_code_round_trip();
        b.lemma_code_round_trip();
    }
}

} // verus!
