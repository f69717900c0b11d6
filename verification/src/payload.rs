//! The wire format of a transfer request: one tag byte, then the amount as
//! eight little-endian bytes.

use crate::endian::{
    le_bytes, le_value, lemma_from_le_bytes, lemma_le_bytes_of_value, lemma_le_value_fits,
    lemma_le_value_of_bytes, lemma_to_le_bytes,
};
use vstd::bytes::{u64_from_le_bytes, u64_to_le_bytes};
use vstd::prelude::*;
use vstd::slice::slice_subrange;

verus! {

/// The number of bytes in a well-formed payload.
pub const PAYLOAD_LEN: usize = 9;

/// The two ways in which the handler can move value.
#[derive(Clone, Copy, Debug, PartialEq, Eq)]
pub enum Operation {
    /// Ask the system ledger to move the value.
    DelegatedTransfer,
    /// Rewrite both balances in place.
    DirectTransfer,
}

impl Operation {
    /// The tag byte that selects this operation on the wire.
    pub open spec fn spec_tag(self) -> u8 {
        match self {
            Operation::DelegatedTransfer => 0,
            Operation::DirectTransfer => 1,
        }
    }

    /// The operation that a tag byte selects, if it selects one.
    pub open spec fn spec_from_tag(tag: u8) -> Option<Operation> {
        if tag == 0 {
            Some(Operation::DelegatedTransfer)
        } else if tag == 1 {
            Some(Operation::DirectTransfer)
        } else {
            None
        }
    }

    /// The tag byte that selects this operation on the wire.
    pub fn tag(self) -> (tag: u8)
        ensures
            tag == self.spec_tag(),
    {
        match self {
            Operation::DelegatedTransfer => 0,
            Operation::DirectTransfer => 1,
        }
    }

    /// The operation that a tag byte selects; `None` for every byte but 0 and 1.
    pub fn from_tag(tag: u8) -> (operation: Option<Operation>)
        ensures
            operation == Operation::spec_from_tag(tag),
    {
        if tag == 0 {
            Some(Operation::DelegatedTransfer)
        } else if tag == 1 {
            Some(Operation::DirectTransfer)
        } else {
            None
        }
    }
}

/// A decoded transfer request.
#[derive(Clone, Copy, Debug, PartialEq, Eq)]
pub struct Payload {
    pub operation: Operation,
    pub amount: u64,
}

impl Payload {
    /// The nine bytes that carry this request.
    pub open spec fn wire(self) -> Seq<u8> {
        seq![self.operation.spec_tag()] + le_bytes(self.amount)
    }

    /// The request that a byte string carries: it must be nine bytes long and
    /// start with a known tag.
    pub open spec fn parse(input: Seq<u8>) -> Option<Payload> {
        if input.len() != PAYLOAD_LEN {
            None
        } else {
            match Operation::spec_from_tag(input[0]) {
                Some(operation) => Some(
                    Payload { operation, amount: le_value(input.subrange(1, 9)) as u64 },
                ),
                None => None,
            }
        }
    }

    /// Encodes the request as its nine wire bytes.
    pub fn encode(&self) -> (bytes: Vec<u8>)
        ensures
            bytes@ == self.wire(),
            bytes@.len() == PAYLOAD_LEN,
    {
        let mut bytes: Vec<u8> = Vec::new();
        bytes.push(self.operation.tag());
        let mut amount = u64_to_le_bytes(self.amount);
        proof {
            lemma_to_le_bytes(self.amount);
        }
        bytes.append(&mut amount);
        bytes
    }

    /// Decodes a byte string. Any length but nine and any tag but 0 and 1 is
    /// refused.
    pub fn decode(input: &[u8]) -> (payload: Option<Payload>)
        ensures
            payload == Payload::parse(input@),
    {
        if input.len() != PAYLOAD_LEN {
            return None;
        }
        match Operation::from_tag(input[0]) {
            Some(operation) => {
                let amount = u64_from_le_bytes(slice_subrange(input, 1, 9));
                proof {
                    lemma_from_le_bytes(input@.subrange(1, 9));
                }
                Some(Payload { operation, amount })
            },
            None => None,
        }
    }
}

/// A payload is refused exactly when its length is not nine or its tag is
/// neither 0 nor 1.
pub proof fn lemma_parse_refuses(input: Seq<u8>)
    ensures
        Payload::parse(input) is None <==> (input.len() != 9 || (input[0] != 0 && input[0] != 1)),
{
}

/// Decoding what was encoded gives the request back.
pub proof fn lemma_parse_of_wire(payload: Payload)
    ensures
        payload.wire().len() == 9,
        Payload::parse(payload.wire()) == Some(payload),
{
    lemma_le_value_of_bytes(payload.amount);
    assert(payload.wire().subrange(1, 9) =~= le_bytes(payload.amount));
}

/// Encoding what was decoded gives the bytes back: no two byte strings carry
/// the same request.
pub proof fn lemma_wire_of_parse(input: Seq<u8>)
    requires
        Payload::parse(input) is Some,
    ensures
        Payload::parse(input).unwrap().wire() == input,
{
    let amount = input.subrange(1, 9);
    lemma_le_value_fits(amount);
    lemma_le_bytes_of_value(amount);
    assert(Payload::parse(input).unwrap().wire() =~= input);
}

} // verus!
