//! The network identity that a node publishes in its discovery record.
//!
//! The identity names the chain that the node serves and a sequence number.
//! It is written as two variable-length integers, the chain identifier first,
//! framed as one byte string, and stored in the record under
//! [`IDENTITY_KEY`]. A record belongs to a network when it holds an identity
//! with that network's chain identifier and the sequence number zero.

use vstd::prelude::*;
use vstd::slice::slice_subrange;
use crate::rlp::{decode_string, encode_string, framed_payload, string_bytes};
use crate::rlp::lemma_string_round_trip;
use crate::types::Record;
use crate::varint::{decode_varint, encode_varint, varint_bytes, varint_u64};
use crate::varint::{lemma_varint_len, lemma_varint_round_trip};

verus! {

/// The record key under which the identity is stored.
pub const IDENTITY_KEY: &'static str = "opstack";

/// The sequence number of the identities that this library accepts.
pub const ACCEPTED_SEQUENCE: u64 = 0;

/// A network identity: the chain served, and a sequence number.
#[derive(Clone, Copy, Debug, PartialEq, Eq, Structural)]
pub struct NetworkIdentity {
    /// The numeric chain identifier.
    pub chain_id: u64,
    /// The sequence number.
    pub sequence: u64,
}

/// The two integers of an identity, before framing.
pub open spec fn identity_payload(chain_id: u64, sequence: u64) -> Seq<u8> {
    varint_bytes(chain_id as nat) + varint_bytes(sequence as nat)
}

/// The bytes of an identity as a record stores them.
pub open spec fn identity_bytes(chain_id: u64, sequence: u64) -> Seq<u8> {
    string_bytes(identity_payload(chain_id, sequence))
}

/// The identity that `bytes` holds. `None` where `bytes` does not start with
/// a byte string, or the string does not start with two integers of 64 bits.
/// What follows the second integer, inside the string or after it, is
/// ignored.
pub open spec fn parsed_identity(bytes: Seq<u8>) -> Option<NetworkIdentity> {
    match framed_payload(bytes) {
        None => None,
        Some(payload) => match varint_u64(payload) {
            None => None,
            Some((chain_id, n)) => match varint_u64(payload.skip(n as int)) {
                None => None,
                Some((sequence, _)) => Some(NetworkIdentity { chain_id, sequence }),
            },
        },
    }
}

/// Whether `record` belongs to the network `chain_id`.
pub open spec fn belongs_to(record: Record, chain_id: u64) -> bool {
    match record.identity {
        None => false,
        Some(bytes) => parsed_identity(bytes@) == Some(
            NetworkIdentity { chain_id, sequence: ACCEPTED_SEQUENCE },
        ),
    }
}

/// An identity that was written is read back, whatever follows it.
pub proof fn lemma_identity_round_trip(chain_id: u64, sequence: u64, rest: Seq<u8>)
    ensures
        parsed_identity(identity_bytes(chain_id, sequence) + rest) == Some(
            NetworkIdentity { chain_id, sequence },
        ),
{
    let first = varint_bytes(chain_id as nat);
    let second = varint_bytes(sequence as nat);
    let payload = identity_payload(chain_id, sequence);
    lemma_varint_len(chain_id as nat);
    lemma_varint_len(sequence as nat);
    lemma_string_round_trip(payload, rest);
    lemma_varint_round_trip(chain_id as nat, second);
    lemma_varint_round_trip(sequence as nat, Seq::empty());
    assert(payload.skip(first.len() as int) =~= second + Seq::<u8>::empty());
}

/// A record that holds the identity written for a chain, with the accepted
/// sequence number, belongs to that chain's network and to no other.
pub proof fn lemma_own_identity_accepted(record: Record, chain_id: u64, other: u64)
    requires
        record.identity matches Some(bytes) && bytes@ == identity_bytes(
            chain_id,
            ACCEPTED_SEQUENCE,
        ),
    ensures
        belongs_to(record, chain_id),
        other != chain_id ==> !belongs_to(record, other),
{
    lemma_identity_round_trip(chain_id, ACCEPTED_SEQUENCE, Seq::empty());
    assert(identity_bytes(chain_id, ACCEPTED_SEQUENCE) + Seq::<u8>::empty() =~= identity_bytes(
        chain_id,
        ACCEPTED_SEQUENCE,
    ));
}

/// Writes the identity of a node of chain `chain_id`.
pub fn build_identity(chain_id: u64, sequence: u64) -> (bytes: Vec<u8>)
    ensures
        bytes@ == identity_bytes(chain_id, sequence),
{
    let mut payload: Vec<u8> = Vec::new();
    encode_varint(chain_id, &mut payload);
    encode_varint(sequence, &mut payload);
    let mut bytes: Vec<u8> = Vec::new();
    encode_string(payload.as_slice(), &mut bytes);
    proof {
        assert(payload@ =~= identity_payload(chain_id, sequence));
        assert(bytes@ =~= identity_bytes(chain_id, sequence));
    }
    bytes
}

/// Reads the identity that `bytes` holds.
pub fn parse_identity(bytes: &[u8]) -> (r: Option<NetworkIdentity>)
    ensures
        r == parsed_identity(bytes@),
{
    match decode_string(bytes) {
        None => None,
        Some(payload) => match decode_varint(payload) {
            None => None,
            Some((chain_id, n)) => {
                let rest = slice_subrange(payload, n, payload.len());
                proof {
                    assert(rest@ =~= payload@.skip(n as int));
                }
                match decode_varint(rest) {
                    None => None,
                    Some((sequence, _)) => Some(NetworkIdentity { chain_id, sequence }),
                }
            },
        },
    }
}

/// Judges whether a discovered record belongs to the network `chain_id`: it
/// does when it holds an identity with that chain identifier and the
/// accepted sequence number. A record without an identity, or with one that
/// does not parse, does not belong.
pub fn is_valid(record: &Record, chain_id: u64) -> (valid: bool)
    ensures
        valid == belongs_to(*record, chain_id),
{
    match &record.identity {
        None => false,
        Some(bytes) => match parse_identity(bytes.as_slice()) {
            None => false,
            Some(identity) => identity.chain_id == chain_id && identity.sequence
                == ACCEPTED_SEQUENCE,
        },
    }
}

} // verus!
