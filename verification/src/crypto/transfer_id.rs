//! The identifier of one file transfer.

use vstd::prelude::*;

use crate::crypto::sha256;
use crate::crypto::sha256_digest;
use crate::encoding::{le_u64, put_slice, put_u64_le};
use crate::ticket::Ticket;

verus! {

/// Unique per file transfer, and the same on both peers. The identifier that
/// lasts is the hash of the Noise handshake, which binds the identities, the
/// ephemeral keys, the session key and the substream.
#[derive(Debug, Clone, Copy, Hash, PartialEq, Eq, PartialOrd, Ord)]
pub struct TransferId(pub [u8; 32]);

impl View for TransferId {
    type V = Seq<u8>;

    open spec fn view(&self) -> Seq<u8> {
        self.0@
    }
}

impl TransferId {
    /// What the provisional identifier is the SHA-256 digest of: the secret,
    /// the identity, and the substream's number in little-endian order.
    pub open spec fn spec_preimage(master_key: Seq<u8>, node_id: Seq<u8>, stream_id: u64) -> Seq<
        u8,
    > {
        master_key + node_id + le_u64(stream_id)
    }

    /// The provisional identifier of the transfer on substream `stream_id`:
    /// it names the transfer from the moment the substream is accepted until
    /// the handshake yields the lasting one.
    pub fn new(ticket: &Ticket, stream_id: u64) -> (id: TransferId)
        ensures
            id@ == sha256_digest(
                Self::spec_preimage(ticket@.master_key, ticket@.node_id, stream_id),
            ),
    {
        let mut preimage: Vec<u8> = Vec::new();
        put_slice(&mut preimage, ticket.master_key().as_bytes().as_slice());
        put_slice(&mut preimage, ticket.node_id_bytes().as_slice());
        put_u64_le(&mut preimage, stream_id);
        assert(preimage@ =~= Self::spec_preimage(
            ticket@.master_key,
            ticket@.node_id,
            stream_id,
        ));
        TransferId(sha256(preimage.as_slice()))
    }

    pub fn as_ref(&self) -> (bytes: &[u8])
        ensures
            bytes@ == self@,
    {
        self.0.as_slice()
    }

    /// Whether two identifiers name the same transfer.
    pub fn same(&self, other: &TransferId) -> (equal: bool)
        ensures
            equal == (self@ == other@),
    {
        let mut i: usize = 0;
        while i < 32
            invariant
                i <= 32,
                forall|k: int| 0 <= k < i ==> self@[k] == other@[k],
            decreases 32 - i,
        {
            if self.0[i] != other.0[i] {
                return false;
            }
            i += 1;
        }
        assert(self@ =~= other@);
        true
    }
}

} // verus!
