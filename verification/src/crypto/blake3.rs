//! The content hash that closes every transfer.

use vstd::prelude::*;

verus! {

/// The BLAKE3 hash of a file's content.
pub type FileHash = [u8; 32];

#[verifier::external_type_specification]
#[verifier::external_body]
pub struct ExHasher(::blake3::Hasher);

/// Everything that a hasher has been fed since it was made, in order.
pub uninterp spec fn hasher_input(hasher: ::blake3::Hasher) -> Seq<u8>;

/// The BLAKE3 hash of `data`, thirty-two bytes.
pub uninterp spec fn blake3_digest(data: Seq<u8>) -> Seq<u8>;

/// `blake3::Hasher::new`.
///
/// Trusted: a new hasher has been fed nothing.
#[verifier::external_body]
fn hasher_new() -> (hasher: ::blake3::Hasher)
    ensures
        hasher_input(hasher) == Seq::<u8>::empty(),
{
    ::blake3::Hasher::new()
}

/// `blake3::Hasher::update`.
///
/// Trusted: the bytes are added behind what the hasher was fed before.
#[verifier::external_body]
fn hasher_update(hasher: &mut ::blake3::Hasher, data: &[u8])
    ensures
        hasher_input(*final(hasher)) == hasher_input(*old(hasher)) + data@,
{
    hasher.update(data);
}

/// `blake3::Hasher::finalize`.
///
/// Trusted: the result is the BLAKE3 hash of everything the hasher was fed;
/// the hasher itself is left as it was.
#[verifier::external_body]
fn hasher_finalize(hasher: &::blake3::Hasher) -> (hash: [u8; 32])
    ensures
        hash@ == blake3_digest(hasher_input(*hasher)),
{
    hasher.finalize().into()
}

/// A `blake3` hasher, used to verify that the final file is valid after a
/// transfer's completion.
///
/// The encrypted channel guarantees that each record is what the sender
/// wrote. It does not show that the records together are the file: that the
/// receiver resumed at the right offset, that nothing was skipped. That is
/// why the hashes of both sides are compared at the end.
///
/// The view of a hasher is the sequence of bytes fed to it so far.
pub struct Blake3(::blake3::Hasher);

impl View for Blake3 {
    type V = Seq<u8>;

    closed spec fn view(&self) -> Seq<u8> {
        hasher_input(self.0)
    }
}

impl Default for Blake3 {
    fn default() -> (hasher: Blake3)
        ensures
            hasher@ == Seq::<u8>::empty(),
    {
        Blake3(hasher_new())
    }
}

impl Blake3 {
    /// What `partial_hash` feeds to a hasher: the first `max` bytes of
    /// `data`, or all of it where `max` is absent or there are fewer.
    pub open spec fn spec_prefix(data: Seq<u8>, max: Option<u64>) -> Seq<u8> {
        match max {
            Some(m) => if m < data.len() {
                data.take(m as int)
            } else {
                data
            },
            None => data,
        }
    }

    /// A hasher that has been fed nothing.
    pub fn new() -> (hasher: Blake3)
        ensures
            hasher@ == Seq::<u8>::empty(),
    {
        Blake3(hasher_new())
    }

    pub fn update_hasher(&mut self, data: &[u8])
        ensures
            final(self)@ == old(self)@ + data@,
    {
        hasher_update(&mut self.0, data);
    }

    /// The hash of everything fed so far. The hasher can be fed further.
    pub fn finalize_hash(&mut self) -> (hash: FileHash)
        ensures
            hash@ == blake3_digest(old(self)@),
            final(self)@ == old(self)@,
    {
        hasher_finalize(&self.0)
    }

    /// Hashes the beginning of a file held in memory and returns the hasher
    /// in its current state.
    ///
    /// Used for resuming a partially completed transfer, since the hash of
    /// the entire file is still to be verified. Feeds up to `max` bytes: the
    /// length of the partial file that the receiver already has. The sender
    /// has the full file and reads only that portion of it.
    pub fn partial_hash(data: &[u8], max: Option<u64>) -> (hasher: Blake3)
        ensures
            hasher@ == Self::spec_prefix(data@, max),
    {
        let mut partial = match max {
            Some(m) => PartialHash::begin(m),
            None => PartialHash::begin(u64::MAX),
        };
        partial.feed(data);
        let exec_length = data.len();
        proof {
            let length = data@.len();
            assert(data@.take(length as int) =~= data@);
            assert(length == exec_length);
            match max {
                Some(m) => {
                    let taken = PartialHash::spec_taken(m as nat, length);
                    assert(Seq::<u8>::empty() + data@.take(taken as int) =~= Self::spec_prefix(
                        data@,
                        max,
                    ));
                },
                None => {
                    assert(PartialHash::spec_taken(u64::MAX as nat, length) == length);
                    assert(Seq::<u8>::empty() + data@.take(length as int) =~= data@);
                },
            }
        }
        partial.finish()
    }

    /// Resuming hashes the same bytes as starting over: a hasher that took
    /// the first `k` bytes from a partial file and is then fed the rest has
    /// been fed the whole, so the final hashes agree.
    pub proof fn lemma_resume_hash(data: Seq<u8>, k: u64)
        requires
            k <= data.len(),
        ensures
            Self::spec_prefix(data, Some(k)) + data.skip(k as int) == data,
            blake3_digest(Self::spec_prefix(data, Some(k)) + data.skip(k as int)) == blake3_digest(
                data,
            ),
    {
        assert(Self::spec_prefix(data, Some(k)) + data.skip(k as int) =~= data);
    }
}

/// The hashing of a file's beginning, chunk by chunk as the chunks are read.
pub struct PartialHash {
    hasher: Blake3,
    /// How many bytes are still to be fed.
    remaining: u64,
    /// How many bytes have been fed.
    taken: u64,
}

impl PartialHash {
    /// What has been hashed so far.
    pub closed spec fn hashed(&self) -> Seq<u8> {
        self.hasher@
    }

    /// How many more bytes will be taken.
    pub closed spec fn remaining(&self) -> nat {
        self.remaining as nat
    }

    /// How many bytes have been taken.
    pub closed spec fn taken(&self) -> nat {
        self.taken as nat
    }

    /// The count of the bytes taken is the length of what has been hashed,
    /// and stays within the number asked for.
    pub closed spec fn wf(&self) -> bool {
        &&& self.hasher@.len() == self.taken
        &&& self.taken + self.remaining <= u64::MAX
    }

    /// How many bytes of a chunk of `length` bytes are taken when
    /// `remaining` are still wanted.
    pub open spec fn spec_taken(remaining: nat, length: nat) -> nat {
        if length <= remaining {
            length
        } else {
            remaining
        }
    }

    /// Starts hashing the first `max` bytes of a file.
    pub fn begin(max: u64) -> (partial: PartialHash)
        ensures
            partial.wf(),
            partial.hashed() == Seq::<u8>::empty(),
            partial.remaining() == max,
            partial.taken() == 0,
    {
        PartialHash { hasher: Blake3::new(), remaining: max, taken: 0 }
    }

    /// Takes the next chunk read from the file, and from it as many bytes as
    /// are still wanted. Returns whether more of the file is wanted after
    /// this chunk; an empty chunk stands for the end of the file.
    pub fn feed(&mut self, chunk: &[u8]) -> (more: bool)
        requires
            old(self).wf(),
        ensures
            final(self).wf(),
            final(self).hashed() == old(self).hashed() + chunk@.take(
                Self::spec_taken(old(self).remaining(), chunk@.len()) as int,
            ),
            final(self).remaining() == old(self).remaining() - Self::spec_taken(
                old(self).remaining(),
                chunk@.len(),
            ),
            final(self).taken() == old(self).taken() + Self::spec_taken(
                old(self).remaining(),
                chunk@.len(),
            ),
            more == (chunk@.len() > 0 && final(self).remaining() > 0),
    {
        let length = chunk.len();
        if length as u64 <= self.remaining {
            self.hasher.update_hasher(chunk);
            self.remaining = self.remaining - length as u64;
            self.taken = self.taken + length as u64;
            assert(chunk@.take(length as int) =~= chunk@);
        } else {
            let wanted = self.remaining as usize;
            let part = vstd::slice::slice_subrange(chunk, 0, wanted);
            self.hasher.update_hasher(part);
            self.taken = self.taken + self.remaining;
            self.remaining = 0;
            assert(part@ =~= chunk@.take(wanted as int));
        }
        length > 0 && self.remaining > 0
    }

    /// How many bytes have been hashed.
    pub fn bytes_taken(&self) -> (taken: u64)
        ensures
            taken == self.taken(),
    {
        self.taken
    }

    /// The hasher in its current state.
    pub fn finish(self) -> (hasher: Blake3)
        ensures
            hasher@ == self.hashed(),
            self.wf() ==> hasher@.len() == self.taken(),
    {
        self.hasher
    }
}

} // verus!
