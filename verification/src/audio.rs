//! The audio side: the state of an audio connection, and the cutting of the
//! sample stream into chunks of one size.

use vstd::prelude::*;
use vstd::arithmetic::div_mod::lemma_fundamental_div_mod_converse;

verus! {

/// The state of one audio connection.
#[derive(Debug, PartialEq, Eq)]
pub struct AudioState {
    pub is_authenticated: bool,
}

impl AudioState {
    /// The state of a connection that has just been accepted.
    pub fn new() -> (state: AudioState)
        ensures
            !state.is_authenticated,
    {
        AudioState { is_authenticated: false }
    }
}

/// The complete chunks of `size` bytes that `all` holds, in order.
pub open spec fn complete_chunks(all: Seq<u8>, size: nat) -> Seq<Seq<u8>> {
    Seq::new(all.len() / size, |i: int| all.subrange(i * size, i * size + size))
}

/// What is left of `all` behind its complete chunks.
pub open spec fn leftover(all: Seq<u8>, size: nat) -> Seq<u8> {
    all.skip(((all.len() / size) * size) as int)
}

/// What a list of chunks holds.
pub open spec fn chunk_views(chunks: Seq<Vec<u8>>) -> Seq<Seq<u8>> {
    Seq::new(chunks.len(), |i: int| chunks[i]@)
}

/// Cuts a stream of sample bytes into chunks of one fixed size, keeping what
/// does not fill a chunk yet.
pub struct AudioChunker {
    pending: Vec<u8>,
    chunk_size: usize,
}

impl AudioChunker {
    /// The bytes that wait for a chunk to fill.
    pub closed spec fn pending(&self) -> Seq<u8> {
        self.pending@
    }

    /// The size of every chunk.
    pub closed spec fn size(&self) -> nat {
        self.chunk_size as nat
    }

    pub open spec fn wf(&self) -> bool {
        self.size() > 0 && self.pending().len() < self.size()
    }

    /// A chunker for chunks of `chunk_size` bytes; none for a size of 0.
    pub fn new(chunk_size: usize) -> (chunker: Option<AudioChunker>)
        ensures
            chunker is Some <==> chunk_size > 0,
            chunker matches Some(c) ==> c.wf() && c.size() == chunk_size && c.pending()
                == Seq::<u8>::empty(),
    {
        if chunk_size == 0 {
            None
        } else {
            Some(AudioChunker { pending: Vec::new(), chunk_size })
        }
    }

    pub fn chunk_size(&self) -> (size: usize)
        ensures
            size == self.size(),
    {
        self.chunk_size
    }

    /// The number of bytes that wait.
    pub fn pending_len(&self) -> (len: usize)
        ensures
            len == self.pending().len(),
    {
        self.pending.len()
    }

    /// Takes the bytes of one callback. Samples that the noise gate found
    /// silent (`has_audio` false) are dropped. Others go behind the waiting
    /// bytes, and every chunk that this completes is handed out, in order.
    pub fn push(&mut self, samples: &[u8], has_audio: bool) -> (chunks: Vec<Vec<u8>>)
        requires
            old(self).wf(),
        ensures
            final(self).wf(),
            final(self).size() == old(self).size(),
            !has_audio ==> chunks@.len() == 0 && final(self).pending() == old(self).pending(),
            has_audio ==> chunk_views(chunks@) == complete_chunks(
                old(self).pending() + samples@,
                old(self).size(),
            ) && final(self).pending() == leftover(
                old(self).pending() + samples@,
                old(self).size(),
            ),
    {
        let mut chunks: Vec<Vec<u8>> = Vec::new();
        if !has_audio {
            return chunks;
        }
        let ghost all = old(self).pending() + samples@;
        let ghost size = self.chunk_size as int;
        let ghost mut base: int = 0;
        let mut i: usize = 0;
        proof {
            assert(0 * size == 0) by (nonlinear_arith);
            assert(self.pending@ =~= all.subrange(0, self.pending@.len() as int));
        }
        while i < samples.len()
            invariant
                i <= samples.len(),
                size == self.chunk_size,
                size > 0,
                self.chunk_size == old(self).chunk_size,
                all == old(self).pending@ + samples@,
                self.pending@.len() < size,
                base == chunks@.len() * size,
                base + self.pending@.len() == old(self).pending@.len() + i,
                self.pending@ == all.subrange(base, base + self.pending@.len()),
                forall|j: int|
                    0 <= j < chunks@.len() ==> (#[trigger] chunks@[j])@ == all.subrange(
                        j * size,
                        j * size + size,
                    ),
            decreases samples.len() - i,
        {
            let ghost before = self.pending@;
            self.pending.push(samples[i]);
            proof {
                assert(all[base + before.len()] == samples@[i as int]);
                assert(self.pending@ =~= all.subrange(base, base + before.len() + 1));
            }
            i = i + 1;
            if self.pending.len() == self.chunk_size {
                let mut full: Vec<u8> = Vec::new();
                std::mem::swap(&mut full, &mut self.pending);
                proof {
                    let count = chunks@.len() as int;
                    assert((count + 1) * size == count * size + size) by (nonlinear_arith);
                    assert(self.pending@ =~= all.subrange(base + size, base + size));
                }
                chunks.push(full);
                proof {
                    base = base + size;
                }
            }
        }
        proof {
            let count = chunks@.len() as int;
            assert(all.len() == size * count + self.pending@.len()) by (nonlinear_arith)
                requires
                    base == count * size,
                    base + self.pending@.len() == all.len(),
            ;
            lemma_fundamental_div_mod_converse(
                all.len() as int,
                size,
                count,
                self.pending@.len() as int,
            );
            assert(all.len() / (size as nat) == count);
            assert(chunk_views(chunks@) =~= complete_chunks(all, size as nat));
            assert(self.pending@ =~= leftover(all, size as nat));
        }
        chunks
    }
}

/// The sending side of a channel of the `crossbeam_channel` crate. Nothing
/// of it is read here; it is handed to `try_send` as it is.
#[verifier::external_type_specification]
#[verifier::external_body]
#[verifier::reject_recursive_types(T)]
pub struct ExSender<T>(crossbeam_channel::Sender<T>);

/// Calls `Sender::try_send` of the `crossbeam_channel` crate, which returns at
/// once. Whether the chunk was taken depends on the room in the channel at
/// that moment and on there being a receiver, so nothing is claimed of it.
#[verifier::external_body]
fn try_hand_over(sender: &crossbeam_channel::Sender<Vec<u8>>, chunk: Vec<u8>) -> (taken: bool) {
    sender.try_send(chunk).is_ok()
}

/// What became of the chunks that one callback completed.
#[derive(Clone, Copy, Debug, PartialEq, Eq, Structural)]
pub struct Handoff {
    /// Chunks that the callback completed.
    pub completed: usize,
    /// Those of them that the channel took; the others were dropped.
    pub taken: usize,
}

impl AudioChunker {
    /// Takes the bytes of one callback as [`AudioChunker::push`] does, and
    /// offers each chunk that this completes to the channel, in order, without
    /// ever waiting: a chunk that the channel does not take is dropped.
    pub fn feed(
        &mut self,
        sender: &crossbeam_channel::Sender<Vec<u8>>,
        samples: &[u8],
        has_audio: bool,
    ) -> (handoff: Handoff)
        requires
            old(self).wf(),
        ensures
            final(self).wf(),
            final(self).size() == old(self).size(),
            !has_audio ==> handoff.completed == 0 && final(self).pending() == old(self).pending(),
            has_audio ==> handoff.completed == complete_chunks(
                old(self).pending() + samples@,
                old(self).size(),
            ).len() && final(self).pending() == leftover(
                old(self).pending() + samples@,
                old(self).size(),
            ),
            handoff.taken <= handoff.completed,
    {
        let mut chunks = self.push(samples, has_audio);
        let completed = chunks.len();
        let ghost produced = chunk_views(chunks@);
        assert(produced.len() == completed);
        let mut taken: usize = 0;
        let mut offered: usize = 0;
        while chunks.len() > 0
            invariant
                offered + chunks@.len() == completed,
                taken <= offered,
            decreases chunks@.len(),
        {
            let chunk = chunks.remove(0);
            if try_hand_over(sender, chunk) {
                taken = taken + 1;
            }
            offered = offered + 1;
        }
        Handoff { completed, taken }
    }
}

} // verus!
