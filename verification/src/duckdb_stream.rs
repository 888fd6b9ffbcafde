//! Cutting an Arrow IPC byte stream into the chunks that the gateway sends to
//! the client, one gRPC message each. The caller performs the sends.
use vstd::prelude::*;

verus! {

/// The bytes of a list of chunks, in order.
pub open spec fn flatten(chunks: Seq<Seq<u8>>) -> Seq<u8>
    decreases chunks.len(),
{
    if chunks.len() == 0 {
        Seq::empty()
    } else {
        flatten(chunks.drop_last()) + chunks.last()
    }
}

/// The chunks of several calls, one call after another.
pub open spec fn concat_chunks(outs: Seq<Seq<Seq<u8>>>) -> Seq<Seq<u8>>
    decreases outs.len(),
{
    if outs.len() == 0 {
        Seq::empty()
    } else {
        concat_chunks(outs.drop_last()) + outs.last()
    }
}

/// The messages a stream sends: the chunks of every write, then what the
/// final flush hands out, if anything.
pub open spec fn stream_messages(outs: Seq<Seq<Seq<u8>>>, last_pending: Seq<u8>) -> Seq<Seq<u8>> {
    if last_pending.len() > 0 {
        concat_chunks(outs).push(last_pending)
    } else {
        concat_chunks(outs)
    }
}

proof fn lemma_flatten_append(a: Seq<Seq<u8>>, b: Seq<Seq<u8>>)
    ensures
        flatten(a + b) == flatten(a) + flatten(b),
    decreases b.len(),
{
    if b.len() == 0 {
        assert(a + b =~= a);
        assert(flatten(a) + flatten(b) =~= flatten(a));
    } else {
        lemma_flatten_append(a, b.drop_last());
        assert((a + b).drop_last() =~= a + b.drop_last());
        assert((a + b).last() == b.last());
        assert(flatten(a) + flatten(b) =~= flatten(a) + flatten(b.drop_last()) + b.last());
    }
}

proof fn lemma_stream_prefix(bufs: Seq<Seq<u8>>, pendings: Seq<Seq<u8>>, outs: Seq<Seq<Seq<u8>>>, target: nat)
    requires
        pendings.len() == bufs.len() + 1,
        outs.len() == bufs.len(),
        pendings[0].len() == 0,
        forall|i: int| 0 <= i < bufs.len() ==> pendings[i] + #[trigger] bufs[i] == flatten(outs[i]) + pendings[i + 1],
        forall|i: int, j: int| 0 <= i < outs.len() && 0 <= j < outs[i].len() ==> (#[trigger] outs[i][j]).len() == target,
    ensures
        flatten(concat_chunks(outs)) + pendings.last() == flatten(bufs),
        forall|m: int| 0 <= m < concat_chunks(outs).len() ==> (#[trigger] concat_chunks(outs)[m]).len() == target,
    decreases bufs.len(),
{
    if bufs.len() == 0 {
        assert(flatten(concat_chunks(outs)) + pendings.last() =~= Seq::<u8>::empty());
    } else {
        let n = bufs.len() - 1;
        let bp = bufs.drop_last();
        let pp = pendings.drop_last();
        let op = outs.drop_last();
        assert forall|i: int| 0 <= i < bp.len() implies pp[i] + #[trigger] bp[i] == flatten(op[i]) + pp[i + 1] by {
            assert(bp[i] == bufs[i]);
            assert(pp[i] == pendings[i] && pp[i + 1] == pendings[i + 1] && op[i] == outs[i]);
        }
        assert forall|i: int, j: int| 0 <= i < op.len() && 0 <= j < op[i].len() implies (#[trigger] op[i][j]).len() == target by {
            assert(op[i] == outs[i]);
        }
        lemma_stream_prefix(bp, pp, op, target);
        lemma_flatten_append(concat_chunks(op), outs.last());
        assert(pendings[n] + bufs[n] == flatten(outs[n]) + pendings[n + 1]);
        assert(pp.last() == pendings[n]);
        assert(concat_chunks(outs) == concat_chunks(op) + outs.last());
        assert(outs.last() == outs[n]);
        assert(pendings.last() == pendings[n + 1]);
        let f = flatten(concat_chunks(op));
        assert(flatten(concat_chunks(outs)) == f + flatten(outs[n]));
        assert(f + flatten(outs[n]) + pendings[n + 1] =~= f + (flatten(outs[n]) + pendings[n + 1]));
        assert(f + (pendings[n] + bufs[n]) =~= f + pendings[n] + bufs[n]);
        assert(flatten(bufs) == flatten(bp) + bufs.last());
        assert forall|m: int| 0 <= m < concat_chunks(outs).len() implies (#[trigger] concat_chunks(outs)[m]).len() == target by {
            if m < concat_chunks(op).len() {
                assert(concat_chunks(outs)[m] == concat_chunks(op)[m]);
            } else {
                assert(concat_chunks(outs)[m] == outs[n][m - concat_chunks(op).len()]);
            }
        }
    }
}

/// What a whole stream sends: for writes of `bufs` in turn on a new writer,
/// where each write took the bytes waiting before it (`pendings[i]`, none at
/// the start) and `bufs[i]`, and returned the chunks `outs[i]` with
/// `pendings[i + 1]` left waiting, as `write` ensures, followed by the flush
/// of the bytes left at the end: the messages, in order, are the written
/// bytes, every message but the flushed one has exactly the chunk size, and
/// no message is empty.
pub proof fn lemma_stream_sends_all_bytes(
    bufs: Seq<Seq<u8>>,
    pendings: Seq<Seq<u8>>,
    outs: Seq<Seq<Seq<u8>>>,
    target: nat,
)
    requires
        target >= min_chunk_size(),
        pendings.len() == bufs.len() + 1,
        outs.len() == bufs.len(),
        pendings[0].len() == 0,
        forall|i: int| 0 <= i < bufs.len() ==> pendings[i] + #[trigger] bufs[i] == flatten(outs[i]) + pendings[i + 1],
        forall|i: int, j: int| 0 <= i < outs.len() && 0 <= j < outs[i].len() ==> (#[trigger] outs[i][j]).len() == target,
    ensures
        flatten(stream_messages(outs, pendings.last())) == flatten(bufs),
        forall|m: int| 0 <= m < concat_chunks(outs).len() ==> (#[trigger] stream_messages(outs, pendings.last())[m]).len() == target,
        forall|m: int| 0 <= m < stream_messages(outs, pendings.last()).len() ==> (#[trigger] stream_messages(outs, pendings.last())[m]).len() > 0,
{
    lemma_stream_prefix(bufs, pendings, outs, target);
    let all = concat_chunks(outs);
    let last = pendings.last();
    if last.len() > 0 {
        assert(stream_messages(outs, last).drop_last() =~= all);
        assert(flatten(stream_messages(outs, last)) == flatten(all) + last);
        assert forall|m: int| 0 <= m < all.len() implies (#[trigger] stream_messages(outs, last)[m]).len() == target by {
            assert(stream_messages(outs, last)[m] == all[m]);
        }
    } else {
        assert(flatten(all) + last =~= flatten(all));
    }
    assert forall|m: int| 0 <= m < stream_messages(outs, last).len() implies (#[trigger] stream_messages(outs, last)[m]).len() > 0 by {
        if m < all.len() {
            assert(stream_messages(outs, last)[m] == all[m]);
        }
    }
}

/// The byte sequences held in a vector of byte vectors.
pub open spec fn byte_views(v: Seq<Vec<u8>>) -> Seq<Seq<u8>> {
    Seq::new(v.len(), |i: int| v[i]@)
}

/// The smallest chunk size the writer uses.
pub open spec fn min_chunk_size() -> nat {
    65536
}

/// Buffers written bytes and cuts them into chunks of a fixed size.
pub struct ChunkWriter {
    pending: Vec<u8>,
    target_chunk_size: usize,
    emitted_chunks: usize,
    emitted_bytes: usize,
}

/// What the writer has handed out so far.
#[derive(Debug, Clone, Copy, PartialEq, Eq)]
pub struct StreamMetrics {
    pub emitted_chunks: usize,
    pub emitted_bytes: usize,
}

impl ChunkWriter {
    pub closed spec fn spec_pending(&self) -> Seq<u8> {
        self.pending@
    }

    pub closed spec fn spec_target(&self) -> nat {
        self.target_chunk_size as nat
    }

    pub closed spec fn spec_chunks(&self) -> nat {
        self.emitted_chunks as nat
    }

    pub closed spec fn spec_bytes(&self) -> nat {
        self.emitted_bytes as nat
    }

    /// The writer's invariant: the chunk size is at least the minimum and
    /// fewer than a chunk's worth of bytes wait.
    pub closed spec fn wf(&self) -> bool {
        &&& self.target_chunk_size >= min_chunk_size()
        &&& self.pending@.len() < self.target_chunk_size
    }

    /// A writer for chunks of `target_chunk_size` bytes, raised to the minimum.
    pub fn new(target_chunk_size: usize) -> (r: Self)
        ensures
            r.wf(),
            r.spec_target() == if target_chunk_size >= 65536 {
                target_chunk_size as nat
            } else {
                min_chunk_size()
            },
            r.spec_pending().len() == 0,
            r.spec_chunks() == 0,
            r.spec_bytes() == 0,
    {
        let chunk_size = if target_chunk_size >= 65536 {
            target_chunk_size
        } else {
            65536
        };
        ChunkWriter {
            pending: Vec::new(),
            target_chunk_size: chunk_size,
            emitted_chunks: 0,
            emitted_bytes: 0,
        }
    }

    /// The counts of chunks and bytes handed out.
    pub fn metrics(&self) -> (r: StreamMetrics)
        ensures
            r.emitted_chunks == self.spec_chunks(),
            r.emitted_bytes == self.spec_bytes(),
    {
        StreamMetrics { emitted_chunks: self.emitted_chunks, emitted_bytes: self.emitted_bytes }
    }

    /// Takes `buf` and returns the full chunks now ready to send; the rest
    /// waits. No byte is lost, reordered or duplicated: the pending bytes
    /// before the call followed by `buf` are the returned chunks followed by
    /// the pending bytes after it.
    pub fn write(&mut self, buf: &[u8]) -> (chunks: Vec<Vec<u8>>)
        requires
            old(self).wf(),
            old(self).spec_bytes() + old(self).spec_pending().len() + buf@.len() <= usize::MAX,
            old(self).spec_chunks() + old(self).spec_pending().len() + buf@.len() <= usize::MAX,
        ensures
            final(self).wf(),
            final(self).spec_target() == old(self).spec_target(),
            old(self).spec_pending() + buf@ == flatten(byte_views(chunks@)) + final(self).spec_pending(),
            forall|i: int| 0 <= i < chunks@.len() ==> (#[trigger] chunks@[i])@.len() == old(self).spec_target(),
            final(self).spec_chunks() == old(self).spec_chunks() + chunks@.len(),
            final(self).spec_bytes() == old(self).spec_bytes() + flatten(byte_views(chunks@)).len(),
    {
        let mut all: Vec<u8> = Vec::new();
        let mut i: usize = 0;
        while i < self.pending.len()
            invariant
                0 <= i <= self.pending.len(),
                all@ =~= self.pending@.subrange(0, i as int),
            decreases self.pending.len() - i,
        {
            all.push(self.pending[i]);
            i += 1;
        }
        let mut j: usize = 0;
        while j < buf.len()
            invariant
                0 <= j <= buf.len(),
                all@ =~= self.pending@ + buf@.subrange(0, j as int),
            decreases buf.len() - j,
        {
            all.push(buf[j]);
            j += 1;
        }
        assert(buf@.subrange(0, buf@.len() as int) =~= buf@);
        let target = self.target_chunk_size;
        let mut chunks: Vec<Vec<u8>> = Vec::new();
        let mut start: usize = 0;
        while all.len() - start >= target
            invariant
                0 <= start <= all.len(),
                target >= 65536,
                all@ == old(self).pending@ + buf@,
                flatten(byte_views(chunks@)) =~= all@.subrange(0, start as int),
                chunks@.len() <= start,
                forall|k: int| 0 <= k < chunks@.len() ==> (#[trigger] chunks@[k])@.len() == target,
            decreases all.len() - start,
        {
            let mut chunk: Vec<u8> = Vec::new();
            let mut k: usize = 0;
            while k < target
                invariant
                    0 <= k <= target,
                    start + target <= all.len(),
                    chunk@ =~= all@.subrange(start as int, start + k),
                decreases target - k,
            {
                chunk.push(all[start + k]);
                k += 1;
            }
            let ghost before = chunks@;
            chunks.push(chunk);
            assert(byte_views(chunks@).drop_last() =~= byte_views(before));
            assert(byte_views(chunks@).last() == all@.subrange(start as int, start + target));
            assert(all@.subrange(0, start as int) + all@.subrange(start as int, start + target)
                =~= all@.subrange(0, start + target));
            start = start + target;
            assert forall|k: int| 0 <= k < chunks@.len() implies (#[trigger] chunks@[k])@.len()
                == target by {
                if k < before.len() {
                    assert(chunks@[k] == before[k]);
                }
            }
        }
        let mut rest: Vec<u8> = Vec::new();
        let mut r = start;
        while r < all.len()
            invariant
                start <= r <= all.len(),
                rest@ =~= all@.subrange(start as int, r as int),
            decreases all.len() - r,
        {
            rest.push(all[r]);
            r += 1;
        }
        assert(all@ =~= all@.subrange(0, start as int) + all@.subrange(start as int, all@.len() as int));
        proof {
            assert(flatten(byte_views(chunks@)).len() == start);
        }
        assert(all@.len() == old(self).pending@.len() + buf@.len());
        self.pending = rest;
        self.emitted_chunks = self.emitted_chunks + chunks.len();
        self.emitted_bytes = self.emitted_bytes + start;
        chunks
    }

    /// Hands out the bytes still waiting, if there are any.
    pub fn flush(&mut self) -> (chunk: Option<Vec<u8>>)
        requires
            old(self).wf(),
            old(self).spec_bytes() + old(self).spec_pending().len() <= usize::MAX,
            old(self).spec_chunks() + 1 <= usize::MAX,
        ensures
            final(self).wf(),
            final(self).spec_target() == old(self).spec_target(),
            final(self).spec_pending().len() == 0,
            match chunk {
                Some(c) => c@ == old(self).spec_pending() && c@.len() > 0 && final(self).spec_chunks()
                    == old(self).spec_chunks() + 1 && final(self).spec_bytes() == old(self).spec_bytes()
                    + c@.len(),
                None => old(self).spec_pending().len() == 0 && final(self).spec_chunks()
                    == old(self).spec_chunks() && final(self).spec_bytes() == old(self).spec_bytes(),
            },
    {
        if self.pending.len() == 0 {
            return None;
        }
        let mut chunk: Vec<u8> = Vec::new();
        std::mem::swap(&mut chunk, &mut self.pending);
        self.emitted_chunks = self.emitted_chunks + 1;
        self.emitted_bytes = self.emitted_bytes + chunk.len();
        Some(chunk)
    }
}

} // verus!
