//! The firmware-transfer protocol: an image is split into fixed-size
//! chunks, sent strictly in order, one acknowledged write per chunk, with a
//! progress percentage reported after each acknowledgment. Any failed
//! chunk write aborts the transfer at once; an empty image needs no chunks
//! and completes immediately.

use vstd::prelude::*;
use vstd::arithmetic::div_mod::{
    lemma_div_is_ordered, lemma_div_is_ordered_by_denominator, lemma_div_multiples_vanish,
    lemma_div_plus_one, lemma_fundamental_div_mod, lemma_hoist_over_denominator,
};
use crate::errors::BleError;

verus! {

/// Number of payload bytes in one chunk, fixed by the link's negotiated
/// payload limit.
pub const CHUNK_SIZE: usize = 20;

/// Number of chunks an image of `len` bytes needs: the ceiling of
/// `len / CHUNK_SIZE`. An empty image needs none.
pub open spec fn spec_total_chunks(len: nat) -> nat {
    ((len + CHUNK_SIZE - 1) / (CHUNK_SIZE as int)) as nat
}

/// The bytes of chunk `i`: a full `CHUNK_SIZE` slice, except that the last
/// chunk ends at the image's end.
pub open spec fn spec_chunk(image: Seq<u8>, i: nat) -> Seq<u8>
    recommends
        i < spec_total_chunks(image.len()),
{
    let start = (i * CHUNK_SIZE) as int;
    let end = if (i + 1) * CHUNK_SIZE <= image.len() {
        ((i + 1) * CHUNK_SIZE) as int
    } else {
        image.len() as int
    };
    image.subrange(start, end)
}

/// The first `k` chunks of the image, concatenated in sending order.
pub open spec fn spec_chunks_concat(image: Seq<u8>, k: nat) -> Seq<u8>
    decreases k,
{
    if k == 0 {
        Seq::empty()
    } else {
        spec_chunks_concat(image, (k - 1) as nat) + spec_chunk(image, (k - 1) as nat)
    }
}

/// The progress percentage reported after `done` of `total` chunks.
pub open spec fn spec_progress(done: nat, total: nat) -> nat
    recommends
        0 < total,
        done <= total,
{
    done * 100 / total
}

/// Bounds tying the chunk count to the image length: the chunks cover the
/// image, the last one is non-empty, and an exact multiple of the chunk
/// size produces no trailing empty chunk.
pub proof fn lemma_total_chunks_bounds(len: nat)
    ensures
        len <= spec_total_chunks(len) * CHUNK_SIZE,
        spec_total_chunks(len) * CHUNK_SIZE < len + CHUNK_SIZE,
        (spec_total_chunks(len) == 0) <==> (len == 0),
{
    let c = CHUNK_SIZE as int;
    let q = (len as int) / c;
    let r = (len as int) % c;
    lemma_fundamental_div_mod(len as int, c);
    if r == 0 {
        assert((len + c - 1) as int == (c - 1) + q * c);
        lemma_hoist_over_denominator(c - 1, q, CHUNK_SIZE as nat);
        assert(((c - 1) + q * c) / c == (c - 1) / c + q);
        assert((c - 1) / c == 0) by {
            assert(c == 20);
        }
        assert(spec_total_chunks(len) == q);
    } else {
        assert((len + c - 1) as int == (r - 1) + (q + 1) * c) by {
            assert(len as int == q * c + r);
            assert((q + 1) * c == q * c + c) by (nonlinear_arith);
        }
        lemma_hoist_over_denominator(r - 1, q + 1, CHUNK_SIZE as nat);
        assert(((r - 1) + (q + 1) * c) / c == (r - 1) / c + (q + 1));
        assert((r - 1) / c == 0) by {
            assert(c == 20);
            assert(0 <= r - 1 < 20);
        }
        assert(spec_total_chunks(len) == q + 1);
        assert((q + 1) * c == q * c + c) by (nonlinear_arith);
    }
}

/// Number of chunks an image of `len` bytes needs.
pub fn total_chunks(len: usize) -> (n: usize)
    ensures
        n == spec_total_chunks(len as nat),
{
    if len == 0 {
        0
    } else {
        proof {
            lemma_div_plus_one((len - 1) as int, CHUNK_SIZE as int);
            assert((len - 1) as int + CHUNK_SIZE == (len + CHUNK_SIZE - 1) as int);
        }
        1 + (len - 1) / CHUNK_SIZE
    }
}

/// The first `k` chunks concatenate to exactly the first
/// `min(k * CHUNK_SIZE, len)` bytes of the image.
proof fn lemma_concat_is_prefix(image: Seq<u8>, k: nat)
    requires
        k <= spec_total_chunks(image.len()),
    ensures
        spec_chunks_concat(image, k) == if k * CHUNK_SIZE <= image.len() {
            image.take((k * CHUNK_SIZE) as int)
        } else {
            image
        },
    decreases k,
{
    if k == 0 {
        assert(spec_chunks_concat(image, 0) =~= image.take(0));
    } else {
        let prev = (k - 1) as nat;
        let total = spec_total_chunks(image.len());
        lemma_concat_is_prefix(image, prev);
        lemma_total_chunks_bounds(image.len());
        assert(prev * CHUNK_SIZE + CHUNK_SIZE == k * CHUNK_SIZE) by (nonlinear_arith)
            requires
                prev + 1 == k,
        ;
        assert(k * CHUNK_SIZE <= total * CHUNK_SIZE) by (nonlinear_arith)
            requires
                k <= total,
        ;
        assert(prev * CHUNK_SIZE <= image.len()) by {
            assert(total * CHUNK_SIZE < image.len() + CHUNK_SIZE);
        }
        if k * CHUNK_SIZE <= image.len() {
            assert(spec_chunk(image, prev) == image.subrange(
                (prev * CHUNK_SIZE) as int,
                (k * CHUNK_SIZE) as int,
            ));
            assert(spec_chunks_concat(image, k) =~= image.take((k * CHUNK_SIZE) as int));
        } else {
            assert(spec_chunk(image, prev) == image.subrange(
                (prev * CHUNK_SIZE) as int,
                image.len() as int,
            ));
            assert(spec_chunks_concat(image, k) =~= image);
        }
    }
}

/// Law (chunking correctness): all chunks of an image, concatenated in
/// sending order, reconstruct the image exactly.
pub proof fn lemma_chunks_reconstruct_image(image: Seq<u8>)
    ensures
        spec_chunks_concat(image, spec_total_chunks(image.len())) == image,
{
    let total = spec_total_chunks(image.len());
    lemma_total_chunks_bounds(image.len());
    lemma_concat_is_prefix(image, total);
    if total * CHUNK_SIZE <= image.len() {
        assert(image.take((total * CHUNK_SIZE) as int) =~= image);
    }
}

/// Law (transfer completion): the progress reported after the last chunk of
/// any transfer is exactly 100.
pub proof fn lemma_progress_completes(total: nat)
    requires
        0 < total,
    ensures
        spec_progress(total, total) == 100,
{
    lemma_div_multiples_vanish(100, total as int);
}

/// Law (progress starts above zero): the first report of a transfer of at
/// most 100 chunks is at least 1. A transfer of more than 100 chunks
/// reports 0 after its first chunk, since each chunk is less than one
/// percent of the image.
pub proof fn lemma_progress_starts_positive(total: nat)
    requires
        0 < total <= 100,
    ensures
        spec_progress(1, total) >= 1,
{
    lemma_div_is_ordered_by_denominator(100, total as int, 100);
}

/// Law (progress monotonicity): within one transfer, later reports are
/// never smaller.
pub proof fn lemma_progress_monotonic(total: nat, i: nat, j: nat)
    requires
        0 < total,
        i <= j,
    ensures
        spec_progress(i, total) <= spec_progress(j, total),
{
    assert(i * 100 <= j * 100) by (nonlinear_arith)
        requires
            i <= j,
    ;
    lemma_div_is_ordered((i * 100) as int, (j * 100) as int, total as int);
}

/// Law (strict progress monotonicity): in a transfer of at most 100 chunks,
/// each report is strictly larger than the one before it.
pub proof fn lemma_progress_strictly_increasing(total: nat, i: nat)
    requires
        0 < total <= 100,
        i + 1 <= total,
    ensures
        spec_progress(i, total) < spec_progress(i + 1, total),
{
    let t = total as int;
    let x = (i * 100) as int;
    assert((i + 1) * 100 == i * 100 + 100) by (nonlinear_arith);
    lemma_div_plus_one(x, t);
    lemma_div_is_ordered(x + t, x + 100, t);
}

/// Chunks acknowledged when a transfer of `total` chunks is driven against
/// the per-chunk write outcomes `acks`: chunks are sent in order and the
/// first failed write aborts the run.
pub open spec fn spec_run_sent(acks: Seq<bool>, total: nat) -> nat
    decreases total,
{
    if total == 0 || acks.len() == 0 {
        0
    } else if !acks[0] {
        0
    } else {
        1 + spec_run_sent(acks.drop_first(), (total - 1) as nat)
    }
}

/// Law (abort on failure): if the write of chunk `k` is the first to fail,
/// exactly `k` chunks were acknowledged when the transfer aborts, and no
/// later chunk is attempted.
pub proof fn lemma_abort_after_k_chunks(acks: Seq<bool>, total: nat, k: nat)
    requires
        k < total,
        k < acks.len(),
        !acks[k as int],
        forall|j: int| 0 <= j < k ==> acks[j],
    ensures
        spec_run_sent(acks, total) == k,
    decreases k,
{
    if k == 0 {
    } else {
        assert(acks[0]);
        lemma_abort_after_k_chunks(acks.drop_first(), (total - 1) as nat, (k - 1) as nat);
    }
}

/// Law (completion): if every chunk's write is acknowledged, the run sends
/// all `total` chunks.
pub proof fn lemma_run_completes(acks: Seq<bool>, total: nat)
    requires
        total <= acks.len(),
        forall|j: int| 0 <= j < total ==> acks[j],
    ensures
        spec_run_sent(acks, total) == total,
    decreases total,
{
    if total == 0 {
    } else {
        lemma_run_completes(acks.drop_first(), (total - 1) as nat);
    }
}

/// One firmware transfer: the image, and how many of its chunks have been
/// acknowledged so far. Instances are ephemeral: one per transfer request,
/// discarded when the transfer completes or aborts.
pub struct FirmwareTransfer {
    image: Vec<u8>,
    sent: usize,
}

impl FirmwareTransfer {
    /// The image under transfer.
    pub closed spec fn image_seq(self) -> Seq<u8> {
        self.image@
    }

    /// Chunks acknowledged so far.
    pub closed spec fn chunks_sent(self) -> nat {
        self.sent as nat
    }

    /// Chunks the whole image needs.
    pub open spec fn total(self) -> nat {
        spec_total_chunks(self.image_seq().len())
    }

    pub open spec fn wf(self) -> bool {
        self.chunks_sent() <= self.total()
    }

    /// Start a transfer of `image`: nothing has been sent yet.
    pub fn new(image: Vec<u8>) -> (t: Self)
        ensures
            t.image_seq() == image@,
            t.chunks_sent() == 0,
            t.wf(),
    {
        FirmwareTransfer { image, sent: 0 }
    }

    /// Chunks the whole image needs.
    pub fn total_chunks(&self) -> (n: usize)
        ensures
            n == self.total(),
    {
        total_chunks(self.image.len())
    }

    /// Whether every chunk has been acknowledged. An empty image is
    /// complete at once: zero chunks, immediate success.
    pub fn is_complete(&self) -> (b: bool)
        requires
            self.wf(),
        ensures
            b == (self.chunks_sent() == self.total()),
    {
        let total = self.total_chunks();
        self.sent == total
    }

    /// The next chunk to send, or `None` when the transfer is complete.
    /// Chunks are handed out strictly in order, and only after the
    /// previous one was acknowledged.
    pub fn next_chunk(&self) -> (c: Option<Vec<u8>>)
        requires
            self.wf(),
        ensures
            match c {
                Some(bytes) => self.chunks_sent() < self.total() && bytes@ == spec_chunk(
                    self.image_seq(),
                    self.chunks_sent(),
                ),
                None => self.chunks_sent() == self.total(),
            },
    {
        let total = self.total_chunks();
        if self.sent == total {
            return None;
        }
        let len = self.image.len();
        proof {
            lemma_total_chunks_bounds(self.image@.len());
            let s = self.sent as int;
            let t = self.total() as int;
            assert(s + 1 <= t);
            assert((s + 1) * CHUNK_SIZE <= t * CHUNK_SIZE) by (nonlinear_arith)
                requires
                    s + 1 <= t,
            ;
            assert((s + 1) * CHUNK_SIZE == s * CHUNK_SIZE + CHUNK_SIZE) by (nonlinear_arith);
            assert(s * CHUNK_SIZE + CHUNK_SIZE <= len + CHUNK_SIZE);
            assert(s * CHUNK_SIZE <= len);
        }
        let start = self.sent * CHUNK_SIZE;
        let end = if len - start > CHUNK_SIZE {
            start + CHUNK_SIZE
        } else {
            len
        };
        let mut bytes: Vec<u8> = Vec::new();
        let mut j = start;
        while j < end
            invariant
                start <= j <= end,
                end <= self.image@.len(),
                bytes@ == self.image@.subrange(start as int, j as int),
            decreases end - j,
        {
            bytes.push(self.image[j]);
            proof {
                assert(self.image@.subrange(start as int, j + 1) =~= self.image@.subrange(
                    start as int,
                    j as int,
                ).push(self.image@[j as int]));
            }
            j += 1;
        }
        proof {
            assert(bytes@ == spec_chunk(self.image_seq(), self.chunks_sent()));
        }
        Some(bytes)
    }

    /// Record the acknowledgment of the chunk just sent, and report the
    /// progress percentage owed after it.
    pub fn acknowledge(&mut self) -> (p: u8)
        requires
            old(self).wf(),
            old(self).chunks_sent() < old(self).total(),
        ensures
            final(self).image_seq() == old(self).image_seq(),
            final(self).chunks_sent() == old(self).chunks_sent() + 1,
            final(self).wf(),
            p == spec_progress(final(self).chunks_sent(), final(self).total()),
    {
        let total = self.total_chunks();
        self.sent = self.sent + 1;
        let done128: u128 = self.sent as u128;
        let total128: u128 = total as u128;
        proof {
            let d = done128 as int;
            let t = total128 as int;
            assert(d * 100 <= t * 100) by (nonlinear_arith)
                requires
                    d <= t,
            ;
            lemma_div_is_ordered(d * 100, t * 100, t);
            lemma_div_multiples_vanish(100, t);
        }
        let p128: u128 = done128 * 100 / total128;
        p128 as u8
    }
}

/// Map the outcome of one acknowledged radio write to the transfer's
/// verdict on it: a failed write is a transport failure, which aborts the
/// transfer.
pub fn write_outcome(ok: bool) -> (r: Result<(), BleError>)
    ensures
        r == if ok {
            Ok::<(), BleError>(())
        } else {
            Err::<(), BleError>(BleError::TransportError)
        },
{
    if ok {
        Ok(())
    } else {
        Err(BleError::TransportError)
    }
}

/// Verdict on one progress emission: a failed delivery is an
/// `EventSinkError`, distinguished from a transport failure. By policy it
/// is reported to the caller but does not abort the remaining chunks.
pub fn sink_outcome(delivered: bool) -> (r: Result<(), BleError>)
    ensures
        r == if delivered {
            Ok::<(), BleError>(())
        } else {
            Err::<(), BleError>(BleError::EventSinkError)
        },
{
    if delivered {
        Ok(())
    } else {
        Err(BleError::EventSinkError)
    }
}

} // verus!
