//! Turning a sequence of samples into the bulk transfers the device takes:
//! batches of at most `SAMPLES_PER_BATCH` samples, and their wire bytes.

use vstd::prelude::*;
use vstd::math::min;

use crate::sample::{sample_bytes, LaserdockSample};
use crate::{SAMPLES_PER_BATCH, SAMPLE_SIZE};

verus! {

/// The wire bytes of a sequence of samples, one record after another.
pub open spec fn samples_bytes(s: Seq<LaserdockSample>) -> Seq<u8>
    decreases s.len(),
{
    if s.len() == 0 {
        seq![]
    } else {
        samples_bytes(s.drop_last()) + sample_bytes(s.last()@)
    }
}

/// Number of batches that `len` samples take: `len / SAMPLES_PER_BATCH`
/// rounded up.
pub open spec fn batch_count(len: nat) -> nat {
    ((len + SAMPLES_PER_BATCH - 1) / SAMPLES_PER_BATCH as int) as nat
}

/// Length of the last batch of a nonempty sequence of `len` samples.
pub open spec fn last_batch_len(len: nat) -> int {
    if len % (SAMPLES_PER_BATCH as nat) == 0 {
        SAMPLES_PER_BATCH as int
    } else {
        (len % (SAMPLES_PER_BATCH as nat)) as int
    }
}

/// The `i`-th batch of `s`: its samples from `i * SAMPLES_PER_BATCH` on,
/// at most `SAMPLES_PER_BATCH` of them.
pub open spec fn batch_at<T>(s: Seq<T>, i: int) -> Seq<T> {
    s.subrange(SAMPLES_PER_BATCH * i, min(SAMPLES_PER_BATCH * i + SAMPLES_PER_BATCH, s.len() as int))
}

/// `s` cut into consecutive batches.
pub open spec fn batches_of<T>(s: Seq<T>) -> Seq<Seq<T>> {
    Seq::new(batch_count(s.len()), |i: int| batch_at(s, i))
}

/// Cutting a sequence into batches gives `ceil(len / SAMPLES_PER_BATCH)`
/// batches of 1 to `SAMPLES_PER_BATCH` samples; all but the last are full,
/// the last holds `len % SAMPLES_PER_BATCH` samples (a full batch when that
/// is 0), and the batches laid end to end are the sequence itself.
pub proof fn lemma_batches<T>(s: Seq<T>)
    ensures
        batches_of(s).len() == (s.len() + SAMPLES_PER_BATCH - 1) / SAMPLES_PER_BATCH as int,
        forall|i: int|
            0 <= i < batches_of(s).len() ==> 1 <= #[trigger] batches_of(s)[i].len()
                <= SAMPLES_PER_BATCH,
        forall|i: int|
            0 <= i < batches_of(s).len() - 1 ==> #[trigger] batches_of(s)[i].len()
                == SAMPLES_PER_BATCH,
        s.len() > 0 ==> batches_of(s).last().len() == last_batch_len(s.len()),
        batches_of(s).flatten() == s,
    decreases s.len(),
{
    let n = SAMPLES_PER_BATCH as int;
    assert(n == 8);
    if s.len() > n {
        let rest = s.subrange(n, s.len() as int);
        lemma_batches(rest);
        assert(batches_of(s) =~= seq![s.subrange(0, n)] + batches_of(rest)) by {
            assert forall|i: int| 0 <= i < batches_of(s).len() implies batches_of(s)[i] =~= (
            seq![s.subrange(0, n)] + batches_of(rest))[i] by {
                if i > 0 {
                    assert(batch_at(s, i) =~= batch_at(rest, i - 1));
                }
            }
        }
        assert((seq![s.subrange(0, n)] + batches_of(rest)).drop_first() =~= batches_of(rest));
        assert(s =~= s.subrange(0, n) + rest);
        assert(batches_of(s).flatten() == s.subrange(0, n) + batches_of(rest).flatten());
    } else if s.len() > 0 {
        assert(batch_count(s.len()) == 1);
        assert(batch_at(s, 0) =~= s);
        assert(batches_of(s) =~= seq![s]);
        assert(seq![s].drop_first() =~= Seq::<Seq<T>>::empty());
        assert(Seq::<Seq<T>>::empty().flatten() =~= Seq::<T>::empty());
        assert(s + Seq::<T>::empty() =~= s);
        assert(seq![s].flatten() == s);
    } else {
        assert(batches_of(s) =~= Seq::<Seq<T>>::empty());
    }
}

/// The wire bytes of two sequences laid end to end are the wire bytes of
/// the first followed by those of the second.
pub proof fn lemma_samples_bytes_append(a: Seq<LaserdockSample>, b: Seq<LaserdockSample>)
    ensures
        samples_bytes(a + b) == samples_bytes(a) + samples_bytes(b),
    decreases b.len(),
{
    if b.len() == 0 {
        assert(a + b =~= a);
        assert(samples_bytes(a) + samples_bytes(b) =~= samples_bytes(a));
    } else {
        lemma_samples_bytes_append(a, b.drop_last());
        assert((a + b).drop_last() =~= a + b.drop_last());
        assert((a + b).last() == b.last());
        assert(samples_bytes(a + b) =~= samples_bytes(a) + samples_bytes(b));
    }
}

/// The wire bytes of each of `q`'s sequences, laid end to end, are the wire
/// bytes of `q`'s sequences laid end to end.
proof fn lemma_flatten_bytes(q: Seq<Seq<LaserdockSample>>)
    ensures
        q.map_values(|b: Seq<LaserdockSample>| samples_bytes(b)).flatten() == samples_bytes(
            q.flatten(),
        ),
    decreases q.len(),
{
    let f = |b: Seq<LaserdockSample>| samples_bytes(b);
    if q.len() == 0 {
        assert(q.map_values(f) =~= Seq::<Seq<u8>>::empty());
        assert(samples_bytes(Seq::<LaserdockSample>::empty()) =~= Seq::<u8>::empty());
    } else {
        lemma_flatten_bytes(q.drop_first());
        assert(q.map_values(f).drop_first() =~= q.drop_first().map_values(f));
        lemma_samples_bytes_append(q.first(), q.drop_first().flatten());
    }
}

/// Sending the batches of `s` one after another, in order, puts exactly the
/// wire bytes of `s` on the bus.
pub proof fn lemma_batches_bytes(s: Seq<LaserdockSample>)
    ensures
        batches_of(s).map_values(|b: Seq<LaserdockSample>| samples_bytes(b)).flatten()
            == samples_bytes(s),
{
    lemma_batches(s);
    lemma_flatten_bytes(batches_of(s));
}

fn copy_range(samples: &[LaserdockSample], lo: usize, hi: usize) -> (r: Vec<LaserdockSample>)
    requires
        lo <= hi <= samples@.len(),
    ensures
        r@ == samples@.subrange(lo as int, hi as int),
{
    let mut out: Vec<LaserdockSample> = Vec::new();
    let mut j: usize = lo;
    while j < hi
        invariant
            lo <= j <= hi <= samples@.len(),
            out@ == samples@.subrange(lo as int, j as int),
        decreases hi - j,
    {
        out.push(samples[j]);
        j = j + 1;
        assert(out@ =~= samples@.subrange(lo as int, j as int));
    }
    out
}

/// Cuts `samples` into the batches that are sent one transfer each, in order.
pub fn batches(samples: &[LaserdockSample]) -> (r: Vec<Vec<LaserdockSample>>)
    ensures
        r@.len() == batches_of(samples@).len(),
        forall|i: int| 0 <= i < r@.len() ==> #[trigger] r@[i]@ == batches_of(samples@)[i],
{
    let n = samples.len();
    let mut out: Vec<Vec<LaserdockSample>> = Vec::new();
    let mut lo: usize = 0;
    loop
        invariant_except_break
            lo == SAMPLES_PER_BATCH * out@.len(),
        invariant
            n == samples@.len(),
            lo <= n,
            forall|i: int| 0 <= i < out@.len() ==> #[trigger] out@[i]@ == batch_at(samples@, i),
        ensures
            out@.len() == batch_count(n as nat),
            forall|i: int| 0 <= i < out@.len() ==> #[trigger] out@[i]@ == batch_at(samples@, i),
        decreases n - lo,
    {
        assert(SAMPLES_PER_BATCH == 8);
        if lo == n {
            break;
        }
        if n - lo <= SAMPLES_PER_BATCH {
            let batch = copy_range(samples, lo, n);
            assert(batch@ =~= batch_at(samples@, out@.len() as int));
            out.push(batch);
            break;
        }
        let batch = copy_range(samples, lo, lo + SAMPLES_PER_BATCH);
        assert(batch@ =~= batch_at(samples@, out@.len() as int));
        out.push(batch);
        lo = lo + SAMPLES_PER_BATCH;
    }
    out
}

/// The wire bytes of `samples`, one 8-byte record after another.
pub fn encode_samples(samples: &[LaserdockSample]) -> (r: Vec<u8>)
    ensures
        r@ == samples_bytes(samples@),
        r@.len() == SAMPLE_SIZE * samples@.len(),
{
    let mut out: Vec<u8> = Vec::new();
    let mut i: usize = 0;
    while i < samples.len()
        invariant
            i <= samples@.len(),
            out@ == samples_bytes(samples@.subrange(0, i as int)),
            out@.len() == SAMPLE_SIZE * i,
        decreases samples@.len() - i,
    {
        let rec = samples[i].to_bytes();
        let mut j: usize = 0;
        let ghost before = out@;
        while j < 8
            invariant
                j <= 8,
                rec@ == sample_bytes(samples@[i as int]@),
                out@ == before + rec@.subrange(0, j as int),
            decreases 8 - j,
        {
            out.push(rec[j]);
            j = j + 1;
            assert(out@ =~= before + rec@.subrange(0, j as int));
        }
        assert(samples@.subrange(0, i + 1).drop_last() =~= samples@.subrange(0, i as int));
        assert(rec@.subrange(0, 8) =~= rec@);
        i = i + 1;
    }
    assert(samples@.subrange(0, samples@.len() as int) =~= samples@);
    out
}

} // verus!
