use vstd::prelude::*;

verus! {

/// Number of input frames handed to the rate converter in one call.
pub const RESAMPLE_CHUNK: usize = 1024;

/// The fixed rate, in frames per second, that recognition input must have.
pub const TARGET_RATE: u32 = 16000;

/// What the rate converter's driver receives for one recording: either the
/// samples unchanged, or fixed-size input chunks with the last one
/// zero-padded. Running the converter itself is the driver's task; the
/// library fixes exactly what is fed to it.
#[derive(Clone, PartialEq, Eq, Debug)]
pub enum ResamplePlan {
    /// The source already runs at [`TARGET_RATE`]: the samples pass through.
    Identity { samples: Vec<i16> },
    /// Full chunks of [`RESAMPLE_CHUNK`] samples covering the recording in
    /// order; the driver feeds them to one converter instance, first to last.
    Chunked { chunks: Vec<Vec<i16>>, source_rate: u32 },
}

/// All chunks joined in order.
pub open spec fn concat_chunks(chunks: Seq<Seq<i16>>) -> Seq<i16>
    decreases chunks.len(),
{
    if chunks.len() == 0 {
        Seq::empty()
    } else {
        concat_chunks(chunks.drop_last()) + chunks.last()
    }
}

pub proof fn lemma_concat_chunks_push(chunks: Seq<Seq<i16>>, c: Seq<i16>)
    ensures
        concat_chunks(chunks.push(c)) == concat_chunks(chunks) + c,
{
    assert(chunks.push(c).drop_last() =~= chunks);
    assert(chunks.push(c).last() == c);
}

/// The views of a vector of chunks.
pub open spec fn chunk_views(chunks: Seq<Vec<i16>>) -> Seq<Seq<i16>> {
    chunks.map_values(|c: Vec<i16>| c@)
}

/// The sample at `idx` of the zero-extension of `s`.
pub open spec fn padded_at(s: Seq<i16>, idx: int) -> i16 {
    if idx < s.len() {
        s[idx]
    } else {
        0i16
    }
}

/// `chunks` covers `samples` completely and in order: every chunk holds
/// exactly [`RESAMPLE_CHUNK`] samples, joining them gives the recording
/// followed by zero padding, and the padding is shorter than one chunk, so
/// no trailing samples are dropped and no needless chunk is added.
pub open spec fn chunking_of(chunks: Seq<Seq<i16>>, samples: Seq<i16>) -> bool {
    let total = concat_chunks(chunks);
    &&& forall|i: int| 0 <= i < chunks.len() ==> (#[trigger] chunks[i]).len() == RESAMPLE_CHUNK
    &&& samples.len() <= total.len() < samples.len() + RESAMPLE_CHUNK
    &&& total.subrange(0, samples.len() as int) == samples
    &&& forall|k: int| samples.len() <= k < total.len() ==> total[k] == 0i16
}

/// The one correct plan for a recording: identity exactly when the source
/// already runs at the target rate, otherwise a complete chunking.
pub open spec fn plan_for(plan: ResamplePlan, samples: Seq<i16>, source_rate: u32) -> bool {
    match plan {
        ResamplePlan::Identity { samples: kept } => {
            &&& source_rate == TARGET_RATE
            &&& kept@ == samples
        },
        ResamplePlan::Chunked { chunks, source_rate: rate } => {
            &&& source_rate != TARGET_RATE
            &&& rate == source_rate
            &&& chunking_of(chunk_views(chunks@), samples)
        },
    }
}

/// Plan the conversion of a recording to [`TARGET_RATE`]: pass the samples
/// through when the rates already agree, otherwise cut them into full
/// converter chunks, zero-padding the final one rather than dropping it.
pub fn resample_to_16khz(samples: Vec<i16>, source_rate: u32) -> (plan: ResamplePlan)
    requires
        samples@.len() + RESAMPLE_CHUNK <= usize::MAX,
    ensures
        plan_for(plan, samples@, source_rate),
{
    if source_rate == TARGET_RATE {
        return ResamplePlan::Identity { samples };
    }
    let n = samples.len();
    let mut chunks: Vec<Vec<i16>> = Vec::new();
    let mut i: usize = 0;
    while i < n
        invariant
            samples@.len() == n,
            n + RESAMPLE_CHUNK <= usize::MAX,
            i == chunks@.len() * RESAMPLE_CHUNK,
            i < n + RESAMPLE_CHUNK,
            forall|t: int| 0 <= t < chunks@.len() ==> chunk_views(chunks@)[t].len()
                == RESAMPLE_CHUNK,
            concat_chunks(chunk_views(chunks@)).len() == i,
            forall|idx: int| 0 <= idx < i ==> concat_chunks(chunk_views(chunks@))[idx]
                == padded_at(samples@, idx),
        decreases n + RESAMPLE_CHUNK - i,
    {
        let ghost prev_chunks = chunks@;
        let mut chunk: Vec<i16> = Vec::new();
        let mut j: usize = 0;
        while j < RESAMPLE_CHUNK
            invariant
                samples@.len() == n,
                n + RESAMPLE_CHUNK <= usize::MAX,
                i < n,
                j <= RESAMPLE_CHUNK,
                chunk@.len() == j,
                forall|t: int| 0 <= t < j ==> chunk@[t] == padded_at(samples@, i + t),
            decreases RESAMPLE_CHUNK - j,
        {
            if i + j < n {
                chunk.push(samples[i + j]);
            } else {
                chunk.push(0i16);
            }
            j += 1;
        }
        proof {
            lemma_concat_chunks_push(chunk_views(prev_chunks), chunk@);
            assert(chunk_views(prev_chunks.push(chunk)) =~= chunk_views(prev_chunks).push(
                chunk@,
            ));
        }
        chunks.push(chunk);
        i += RESAMPLE_CHUNK;
    }
    proof {
        let total = concat_chunks(chunk_views(chunks@));
        assert forall|k: int| n <= k < total.len() implies total[k] == 0i16 by {
            assert(total[k] == padded_at(samples@, k));
        }
        assert forall|idx: int| 0 <= idx < n implies total.subrange(0, n as int)[idx]
            == samples@[idx] by {
            assert(total[idx] == padded_at(samples@, idx));
        }
        assert(total.subrange(0, n as int) =~= samples@);
    }
    ResamplePlan::Chunked { chunks, source_rate }
}

} // verus!
