use crate::resample::{plan_for, resample_to_16khz, ResamplePlan, RESAMPLE_CHUNK};
use vstd::arithmetic::div_mod::{
    lemma_div_is_ordered, lemma_div_multiples_vanish, lemma_fundamental_div_mod,
    lemma_fundamental_div_mod_converse_div, lemma_mod_bound,
};
use vstd::arithmetic::mul::lemma_mul_inequality;
use vstd::prelude::*;

verus! {

/// Failure of a capture session.
#[derive(Clone, Copy, PartialEq, Eq, Structural, Debug)]
pub enum AudioError {
    /// The session ended without a single sample: a hard failure, never an
    /// empty success.
    NoAudioRecorded,
}

impl AudioError {
    /// The message shown for this failure.
    pub fn message(&self) -> (m: String)
        ensures
            m@ == "No audio recorded"@,
    {
        String::from_str("No audio recorded")
    }
}

/// A sample of the unsigned 16-bit encoding, recentred around zero: the same
/// point of the amplitude range as a signed sample.
pub fn sample_from_u16(s: u16) -> (r: i16)
    ensures
        r as int == s as int - 32768,
{
    ((s as i32) - 32768) as i16
}

/// The sum of a sequence of samples.
pub open spec fn sample_sum(s: Seq<i16>) -> int
    decreases s.len(),
{
    if s.len() == 0 {
        0
    } else {
        sample_sum(s.drop_last()) + s.last()
    }
}

pub proof fn lemma_sample_sum_push(s: Seq<i16>, x: i16)
    ensures
        sample_sum(s.push(x)) == sample_sum(s) + x,
{
    assert(s.push(x).drop_last() =~= s);
}

pub proof fn lemma_sample_sum_bounds(s: Seq<i16>)
    ensures
        (-32768) * s.len() <= sample_sum(s) <= 32767 * s.len(),
    decreases s.len(),
{
    if s.len() > 0 {
        lemma_sample_sum_bounds(s.drop_last());
    }
}

/// The arithmetic mean of a frame of simultaneous samples, rounded down.
pub open spec fn frame_mean(frame: Seq<i16>) -> int {
    sample_sum(frame) / (frame.len() as int)
}

/// Frame `f` of interleaved `data`: the `channels` samples of one instant.
pub open spec fn frame_of(data: Seq<i16>, channels: int, f: int) -> Seq<i16> {
    data.subrange(f * channels, (f + 1) * channels)
}

/// Reduces interleaved multi-channel data to mono: every frame becomes the
/// arithmetic mean of its samples, and frame order is kept. A single-channel
/// stream passes through unchanged, the mean of one sample being itself.
pub fn downmix(data: &Vec<i16>, channels: u16) -> (mono: Vec<i16>)
    requires
        channels >= 1,
        data@.len() as int % (channels as int) == 0,
    ensures
        mono@.len() == data@.len() as int / (channels as int),
        forall|f: int|
            0 <= f < mono@.len() ==> mono@[f] == frame_mean(
                frame_of(data@, channels as int, f),
            ),
{
    let ch: usize = channels as usize;
    let n: usize = data.len();
    let n_frames: usize = n / ch;
    proof {
        lemma_fundamental_div_mod(n as int, ch as int);
    }
    let mut mono: Vec<i16> = Vec::new();
    let mut f: usize = 0;
    let mut base: usize = 0;
    while f < n_frames
        invariant
            1 <= ch <= 65535,
            data@.len() == n,
            n_frames == n as int / ch as int,
            n == (ch as int) * (n_frames as int),
            f <= n_frames,
            base == f * ch,
            mono@.len() == f,
            forall|t: int|
                0 <= t < f ==> mono@[t] == frame_mean(frame_of(data@, ch as int, t)),
        decreases n_frames - f,
    {
        proof {
            lemma_mul_inequality(f as int + 1, n_frames as int, ch as int);
            assert((f as int + 1) * (ch as int) == f as int * (ch as int) + ch as int)
                by (nonlinear_arith);
            assert((n_frames as int) * (ch as int) == (ch as int) * (n_frames as int))
                by (nonlinear_arith);
        }
        let ghost frame = data@.subrange(base as int, base as int + ch as int);
        let mut acc: u64 = 0;
        let mut j: usize = 0;
        while j < ch
            invariant
                1 <= ch <= 65535,
                data@.len() == n,
                base + ch <= n,
                j <= ch,
                frame == data@.subrange(base as int, base as int + ch as int),
                frame.len() == ch,
                acc == sample_sum(frame.subrange(0, j as int)) + j * 32768,
            decreases ch - j,
        {
            proof {
                lemma_sample_sum_bounds(frame.subrange(0, j as int));
                assert(frame.subrange(0, j as int + 1) =~= frame.subrange(0, j as int).push(
                    frame[j as int],
                ));
                lemma_sample_sum_push(frame.subrange(0, j as int), frame[j as int]);
                assert(frame[j as int] == data@[base + j]);
            }
            let s = data[base + j];
            acc = acc + (((s as i32) + 32768) as u64);
            j += 1;
        }
        proof {
            assert(frame.subrange(0, ch as int) =~= frame);
        }
        let mean_biased: u64 = acc / (ch as u64);
        proof {
            let st = sample_sum(frame);
            let chi = ch as int;
            lemma_sample_sum_bounds(frame);
            lemma_fundamental_div_mod(st, chi);
            lemma_mod_bound(st, chi);
            let q = st / chi;
            let r = st % chi;
            assert((q + 32768) * chi == chi * q + 32768 * chi) by (nonlinear_arith);
            assert(acc as int == (q + 32768) * chi + r);
            lemma_fundamental_div_mod_converse_div(acc as int, chi, q + 32768, r);
            lemma_div_is_ordered((-32768) * chi, st, chi);
            lemma_div_is_ordered(st, 32767 * chi, chi);
            lemma_div_multiples_vanish(-32768, chi);
            lemma_div_multiples_vanish(32767, chi);
        }
        let m: i16 = ((mean_biased as i64) - 32768) as i16;
        proof {
            assert(m as int == frame_mean(frame));
            assert(frame =~= frame_of(data@, ch as int, f as int));
        }
        mono.push(m);
        f += 1;
        base = base + ch;
    }
    mono
}

/// One live capture session: the mono samples gathered so far at the
/// device's own rate, and whether the session still accepts samples. The
/// shell owns the lock that shares a session between the hardware callback
/// and the controller; the session itself fixes what each operation does.
pub struct RecordingSession {
    pub samples: Vec<i16>,
    pub sample_rate: u32,
    pub active: bool,
}

impl RecordingSession {
    /// Opens an empty, active session for a device running at `sample_rate`.
    pub fn start(sample_rate: u32) -> (s: RecordingSession)
        ensures
            s.samples@.len() == 0,
            s.sample_rate == sample_rate,
            s.active,
    {
        RecordingSession { samples: Vec::new(), sample_rate, active: true }
    }

    /// Takes one callback's worth of mono samples. They are kept only while
    /// the session is active; after a stop request the block is dropped, so
    /// an in-flight callback cannot extend a drained recording.
    pub fn append_block(&mut self, block: &Vec<i16>)
        ensures
            final (self).sample_rate == old(self).sample_rate,
            final (self).active == old(self).active,
            old(self).active ==> final (self).samples@ == old(self).samples@ + block@,
            !old(self).active ==> final (self).samples@ == old(self).samples@,
    {
        if self.active {
            self.samples.extend_from_slice(block.as_slice());
            proof {
                assert(self.samples@ =~= old(self).samples@ + block@);
            }
        }
    }

    /// Marks the session inactive ahead of the drain, without touching the
    /// samples already gathered.
    pub fn deactivate(&mut self)
        ensures
            final (self).samples@ == old(self).samples@,
            final (self).sample_rate == old(self).sample_rate,
            !final (self).active,
    {
        self.active = false;
    }

    /// Drains the session. A recording without a single sample is the hard
    /// failure [`AudioError::NoAudioRecorded`]; anything else becomes the
    /// conversion plan for exactly the gathered samples.
    pub fn stop(self) -> (r: Result<ResamplePlan, AudioError>)
        requires
            self.samples@.len() + RESAMPLE_CHUNK <= usize::MAX,
        ensures
            r is Err <==> self.samples@.len() == 0,
            r is Err ==> r->Err_0 == AudioError::NoAudioRecorded,
            r is Ok ==> plan_for(r->Ok_0, self.samples@, self.sample_rate),
    {
        if self.samples.is_empty() {
            Err(AudioError::NoAudioRecorded)
        } else {
            Ok(resample_to_16khz(self.samples, self.sample_rate))
        }
    }
}

} // verus!
