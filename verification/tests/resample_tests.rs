use rubato::{FftFixedIn, Resampler};
use shy_to_text::audio::{downmix, RecordingSession};
use shy_to_text::resample::{ResamplePlan, RESAMPLE_CHUNK, TARGET_RATE};

/// Runs a plan through the real converter, as the shell does: one
/// `FftFixedIn` instance kept across all chunks of the recording.
fn drive_plan(plan: ResamplePlan) -> Vec<i16> {
    match plan {
        ResamplePlan::Identity { samples } => samples,
        ResamplePlan::Chunked { chunks, source_rate } => {
            let mut resampler = FftFixedIn::<f32>::new(
                source_rate as usize,
                TARGET_RATE as usize,
                RESAMPLE_CHUNK,
                2,
                1,
            )
            .expect("resampler construction");
            let mut out: Vec<i16> = Vec::new();
            for chunk in chunks {
                let input: Vec<Vec<f32>> =
                    vec![chunk.iter().map(|&s| s as f32 / 32768.0).collect()];
                let resampled = resampler.process(&input, None).expect("chunk processing");
                if !resampled.is_empty() {
                    out.extend(
                        resampled[0]
                            .iter()
                            .map(|&x| (x * 32768.0).clamp(-32768.0, 32767.0) as i16),
                    );
                }
            }
            out
        }
    }
}

#[test]
fn test_resample_equal_rates_is_identity() {
    let samples: Vec<i16> = (0..5000).map(|i| (i % 200) as i16).collect();
    let mut session = RecordingSession::start(16000);
    session.append_block(&samples);
    match session.stop().expect("samples were recorded") {
        ResamplePlan::Identity { samples: kept } => assert_eq!(kept, samples),
        ResamplePlan::Chunked { .. } => panic!("equal rates must pass through unchanged"),
    }
}

#[test]
fn test_chunking_pads_the_tail_instead_of_dropping_it() {
    let samples: Vec<i16> = (0..1500).map(|i| (i % 100) as i16 - 50).collect();
    let mut session = RecordingSession::start(44100);
    session.append_block(&samples);
    let plan = session.stop().expect("samples were recorded");
    match &plan {
        ResamplePlan::Chunked { chunks, source_rate } => {
            assert_eq!(*source_rate, 44100);
            assert_eq!(chunks.len(), 2);
            assert!(chunks.iter().all(|c| c.len() == RESAMPLE_CHUNK));
            let joined: Vec<i16> = chunks.iter().flatten().copied().collect();
            assert_eq!(&joined[..1500], &samples[..]);
            assert!(joined[1500..].iter().all(|&s| s == 0));
        }
        ResamplePlan::Identity { .. } => panic!("44100 != 16000 must be converted"),
    }
}

#[test]
fn test_padded_final_chunk_still_contributes_output() {
    // 1500 samples: the second, mostly-padded chunk still carries 476 real
    // samples and must add output rather than being dropped.
    let samples: Vec<i16> = (0..1500)
        .map(|i| ((i as f32 * 0.05).sin() * 8000.0) as i16)
        .collect();
    let mut session = RecordingSession::start(44100);
    session.append_block(&samples);
    let plan = session.stop().expect("samples were recorded");

    let full = drive_plan(plan);

    let first_chunk_only: Vec<i16> = samples[..RESAMPLE_CHUNK].to_vec();
    let mut session = RecordingSession::start(44100);
    session.append_block(&first_chunk_only);
    let short = drive_plan(session.stop().expect("samples were recorded"));

    assert!(
        full.len() > short.len(),
        "the zero-padded final chunk produced no output: {} vs {}",
        full.len(),
        short.len()
    );
}

#[test]
fn test_two_seconds_of_sine_resample_to_two_seconds() {
    // Two seconds of a 440 Hz tone at 44100 Hz, interleaved stereo, as a
    // capture would deliver it: downmix, accumulate, stop, convert.
    let mut session = RecordingSession::start(44100);
    let frames = 2 * 44100;
    let mut t = 0usize;
    while t < frames {
        // one callback block of 441 stereo frames
        let block: Vec<i16> = (t..t + 441)
            .flat_map(|i| {
                let x = (i as f32 * 2.0 * std::f32::consts::PI * 440.0 / 44100.0).sin();
                let s = (x * 12000.0) as i16;
                [s, s]
            })
            .collect();
        let mono = downmix(&block, 2);
        assert_eq!(mono.len(), 441);
        session.append_block(&mono);
        t += 441;
    }
    let plan = session.stop().expect("samples were recorded");
    let out = drive_plan(plan);

    // one converted chunk is ~372 output samples; padding may add up to one
    let expected = 2 * TARGET_RATE as i64;
    let frame_out = (RESAMPLE_CHUNK as i64 * TARGET_RATE as i64) / 44100;
    let diff = (out.len() as i64 - expected).abs();
    assert!(
        diff <= frame_out,
        "output length {} is not within one chunk of {}",
        out.len(),
        expected
    );
    // the tone must survive conversion: output is not silence
    assert!(out.iter().any(|&s| s.abs() > 4000));
}
