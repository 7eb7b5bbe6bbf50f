use eightvoice::audio::TARGET_SAMPLE_RATE;
use eightvoice::detector::DetectorMode;
use eightvoice::vad::{
    aggressiveness_to_mode, VadEngine, VadError, VadFrameResult, FRAME_MS, FRAME_SAMPLES,
};

/// Samples between -1 and 1 as 16-bit samples, saturating.
fn quantize(samples: &[f32]) -> Vec<i16> {
    samples
        .iter()
        .map(|s| (s.clamp(-1.0, 1.0) * i16::MAX as f32) as i16)
        .collect()
}

fn silence(samples: usize) -> Vec<f32> {
    vec![0.0; samples]
}

fn tone(freq: usize, samples: usize) -> Vec<f32> {
    (0..samples)
        .map(|i| {
            let t = i as f32 / TARGET_SAMPLE_RATE as f32;
            (2.0 * std::f32::consts::PI * freq as f32 * t).sin() * 0.3
        })
        .collect()
}

/// Bursts of a rich, wavering sound with pauses between them.
fn babble(samples: usize) -> Vec<i16> {
    let mut seed: u32 = 12345;
    (0..samples)
        .map(|i| {
            let t = i as f32 / TARGET_SAMPLE_RATE as f32;
            let on = (i / 6000) % 2 == 1;
            let pitch = 140.0 + 30.0 * (2.0 * std::f32::consts::PI * 3.0 * t).sin();
            let mut v = 0.0f32;
            for h in 1..12 {
                v += (2.0 * std::f32::consts::PI * pitch * h as f32 * t).sin() / h as f32;
            }
            seed = seed.wrapping_mul(1664525).wrapping_add(1013904223);
            let noise = (seed >> 16) as f32 / 65536.0 - 0.5;
            let s = if on { 0.3 * v + 0.05 * noise } else { 0.001 * noise };
            (s.clamp(-1.0, 1.0) * 32767.0) as i16
        })
        .collect()
}

#[test]
fn silence_yields_no_speech() {
    let mut engine = VadEngine::new(2).unwrap();
    let r = engine.process(&quantize(&silence(FRAME_SAMPLES * 3)));
    assert!(!r.any_speech, "sessizlik konuşma olarak algılanmamalı");
    assert_eq!(r.silent_frames, 3);
    assert_eq!(r.speech_frames, 0);
    assert_eq!(r.silence_ms(), 90);
}

#[test]
fn partial_frame_is_buffered() {
    let mut engine = VadEngine::new(2).unwrap();
    let r = engine.process(&quantize(&silence(200)));
    assert_eq!(r.silent_frames, 0);
    assert_eq!(r.speech_frames, 0);
    assert_eq!(engine.carry_len(), 200);
}

#[test]
fn partial_then_completes_frame() {
    let mut engine = VadEngine::new(2).unwrap();
    let _ = engine.process(&quantize(&silence(240)));
    assert_eq!(engine.carry_len(), 240);
    let r = engine.process(&quantize(&silence(240)));
    assert_eq!(r.silent_frames + r.speech_frames, 1);
    assert!(engine.carry_len() == 0, "tam frame tüketilmeli");
}

#[test]
fn tone_does_not_panic() {
    let mut engine = VadEngine::new(2).unwrap();
    let _ = engine.process(&quantize(&tone(440, FRAME_SAMPLES * 3)));
}

#[test]
fn clamp_prevents_overflow() {
    let mut engine = VadEngine::new(2).unwrap();
    let over: Vec<f32> = vec![2.0, -2.0, 1.5, -1.5];
    let _ = engine.process(&quantize(&over));
}

#[test]
fn invalid_aggressiveness_errors() {
    assert!(VadEngine::new(0).is_err());
    assert!(VadEngine::new(4).is_err());
    assert!(VadEngine::new(255).is_err());
}

#[test]
fn all_aggressiveness_levels_init() {
    for a in 1..=3 {
        assert!(VadEngine::new(a).is_ok(), "aggressiveness {a} geçerli olmalı");
    }
}

#[test]
fn frame_is_thirty_milliseconds() {
    assert_eq!(FRAME_SAMPLES, 480);
    assert_eq!(FRAME_MS, 30);
}

#[test]
fn aggressiveness_picks_the_mode() {
    assert_eq!(aggressiveness_to_mode(1), Ok(DetectorMode::Quality));
    assert_eq!(aggressiveness_to_mode(2), Ok(DetectorMode::Aggressive));
    assert_eq!(aggressiveness_to_mode(3), Ok(DetectorMode::VeryAggressive));
    assert_eq!(aggressiveness_to_mode(0), Err(VadError::InvalidAggressiveness(0)));
    assert_eq!(
        VadError::InvalidAggressiveness(204).message(),
        "Geçersiz VAD agresifliği: 204 (1-3 arası olmalı)"
    );
}

#[test]
fn engine_asks_the_detector_frame_by_frame() {
    let pcm = babble(FRAME_SAMPLES * 100);
    let modes = [
        webrtc_vad::VadMode::Quality,
        webrtc_vad::VadMode::Aggressive,
        webrtc_vad::VadMode::VeryAggressive,
    ];
    let mut counts = Vec::new();
    for (i, mode) in modes.into_iter().enumerate() {
        let mut vad =
            webrtc_vad::Vad::new_with_rate_and_mode(webrtc_vad::SampleRate::Rate16kHz, mode);
        let speech = pcm
            .chunks_exact(FRAME_SAMPLES)
            .filter(|frame| vad.is_voice_segment(frame) == Ok(true))
            .count() as u32;
        let mut engine = VadEngine::new(i as u8 + 1).unwrap();
        let r = engine.process(&pcm);
        assert_eq!(r.speech_frames, speech);
        assert_eq!(r.silent_frames, 100 - speech);
        assert_eq!(r.any_speech, speech > 0);
        counts.push(speech);
    }
    assert!(counts[0] > 0);
    assert!(counts[0] < 100);
    assert!(counts[0] > counts[2], "a stricter mode reports less");
}

#[test]
fn portions_do_not_matter() {
    let pcm = babble(FRAME_SAMPLES * 60 + 123);
    let mut at_once = VadEngine::new(1).unwrap();
    let whole = at_once.process(&pcm);
    for portion in [1usize, 7, 160, 479, 480, 481, 1000] {
        let mut engine = VadEngine::new(1).unwrap();
        let mut speech = 0;
        let mut silent = 0;
        let mut any = false;
        for part in pcm.chunks(portion) {
            let r = engine.process(part);
            speech += r.speech_frames;
            silent += r.silent_frames;
            any = any || r.any_speech;
        }
        assert_eq!(speech, whole.speech_frames);
        assert_eq!(silent, whole.silent_frames);
        assert_eq!(any, whole.any_speech);
        assert_eq!(engine.carry_len(), 123);
    }
}

#[test]
fn long_silence_stays_silent_at_every_level() {
    for a in 1..=3 {
        let mut engine = VadEngine::new(a).unwrap();
        for _ in 0..50 {
            let r = engine.process(&vec![0i16; 777]);
            assert!(!r.any_speech);
            assert_eq!(r.speech_frames, 0);
        }
    }
}

#[test]
fn record_counts_one_frame() {
    let mut r = VadFrameResult::default();
    r.record(Ok(true));
    r.record(Ok(false));
    r.record(Err(()));
    assert_eq!(
        r,
        VadFrameResult { any_speech: true, silent_frames: 2, speech_frames: 1 }
    );
    assert_eq!(r.silence_ms(), 60);
}

#[test]
fn empty_portion_is_no_frame() {
    let mut engine = VadEngine::new(3).unwrap();
    assert_eq!(engine.process(&[]), VadFrameResult::default());
}
