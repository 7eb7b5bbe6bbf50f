use eightvoice::transcribe::{
    groq_text, num_cpu_threads, transcribe_groq, whisper_text, GroqReply, ModelFile, Segment,
    TranscribeError, Transcriber, WhisperRun,
};
use eightvoice::wav::pcm_to_wav;

fn loaded() -> Transcriber<&'static str> {
    let mut t = Transcriber::new();
    t.load("models/ggml-small.bin", ModelFile::Read(Ok("small"))).unwrap();
    t
}

#[test]
fn threads_are_limited() {
    assert_eq!(num_cpu_threads(Some(1)), 1);
    assert_eq!(num_cpu_threads(Some(7)), 7);
    assert_eq!(num_cpu_threads(Some(8)), 8);
    assert_eq!(num_cpu_threads(Some(64)), 8);
    assert_eq!(num_cpu_threads(None), 4);
}

#[test]
fn model_failures_have_their_reasons() {
    let mut t: Transcriber<u8> = Transcriber::new();
    let e = t.load("a/b.bin", ModelFile::Missing).unwrap_err();
    assert_eq!(
        e.message(),
        "Model dosyası bulunamadı: a/b.bin. ggml-small.bin gibi bir GGUF modeli indirin."
    );
    let e = t.load("a/b.bin", ModelFile::NotUtf8).unwrap_err();
    assert_eq!(e.message(), "Model yolu UTF-8 değil");
    let e = t
        .load("a/b.bin", ModelFile::Read(Err("bozuk".to_string())))
        .unwrap_err();
    assert_eq!(e.message(), "Whisper context yüklenemedi: bozuk");
    let e = t.transcribe(&[0.0; 16_000], "tr", None).unwrap_err();
    assert!(matches!(e, TranscribeError::NotLoaded));
    assert_eq!(e.message(), "Model yüklenmemiş; önce load() çağrılmalı");
}

#[test]
fn a_loaded_model_stays_until_another_is_loaded() {
    let mut t = loaded();
    for file in [
        ModelFile::Missing,
        ModelFile::NotUtf8,
        ModelFile::Read(Err("bozuk".to_string())),
    ] {
        assert!(t.load("x", file).is_err());
        assert_eq!(*t.transcribe(&[0; 16], "tr", None).unwrap().unwrap().model, "small");
    }
    t.load("y", ModelFile::Read(Ok("large"))).unwrap();
    assert_eq!(*t.transcribe(&[0; 16], "tr", None).unwrap().unwrap().model, "large");
}

#[test]
fn short_recordings_are_not_transcribed() {
    assert!(loaded().transcribe(&[0; 15], "tr", None).unwrap().is_none());
    assert!(loaded().transcribe(&[0; 16], "tr", None).unwrap().is_some());
    assert!(Transcriber::<u8>::new().transcribe(&[0; 3], "tr", None).is_err());
    assert!(transcribe_groq(&[0; 15], "tr", "k").is_none());
    assert!(transcribe_groq(&[0; 16], "tr", "k").is_some());
}

#[test]
fn auto_leaves_the_language_open() {
    let t = loaded();
    let pcm: Vec<f32> = (0..100).map(|i| i as f32).collect();
    let job = t.transcribe(&pcm, "auto", Some(2)).unwrap().unwrap();
    assert_eq!(job.language, None);
    assert_eq!(job.threads, 2);
    assert_eq!(job.samples, &pcm[..]);
    assert!(!job.translate);
    let job = t.transcribe(&pcm, "en", Some(20)).unwrap().unwrap();
    assert_eq!(job.language, Some("en".to_string()));
    assert_eq!(job.threads, 8);
    assert!(!job.translate);
}

#[test]
fn segments_are_joined_and_trimmed() {
    let run = WhisperRun::Segments(vec![
        Segment::Text(" Merhaba".to_string()),
        Segment::Text(" dünya. ".to_string()),
    ]);
    assert_eq!(whisper_text(run).unwrap(), "Merhaba dünya.");
    assert_eq!(whisper_text(WhisperRun::Segments(vec![])).unwrap(), "");
}

#[test]
fn first_bad_segment_decides() {
    let run = WhisperRun::Segments(vec![
        Segment::Text("a".to_string()),
        Segment::Missing,
        Segment::Unreadable("x".to_string()),
    ]);
    assert_eq!(whisper_text(run).unwrap_err().message(), "Segment 1 bulunamadı");
    let run = WhisperRun::Segments(vec![Segment::Unreadable("x".to_string()), Segment::Missing]);
    assert_eq!(
        whisper_text(run).unwrap_err().message(),
        "Segment 0 metni alınamadı: x"
    );
    let e = whisper_text(WhisperRun::NoState("s".to_string())).unwrap_err();
    assert_eq!(e.message(), "Whisper state oluşturulamadı: s");
    let e = whisper_text(WhisperRun::Failed("f".to_string())).unwrap_err();
    assert_eq!(e.message(), "Whisper işleme hatası: f");
}

#[test]
fn request_goes_to_the_one_service() {
    let pcm: Vec<i16> = (0..100).collect();
    let r = transcribe_groq(&pcm, "auto", "SECRET").unwrap();
    assert_eq!(r.url, "https://api.groq.com/openai/v1/audio/transcriptions");
    assert_eq!(r.api_key, "SECRET");
    assert_eq!(r.model, "whisper-large-v3");
    assert_eq!(r.file_name, "recording.wav");
    assert_eq!(r.mime, "audio/wav");
    assert_eq!(r.language, None);
    assert_eq!(r.wav, pcm_to_wav(&pcm, 16_000));
    let r = transcribe_groq(&pcm, "tr", "SECRET").unwrap();
    assert_eq!(r.language, Some("tr".to_string()));
}

#[test]
fn replies_become_text_or_a_reason() {
    let text = |reply: GroqReply| groq_text(reply).map_err(|e| e.message());
    assert_eq!(text(GroqReply::Text(" evet\n".to_string())), Ok("evet".to_string()));
    assert_eq!(text(GroqReply::NoPart), Err("WAV part oluşturulamadı".to_string()));
    assert_eq!(text(GroqReply::NotSent), Err("Groq API isteği gönderilemedi".to_string()));
    assert_eq!(
        text(GroqReply::Unreadable),
        Err("Groq yanıtı JSON olarak ayrıştırılamadı".to_string())
    );
    assert_eq!(
        text(GroqReply::Refused {
            status: "401 Unauthorized".to_string(),
            body: "no".to_string()
        }),
        Err("Groq API hatası 401 Unauthorized: no".to_string())
    );
}

#[test]
fn wav_is_byte_for_byte() {
    let wav = pcm_to_wav(&[0, 1, -1, i16::MAX, i16::MIN, 258], 16_000);
    let mut expected: Vec<u8> = Vec::new();
    expected.extend_from_slice(b"RIFF");
    expected.extend_from_slice(&48u32.to_le_bytes());
    expected.extend_from_slice(b"WAVEfmt ");
    expected.extend_from_slice(&16u32.to_le_bytes());
    expected.extend_from_slice(&1u16.to_le_bytes());
    expected.extend_from_slice(&1u16.to_le_bytes());
    expected.extend_from_slice(&16_000u32.to_le_bytes());
    expected.extend_from_slice(&32_000u32.to_le_bytes());
    expected.extend_from_slice(&2u16.to_le_bytes());
    expected.extend_from_slice(&16u16.to_le_bytes());
    expected.extend_from_slice(b"data");
    expected.extend_from_slice(&12u32.to_le_bytes());
    for s in [0i16, 1, -1, i16::MAX, i16::MIN, 258] {
        expected.extend_from_slice(&s.to_le_bytes());
    }
    assert_eq!(wav, expected);
}

#[test]
fn wav_gives_back_the_samples() {
    let pcm: Vec<i16> = (i16::MIN..=i16::MAX).collect();
    let wav = pcm_to_wav(&pcm, 44_100);
    assert_eq!(wav.len(), 44 + 2 * pcm.len());
    let back: Vec<i16> = wav[44..]
        .chunks_exact(2)
        .map(|b| i16::from_le_bytes([b[0], b[1]]))
        .collect();
    assert_eq!(back, pcm);
    assert_eq!(u32::from_le_bytes([wav[4], wav[5], wav[6], wav[7]]) as usize, wav.len() - 8);
}

#[test]
fn empty_wav_is_its_header() {
    assert_eq!(pcm_to_wav(&[], 16_000).len(), 44);
}
