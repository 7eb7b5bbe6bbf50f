use eightvoice::audio::WatcherStep;
use eightvoice::buffer::SharedBuffer;
use eightvoice::device::{CaptureError, DeviceSearch, StreamFormat, StreamPlan};
use eightvoice::dictation::{
    begin_recording, run_pipeline, start_recording, stop_recording, AppCtx, Injection,
    InjectionStep, PipelineStep, Source, Transcription,
};
use eightvoice::inject::InjectError;
use eightvoice::settings::{ApiProvider, InjectionMode, Settings};
use eightvoice::state::{AppState, StateEvent, StateMachine, StatePayload};
use eightvoice::transcribe::TranscribeError;

fn change(state: AppState, previous: AppState) -> StatePayload {
    StatePayload { state, previous }
}

fn failure(from: AppState) -> Vec<StatePayload> {
    vec![change(AppState::Error, from), change(AppState::Idle, AppState::Error)]
}

fn recording() -> (StateMachine, AppCtx<f32>) {
    let mut sm = StateMachine::new();
    let mut ctx = AppCtx::new();
    let cfg = Settings::default().vad_cfg();
    ctx.audio.start(None, cfg).unwrap();
    let plan = StreamPlan { format: StreamFormat::F32, channels: 1, resample: false, cfg };
    ctx.audio.started(plan, Ok(())).unwrap();
    let r = start_recording(&mut sm, &mut ctx.audio, Ok(()));
    assert_eq!(r.result, Ok(()));
    assert_eq!(r.changes, vec![change(AppState::Recording, AppState::Idle)]);
    (sm, ctx)
}

fn transcribing() -> StateMachine {
    let (mut sm, mut ctx) = recording();
    assert!(stop_recording(&mut sm, &mut ctx.audio).run_pipeline);
    sm
}

fn recorded() -> SharedBuffer<f32> {
    let mut buf = SharedBuffer::new();
    buf.append(&[0.1, 0.2, 0.3]);
    buf
}

fn transcription(source: Source) -> Transcription<f32> {
    Transcription {
        source,
        samples: vec![0.25],
        language: "tr".to_string(),
        injection_mode: InjectionMode::Paste,
    }
}

#[test]
fn recording_begins_as_the_settings_have_it() {
    let mut ctx: AppCtx<f32> = AppCtx::new();
    let mut s = Settings::default();
    match begin_recording(&mut ctx.audio, &s).unwrap() {
        DeviceSearch::Default(d) => assert_eq!(d.cfg, s.vad_cfg()),
        DeviceSearch::Named(_) => panic!("no name"),
    }
    s.input_device = Some("mikrofon".to_string());
    s.vad_enabled = false;
    s.vad_silence_ms = 700;
    s.vad_aggressiveness = 3;
    match begin_recording(&mut ctx.audio, &s).unwrap() {
        DeviceSearch::Named(n) => {
            assert_eq!(n.name, "mikrofon");
            assert!(!n.cfg.enabled);
            assert_eq!(n.cfg.silence_ms, 700);
            assert_eq!(n.cfg.aggressiveness, 3);
        }
        DeviceSearch::Default(_) => panic!("named"),
    }
    let (_, mut ctx) = recording();
    let e = begin_recording(&mut ctx.audio, &s).unwrap_err();
    assert_eq!(e.message(), "Kayıt zaten aktif");
    assert!(ctx.audio.is_active());
}

#[test]
fn start_needs_a_running_capture() {
    let mut sm = StateMachine::new();
    let mut ctx: AppCtx<f32> = AppCtx::new();
    let r = start_recording(
        &mut sm,
        &mut ctx.audio,
        Err(CaptureError::DeviceNotFound("m".to_string())),
    );
    assert_eq!(r.result, Err("Cihaz bulunamadı: m".to_string()));
    assert!(r.changes.is_empty());
    assert_eq!(sm.current(), AppState::Idle);
}

#[test]
fn start_while_busy_stops_the_capture_again() {
    let mut sm = transcribing();
    let (_, mut ctx) = recording();
    assert!(ctx.audio.is_active());
    let r = start_recording(&mut sm, &mut ctx.audio, Ok(()));
    assert_eq!(r.result, Err("Şu anda kayıt başlatılamaz (meşgul)".to_string()));
    assert!(r.changes.is_empty());
    assert!(!ctx.audio.is_active());
    assert_eq!(ctx.audio.watcher_tick(1000), WatcherStep::Exit);
    assert_eq!(sm.current(), AppState::Transcribing);
}

#[test]
fn stop_is_idempotent() {
    let (mut sm, mut ctx) = recording();
    let r = stop_recording(&mut sm, &mut ctx.audio);
    assert!(r.run_pipeline);
    assert_eq!(r.changes, vec![change(AppState::Transcribing, AppState::Recording)]);
    assert!(!ctx.audio.is_active());
    let r = stop_recording(&mut sm, &mut ctx.audio);
    assert!(!r.run_pipeline);
    assert!(r.changes.is_empty());
    assert_eq!(sm.current(), AppState::Transcribing);
}

#[test]
fn stop_without_a_recording_does_nothing() {
    let mut sm = StateMachine::new();
    let mut ctx: AppCtx<f32> = AppCtx::new();
    let r = stop_recording(&mut sm, &mut ctx.audio);
    assert!(!r.run_pipeline);
    assert_eq!(sm.current(), AppState::Idle);
    assert!(!sm.take_pending_transcribe());
}

#[test]
fn cloud_only_when_chosen_and_with_a_key() {
    let mut sm = transcribing();
    let mut s = Settings::default();
    s.language = "en".to_string();
    s.api_key = Some("k".to_string());
    let mut buf = recorded();
    match run_pipeline(&mut sm, &s, &mut buf) {
        PipelineStep::Transcribe(t) => {
            assert!(matches!(t.source, Source::Offline));
            assert_eq!(t.samples, vec![0.1, 0.2, 0.3]);
            assert_eq!(buf.len(), 0);
            assert_eq!(t.language, "en");
            assert_eq!(t.injection_mode, InjectionMode::Auto);
        }
        PipelineStep::Finished(_) => panic!("finished"),
    }
    s.api_provider = ApiProvider::Groq;
    match run_pipeline(&mut sm, &s, &mut recorded()) {
        PipelineStep::Transcribe(t) => {
            assert_eq!(t.samples, vec![0.1, 0.2, 0.3]);
            assert!(matches!(t.source, Source::Groq { api_key } if api_key == "k"));
        }
        PipelineStep::Finished(_) => panic!("finished"),
    }
    assert_eq!(sm.current(), AppState::Transcribing);
}

#[test]
fn cloud_without_a_key_fails() {
    for key in [None, Some("".to_string()), Some("  ".to_string())] {
        let mut sm = transcribing();
        let mut s = Settings::default();
        s.api_provider = ApiProvider::Groq;
        s.api_key = key;
        let mut buf = recorded();
        match run_pipeline(&mut sm, &s, &mut buf) {
            PipelineStep::Finished(changes) => {
                assert_eq!(changes, failure(AppState::Transcribing));
            }
            PipelineStep::Transcribe(_) => panic!("no key"),
        }
        assert_eq!(buf.len(), 0);
        assert_eq!(sm.current(), AppState::Idle);
        assert_eq!(
            sm.last_error(),
            Some("Groq API anahtarı eksik. Ayarlar'dan ekleyin.".to_string())
        );
        s.sanitize();
        assert!(matches!(run_pipeline(&mut sm, &s, &mut buf), PipelineStep::Transcribe(_)));
    }
}

#[test]
fn failed_transcription_says_who_failed() {
    for (source, message) in [
        (
            Source::Groq { api_key: "k".to_string() },
            "Groq transkripsiyon: Groq API isteği gönderilemedi",
        ),
        (Source::Offline, "Transkripsiyon: Groq API isteği gönderilemedi"),
    ] {
        let mut sm = transcribing();
        match transcription(source).transcribed(&mut sm, Err(TranscribeError::Send)) {
            InjectionStep::Finished(changes) => {
                assert_eq!(changes, failure(AppState::Transcribing));
            }
            InjectionStep::Inject(..) => panic!("no text"),
        }
        assert_eq!(sm.current(), AppState::Idle);
        assert_eq!(sm.last_error(), Some(message.to_string()));
    }
}

#[test]
fn empty_text_ends_the_dictation() {
    let mut sm = transcribing();
    match transcription(Source::Offline).transcribed(&mut sm, Ok(String::new())) {
        InjectionStep::Finished(changes) => assert_eq!(
            changes,
            vec![
                change(AppState::Injecting, AppState::Transcribing),
                change(AppState::Idle, AppState::Injecting)
            ]
        ),
        InjectionStep::Inject(..) => panic!("no text"),
    }
    assert_eq!(sm.current(), AppState::Idle);
    assert_eq!(sm.last_error(), None);
}

fn injecting(sm: &mut StateMachine) -> Injection {
    match transcription(Source::Offline).transcribed(sm, Ok("merhaba".to_string())) {
        InjectionStep::Inject(injection, changes) => {
            assert_eq!(changes, vec![change(AppState::Injecting, AppState::Transcribing)]);
            assert_eq!(injection.text, "merhaba");
            assert_eq!(injection.mode, InjectionMode::Paste);
            injection
        }
        InjectionStep::Finished(_) => panic!("text"),
    }
}

#[test]
fn text_is_injected_and_shown() {
    let mut sm = transcribing();
    let injection = injecting(&mut sm);
    let d = injection.injected(&mut sm, Ok(()));
    assert_eq!(d.changes, vec![change(AppState::Idle, AppState::Injecting)]);
    assert_eq!(d.transcript, Some("merhaba".to_string()));
    assert_eq!(sm.current(), AppState::Idle);
}

#[test]
fn failed_injection_is_not_shown() {
    let mut sm = transcribing();
    let injection = injecting(&mut sm);
    let d = injection.injected(&mut sm, Err(InjectError::Typing("x".to_string())));
    assert_eq!(d.changes, failure(AppState::Injecting));
    assert_eq!(d.transcript, None);
    assert_eq!(sm.last_error(), Some("Enjeksiyon: Yazma hatası: x".to_string()));
}

#[test]
fn a_failure_in_between_is_not_undone() {
    let mut sm = transcribing();
    sm.transition(StateEvent::Fail("dur".to_string()));
    match transcription(Source::Offline).transcribed(&mut sm, Ok("merhaba".to_string())) {
        InjectionStep::Inject(_, changes) => assert!(changes.is_empty()),
        InjectionStep::Finished(_) => panic!("text"),
    }
    assert_eq!(sm.current(), AppState::Idle);
}
