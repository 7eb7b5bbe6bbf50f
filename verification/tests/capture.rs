use eightvoice::audio::{AudioCapture, Portion, WatcherStep, TARGET_SAMPLE_RATE, VAD_WATCHER_TICK_MS};
use eightvoice::buffer::{moment, mono_len, ResamplerState, SharedBuffer, BUFFER_CAP};
use eightvoice::device::{
    resample_chunk, CaptureError, ConfigQuery, DefaultDevice, DeviceSearch, InputConfig,
    NamedDevice, SampleFormat, StreamFailure, StreamFormat, StreamPlan, StreamSetup,
};
use eightvoice::settings::VadCfg;

const ON: VadCfg = VadCfg { enabled: true, silence_ms: 90, aggressiveness: 2 };
const OFF: VadCfg = VadCfg { enabled: false, silence_ms: 90, aggressiveness: 2 };

fn plan(cfg: VadCfg) -> StreamPlan {
    StreamPlan { format: StreamFormat::F32, channels: 1, resample: false, cfg }
}

fn running(cfg: VadCfg) -> (AudioCapture, SharedBuffer<f32>) {
    let (mut audio, buf) = AudioCapture::new();
    audio.start(None, cfg).unwrap();
    audio.started(plan(cfg), Ok(())).unwrap();
    (audio, buf)
}

fn portion<'a>(samples: &'a [f32], pcm: &'a [i16]) -> Result<Portion<'a, f32>, String> {
    Ok(Portion { samples, pcm })
}

#[test]
fn new_capture_is_at_rest() {
    let (audio, buf) = AudioCapture::new::<f32>();
    assert!(!audio.is_active());
    assert_eq!(audio.silence_ms(), 0);
    assert_eq!(buf.len(), 0);
    assert_eq!(TARGET_SAMPLE_RATE, 16_000);
    assert_eq!(VAD_WATCHER_TICK_MS, 50);
    assert_eq!(BUFFER_CAP, 1_920_000);
}

#[test]
fn start_asks_for_the_wanted_device() {
    let (mut audio, _buf) = AudioCapture::new::<f32>();
    match audio.start(Some("Mikrofon"), ON).unwrap() {
        DeviceSearch::Named(n) => {
            assert_eq!(n.name, "Mikrofon");
            assert_eq!(n.cfg, ON);
        }
        DeviceSearch::Default(_) => panic!("no name"),
    }
    assert!(!audio.is_active());
    assert!(matches!(audio.start(None, OFF), Ok(DeviceSearch::Default(d)) if d.cfg == OFF));
}

#[test]
fn start_refuses_while_recording() {
    let (mut audio, _buf) = running(ON);
    assert!(audio.is_active());
    let e = audio.start(None, ON).unwrap_err();
    assert!(matches!(e, CaptureError::AlreadyActive));
    assert_eq!(e.message(), "Kayıt zaten aktif");
    audio.stop();
    assert!(!audio.is_active());
    assert!(audio.start(None, ON).is_ok());
}

#[test]
fn started_says_what_silence_to_watch() {
    let (mut audio, _buf) = AudioCapture::new::<f32>();
    audio.start(None, ON).unwrap();
    assert_eq!(audio.started(plan(ON), Ok(())).unwrap(), Some(90));
    audio.stop();
    audio.start(None, OFF).unwrap();
    assert_eq!(audio.started(plan(OFF), Ok(())).unwrap(), None);
}

#[test]
fn a_stream_that_does_not_run_leaves_the_capture_at_rest() {
    let (mut audio, _buf) = AudioCapture::new::<f32>();
    audio.start(None, ON).unwrap();
    let e = audio
        .started(plan(ON), Err(StreamFailure::Build("meşgul".to_string())))
        .unwrap_err();
    assert_eq!(e.message(), "meşgul");
    let e = audio.started(plan(ON), Err(StreamFailure::Play)).unwrap_err();
    assert_eq!(e.message(), "Akış başlatılamadı (mikrofon izni?)");
    assert!(!audio.is_active());
}

#[test]
fn first_device_with_the_name_is_taken() {
    let names = || vec![None, Some("a".to_string()), Some("b".to_string()), Some("b".to_string())];
    let search = |name: &str| NamedDevice { name: name.to_string(), cfg: ON };
    let (i, query) = search("b").found(Ok(names())).unwrap();
    assert_eq!(i, 2);
    assert_eq!(query, ConfigQuery { cfg: ON });
    let e = search("c").found(Ok(names())).unwrap_err();
    assert_eq!(e.message(), "Cihaz bulunamadı: c");
    let e = search("b").found(Err("yok".to_string())).unwrap_err();
    assert!(matches!(e, CaptureError::Devices(_)));
    assert_eq!(e.message(), "yok");
}

#[test]
fn default_device_has_to_be_there() {
    assert_eq!(DefaultDevice { cfg: OFF }.found(true).unwrap().cfg, OFF);
    let e = DefaultDevice { cfg: OFF }.found(false).unwrap_err();
    assert_eq!(e.message(), "Varsayılan giriş cihazı yok");
}

#[test]
fn listed_devices_are_those_with_a_name() {
    let listed = vec![Some("x".to_string()), None, Some("y".to_string())];
    assert_eq!(AudioCapture::list_devices(Ok(listed)).unwrap(), vec!["x", "y"]);
    assert!(AudioCapture::list_devices(Ok(vec![None])).unwrap().is_empty());
    let e = AudioCapture::list_devices(Err("ses sistemi yok".to_string())).unwrap_err();
    assert_eq!(e.message(), "ses sistemi yok");
}

#[test]
fn configuration_has_to_be_told() {
    let e = ConfigQuery { cfg: ON }.configured(None).unwrap_err();
    assert_eq!(e.message(), "Cihaz yapılandırması alınamadı");
}

fn setup(format: SampleFormat, sample_rate: u32) -> StreamSetup {
    let config = InputConfig { format, sample_rate, channels: 2 };
    ConfigQuery { cfg: ON }.configured(Some(config)).unwrap()
}

#[test]
fn other_rates_are_resampled() {
    assert_eq!(setup(SampleFormat::F32, 16_000).resampler_chunk(), None);
    assert_eq!(setup(SampleFormat::F32, 48_000).resampler_chunk(), Some(1440));
    assert_eq!(setup(SampleFormat::F32, 8_000).resampler_chunk(), Some(1024));
    assert_eq!(resample_chunk(44_100), 1323);
    assert_eq!(resample_chunk(34_133), 1024);
    assert_eq!(resample_chunk(34_167), 1025);
    assert_eq!(resample_chunk(u32::MAX), 128_849_018);
}

#[test]
fn stream_follows_the_configuration() {
    for (format, stream) in [
        (SampleFormat::F32, StreamFormat::F32),
        (SampleFormat::I16, StreamFormat::I16),
        (SampleFormat::U16, StreamFormat::U16),
    ] {
        let p = setup(format, 44_100).prepared(Ok(())).unwrap();
        assert_eq!(
            p,
            StreamPlan { format: stream, channels: 2, resample: true, cfg: ON }
        );
    }
    let p = setup(SampleFormat::I16, 16_000).prepared(Ok(())).unwrap();
    assert!(!p.resample);
}

#[test]
fn stream_failures_have_their_reasons() {
    let e = setup(SampleFormat::Other("I32".to_string()), 16_000)
        .prepared(Ok(()))
        .unwrap_err();
    assert_eq!(e.message(), "Desteklenmeyen örnek formatı: I32");
    let e = setup(SampleFormat::Other("I32".to_string()), 48_000)
        .prepared(Err("oran".to_string()))
        .unwrap_err();
    assert_eq!(e.message(), "oran");
    assert!(matches!(e, CaptureError::Resampler(_)));
}

#[test]
fn silence_is_counted_until_the_watcher_stops() {
    let (mut audio, mut buf) = running(ON);
    assert_eq!(audio.watcher_tick(90), WatcherStep::Wait);
    audio.handle_input(portion(&[0.0; 960], &[0; 960]), &mut buf);
    assert_eq!(audio.silence_ms(), 60);
    assert_eq!(audio.watcher_tick(90), WatcherStep::Wait);
    audio.handle_input(portion(&[0.0; 479], &[0; 479]), &mut buf);
    assert_eq!(audio.silence_ms(), 60);
    audio.handle_input(portion(&[0.0; 1], &[0; 1]), &mut buf);
    assert_eq!(audio.silence_ms(), 90);
    // the silence has to exceed the threshold
    assert_eq!(audio.watcher_tick(90), WatcherStep::Wait);
    audio.handle_input(portion(&[0.0; 480], &[0; 480]), &mut buf);
    assert_eq!(audio.silence_ms(), 120);
    assert_eq!(audio.watcher_tick(90), WatcherStep::Stop);
    assert_eq!(audio.watcher_tick(90), WatcherStep::Exit);
    assert_eq!(buf.len(), 1920);
}

#[test]
fn speech_clears_the_silence() {
    let (mut audio, mut buf) = running(VadCfg { aggressiveness: 1, ..ON });
    audio.handle_input(portion(&[0.0; 4800], &[0; 4800]), &mut buf);
    assert_eq!(audio.silence_ms(), 300);
    let mut loud: Vec<i16> = Vec::new();
    for i in 0..48_000i32 {
        let t = i as f32 / 16_000.0;
        let mut v = 0.0f32;
        for h in 1..12 {
            v += (2.0 * std::f32::consts::PI * 150.0 * h as f32 * t).sin() / h as f32;
        }
        loud.push((v * 8000.0) as i16);
    }
    audio.handle_input(portion(&vec![0.0; loud.len()], &loud), &mut buf);
    assert_eq!(audio.silence_ms(), 0);
}

#[test]
fn without_detection_silence_is_not_counted() {
    for cfg in [OFF, VadCfg { aggressiveness: 0, ..ON }] {
        let (mut audio, mut buf) = running(cfg);
        audio.handle_input(portion(&[0.5; 4800], &[0; 4800]), &mut buf);
        assert_eq!(audio.silence_ms(), 0);
        assert_eq!(buf.len(), 4800);
        assert_eq!(audio.watcher_tick(30), WatcherStep::Wait);
        assert_eq!(audio.watcher_tick(0), WatcherStep::Wait);
    }
}

#[test]
fn start_clears_the_counter() {
    let (mut audio, mut buf) = running(ON);
    audio.handle_input(portion(&[0.0; 960], &[0; 960]), &mut buf);
    audio.stop();
    assert_eq!(audio.watcher_tick(1), WatcherStep::Exit);
    audio.start(None, ON).unwrap();
    assert_eq!(audio.silence_ms(), 0);
    assert_eq!(audio.watcher_tick(1), WatcherStep::Wait);
}

#[test]
fn silent_portions_add_up() {
    let (mut a, mut buf) = running(ON);
    let (mut b, _) = running(ON);
    a.handle_input(portion(&[0.0; 1500], &[0; 1500]), &mut buf);
    for _ in 0..15 {
        b.handle_input(portion(&[0.0; 100], &[0; 100]), &mut buf);
    }
    assert_eq!(a.silence_ms(), 90);
    assert_eq!(b.silence_ms(), 90);
}

#[test]
fn a_long_portion_is_heard_to_its_end() {
    let (mut audio, mut buf) = running(ON);
    let long = 2 * 960_000 + 700;
    audio.handle_input(portion(&[], &vec![0; long]), &mut buf);
    assert_eq!(audio.silence_ms(), 30 * (long as u32 / 480));
    assert_eq!(buf.len(), 0);
}

#[test]
fn samples_that_were_not_resampled_are_dropped() {
    let (mut audio, mut buf) = running(ON);
    audio.handle_input(portion(&[0.5; 480], &[0; 480]), &mut buf);
    audio.handle_input(Err("oran".to_string()), &mut buf);
    assert_eq!(audio.silence_ms(), 30);
    assert_eq!(AudioCapture::drain(&mut buf), vec![0.5; 480]);
}

#[test]
fn drain_empties_the_buffer() {
    let (mut audio, mut buf) = running(OFF);
    audio.handle_input(portion(&[0.1, 0.2, 0.3], &[1, 2, 3]), &mut buf);
    assert_eq!(AudioCapture::drain(&mut buf), vec![0.1, 0.2, 0.3]);
    assert_eq!(buf.len(), 0);
    assert!(AudioCapture::drain(&mut buf).is_empty());
}

#[test]
fn a_full_buffer_loses_the_oldest() {
    let mut buf: SharedBuffer<u32> = SharedBuffer::new();
    let first: Vec<u32> = (0..BUFFER_CAP as u32).collect();
    buf.append(&first);
    assert_eq!(buf.len(), BUFFER_CAP);
    buf.append(&[7, 8, 9]);
    assert_eq!(buf.len(), BUFFER_CAP);
    let all = buf.take_all();
    assert_eq!(all[0], 3);
    assert_eq!(all[BUFFER_CAP - 4], BUFFER_CAP as u32 - 1);
    assert_eq!(&all[BUFFER_CAP - 3..], &[7, 8, 9]);
}

#[test]
fn newest_samples_stay_however_they_arrive() {
    let data: Vec<u32> = (0..(BUFFER_CAP as u32 + 1000)).collect();
    let mut at_once: SharedBuffer<u32> = SharedBuffer::new();
    at_once.append(&data);
    let mut in_parts: SharedBuffer<u32> = SharedBuffer::new();
    for part in data.chunks(77_777) {
        in_parts.append(part);
    }
    let all = at_once.take_all();
    assert_eq!(all, data[1000..].to_vec());
    assert_eq!(all, in_parts.take_all());
}

#[test]
fn chunks_keep_every_sample() {
    let mut rs: ResamplerState<f32> = ResamplerState::new();
    let data: Vec<f32> = (0..2500).map(|i| i as f32).collect();
    let mut out = Vec::new();
    assert!(rs.next_chunk(1024).is_none());
    for part in data.chunks(300) {
        rs.feed(part);
        while let Some(chunk) = rs.next_chunk(1024) {
            assert_eq!(chunk.len(), 1024);
            out.extend(chunk);
        }
    }
    assert_eq!(out, data[..2048].to_vec());
    assert_eq!(rs.next_chunk(452).unwrap(), data[2048..].to_vec());
    assert!(rs.next_chunk(1).is_none());
}

#[test]
fn interleaved_sound_is_cut_by_moments() {
    assert_eq!(mono_len(7, 2), 3);
    assert_eq!(mono_len(7, 1), 7);
    assert_eq!(mono_len(7, 0), 7);
    let sound = [1, 2, 3, 4, 5, 6, 7];
    let moments: Vec<Vec<i32>> = (0..mono_len(sound.len(), 2))
        .map(|i| moment(&sound, 2, i).to_vec())
        .collect();
    let expected: Vec<Vec<i32>> = sound.chunks_exact(2).map(|m| m.to_vec()).collect();
    assert_eq!(moments, expected);
}
