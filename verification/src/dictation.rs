//! A dictation from end to end: start, stop, transcribe, inject.
//!
//! The steps that need the system are made outside; each function here takes
//! what came of one, moves the state machine, and says what is next.

use vstd::prelude::*;

use crate::audio::{AudioCapture, CaptureModel};
use crate::buffer::SharedBuffer;
use crate::device::{CaptureError, CaptureErrorModel, DeviceSearch};
use crate::inject::{InjectError, InjectErrorModel};
use crate::settings::{has_key, ApiProvider, InjectionMode, Settings, SettingsModel, VadCfg};
use crate::state::{
    accepted, after, announcements, law_a_step_is_announced_once, law_failure_leads_to_idle,
    AppState, EventModel, MachineModel, StateEvent, StateMachine, StatePayload,
};
use crate::text::{blank, is_white_space};
use crate::transcribe::{TranscribeError, TranscribeErrorModel};

verus! {

/// The capture and its buffer.
pub struct AppCtx<T> {
    pub audio: AudioCapture,
    pub audio_buf: SharedBuffer<T>,
}

impl<T> AppCtx<T> {
    /// Nothing recorded yet.
    pub fn new() -> (r: Self)
        ensures
            r.audio@ == (CaptureModel {
                active: false,
                engine: None,
                silence_ms: 0,
                watcher_cancel: false,
            }),
            r.audio_buf@ == Seq::<T>::empty(),
    {
        let (audio, audio_buf) = AudioCapture::new();
        AppCtx { audio, audio_buf }
    }
}

/// The part of the settings that the capture is started with.
pub open spec fn cfg_of(s: SettingsModel) -> VadCfg {
    VadCfg {
        enabled: s.vad_enabled,
        silence_ms: s.vad_silence_ms,
        aggressiveness: s.vad_aggressiveness,
    }
}

/// Begins a recording as the settings have it: from the device that they name,
/// or the default one, and with their voice detection. Where one is running,
/// it refuses.
pub fn begin_recording(audio: &mut AudioCapture, settings: &Settings) -> (r: Result<
    DeviceSearch,
    CaptureError,
>)
    ensures
        match r {
            Err(err) => {
                &&& old(audio)@.active
                &&& err@ == CaptureErrorModel::AlreadyActive
                &&& final(audio)@ == old(audio)@
            },
            Ok(search) => {
                &&& !old(audio)@.active
                &&& final(audio)@ == old(audio)@.armed(cfg_of(settings@))
                &&& match (settings@.input_device, search) {
                    (Some(name), DeviceSearch::Named(n)) => {
                        &&& n.name@ == name
                        &&& n.cfg == cfg_of(settings@)
                    },
                    (None, DeviceSearch::Default(d)) => d.cfg == cfg_of(settings@),
                    _ => false,
                }
            },
        },
{
    let cfg = settings.vad_cfg();
    match &settings.input_device {
        Some(name) => audio.start(Some(name.as_str()), cfg),
        None => audio.start(None, cfg),
    }
}

/// What came of starting a recording.
#[derive(Debug)]
pub struct StartOutcome {
    /// The message is for the user.
    pub result: Result<(), String>,
    /// The changes of state to announce.
    pub changes: Vec<StatePayload>,
}

/// Ends the start of a recording. Where the capture runs, the state machine is
/// asked; where that refuses, the capture is stopped again.
pub fn start_recording(
    sm: &mut StateMachine,
    audio: &mut AudioCapture,
    started: Result<(), CaptureError>,
) -> (r: StartOutcome)
    ensures
        match started {
            Err(e) => {
                &&& r.result matches Err(msg) && msg@ == e@.message()
                &&& r.changes@ == Seq::<StatePayload>::empty()
                &&& final(sm)@ == old(sm)@
                &&& final(audio)@ == old(audio)@
            },
            Ok(_) => {
                &&& final(sm)@ == after(old(sm)@, EventModel::StartRecording)
                &&& r.changes@ == announcements(old(sm)@, EventModel::StartRecording)
                &&& if accepted(old(sm)@, EventModel::StartRecording) {
                    &&& r.result is Ok
                    &&& final(audio)@ == old(audio)@
                } else {
                    &&& r.result matches Err(msg) && msg@
                        == "Şu anda kayıt başlatılamaz (meşgul)"@
                    &&& final(audio)@ == old(audio)@.stopped()
                }
            },
        },
{
    match started {
        Err(e) => StartOutcome { result: Err(e.message()), changes: Vec::new() },
        Ok(_) => {
            let t = sm.transition(StateEvent::StartRecording);
            if t.accepted {
                StartOutcome { result: Ok(()), changes: t.changes }
            } else {
                audio.stop();
                StartOutcome {
                    result: Err("Şu anda kayıt başlatılamaz (meşgul)".to_owned()),
                    changes: t.changes,
                }
            }
        },
    }
}

/// What came of stopping a recording.
#[derive(Debug)]
pub struct StopOutcome {
    /// The recording is to be transcribed.
    pub run_pipeline: bool,
    /// The changes of state to announce.
    pub changes: Vec<StatePayload>,
}

/// Stops a recording. The capture is stopped in any case; where nothing is
/// being recorded, nothing else happens.
pub fn stop_recording(sm: &mut StateMachine, audio: &mut AudioCapture) -> (r: StopOutcome)
    ensures
        final(audio)@ == old(audio)@.stopped(),
        final(sm)@ == after(old(sm)@, EventModel::StopRecording),
        r.changes@ == announcements(old(sm)@, EventModel::StopRecording),
        r.run_pipeline == (old(sm)@.state == AppState::Recording),
{
    audio.stop();
    let t = sm.transition(StateEvent::StopRecording);
    StopOutcome { run_pipeline: t.accepted, changes: t.changes }
}

/// The machine after several requests.
pub open spec fn after_all(m: MachineModel, events: Seq<EventModel>) -> MachineModel
    decreases events.len(),
{
    if events.len() == 0 {
        m
    } else {
        after(after_all(m, events.drop_last()), events.last())
    }
}

/// What the user interface is told of several requests.
pub open spec fn announced_all(m: MachineModel, events: Seq<EventModel>) -> Seq<StatePayload>
    decreases events.len(),
{
    if events.len() == 0 {
        seq![]
    } else {
        announced_all(m, events.drop_last()) + announcements(
            after_all(m, events.drop_last()),
            events.last(),
        )
    }
}

proof fn lemma_one_event(m: MachineModel, e: EventModel)
    ensures
        after_all(m, seq![e]) == after(m, e),
        announced_all(m, seq![e]) == announcements(m, e),
{
    let none = Seq::<EventModel>::empty();
    assert(seq![e].drop_last() =~= none);
    assert(announced_all(m, none) =~= Seq::<StatePayload>::empty());
    assert(announced_all(m, seq![e]) =~= announcements(m, e));
}

proof fn lemma_two_events(m: MachineModel, d: EventModel, e: EventModel)
    ensures
        after_all(m, seq![d, e]) == after(after(m, d), e),
        announced_all(m, seq![d, e]) == announcements(m, d) + announcements(after(m, d), e),
{
    assert(seq![d, e].drop_last() =~= seq![d]);
    lemma_one_event(m, d);
}

/// Who is to transcribe.
#[derive(Debug)]
pub enum Source {
    /// The cloud service, with that key.
    Groq { api_key: String },
    /// The local model.
    Offline,
}

/// The mathematical counterpart of [`Source`].
pub ghost enum SourceModel {
    Groq(Seq<char>),
    Offline,
}

impl View for Source {
    type V = SourceModel;

    open spec fn view(&self) -> SourceModel {
        match self {
            Source::Groq { api_key } => SourceModel::Groq(api_key@),
            Source::Offline => SourceModel::Offline,
        }
    }
}

/// Who transcribes under the given settings; nobody where the cloud service
/// is chosen and there is no key.
pub open spec fn source_for(s: SettingsModel) -> Option<SourceModel> {
    match s.api_provider {
        ApiProvider::Offline => Some(SourceModel::Offline),
        ApiProvider::Groq => match s.api_key {
            Some(key) if !blank(key) => Some(SourceModel::Groq(key)),
            _ => None,
        },
    }
}

/// A recording that is to be transcribed.
#[derive(Debug)]
pub struct Transcription<T> {
    pub source: Source,
    /// The whole recording.
    pub samples: Vec<T>,
    pub language: String,
    pub injection_mode: InjectionMode,
}

/// A text that is to be injected.
#[derive(Debug)]
pub struct Injection {
    pub text: String,
    pub mode: InjectionMode,
}

/// What follows a recording.
#[derive(Debug)]
pub enum PipelineStep<T> {
    Transcribe(Transcription<T>),
    /// Nothing; the changes of state are to be announced.
    Finished(Vec<StatePayload>),
}

/// What follows a transcription. The changes of state are to be announced.
#[derive(Debug)]
pub enum InjectionStep {
    Inject(Injection, Vec<StatePayload>),
    Finished(Vec<StatePayload>),
}

/// What came of an injection.
#[derive(Debug)]
pub struct Delivery {
    /// The changes of state to announce.
    pub changes: Vec<StatePayload>,
    /// The text to show, where it was injected.
    pub transcript: Option<String>,
}

/// Begins to turn a recording into text: takes it out of the buffer and picks
/// who transcribes. Where the cloud service is chosen and there is no key, that
/// is a failure, and the recording is gone.
pub fn run_pipeline<T>(
    sm: &mut StateMachine,
    settings: &Settings,
    buf: &mut SharedBuffer<T>,
) -> (r: PipelineStep<T>)
    ensures
        final(buf)@ == Seq::<T>::empty(),
        match (source_for(settings@), r) {
            (Some(source), PipelineStep::Transcribe(t)) => {
                &&& t.source@ == source
                &&& t.samples@ == old(buf)@
                &&& t.language@ == settings@.language
                &&& t.injection_mode == settings@.injection_mode
                &&& final(sm)@ == old(sm)@
            },
            (None, PipelineStep::Finished(changes)) => {
                let failure = EventModel::Fail("Groq API anahtarı eksik. Ayarlar'dan ekleyin."@);
                &&& final(sm)@ == after(old(sm)@, failure)
                &&& changes@ == announcements(old(sm)@, failure)
            },
            _ => false,
        },
{
    let samples = AudioCapture::drain(buf);
    let source = match settings.api_provider {
        ApiProvider::Offline => Source::Offline,
        ApiProvider::Groq => {
            if !settings.has_api_key() {
                let t = sm.transition(
                    StateEvent::Fail("Groq API anahtarı eksik. Ayarlar'dan ekleyin.".to_owned()),
                );
                return PipelineStep::Finished(t.changes);
            }
            match &settings.api_key {
                Some(key) => Source::Groq { api_key: key.clone() },
                None => Source::Offline,
            }
        },
    };
    PipelineStep::Transcribe(
        Transcription {
            source,
            samples,
            language: settings.language.clone(),
            injection_mode: settings.injection_mode,
        },
    )
}

/// What a transcription asks of the state machine: a failure says who failed
/// and why, and an empty text goes straight to the end.
pub open spec fn transcription_events(
    source: SourceModel,
    result: Result<Seq<char>, TranscribeErrorModel>,
) -> Seq<EventModel> {
    match result {
        Err(e) => match source {
            SourceModel::Groq(_) => seq![EventModel::Fail("Groq transkripsiyon: "@ + e.message())],
            SourceModel::Offline => seq![EventModel::Fail("Transkripsiyon: "@ + e.message())],
        },
        Ok(text) => if text.len() == 0 {
            seq![EventModel::TranscriptionDone, EventModel::InjectionDone]
        } else {
            seq![EventModel::TranscriptionDone]
        },
    }
}

/// What an injection asks of the state machine.
pub open spec fn injection_event(result: Result<(), InjectErrorModel>) -> EventModel {
    match result {
        Ok(_) => EventModel::InjectionDone,
        Err(e) => EventModel::Fail("Enjeksiyon: "@ + e.message()),
    }
}

impl<T> Transcription<T> {
    /// Goes on with the text, or with the reason why there is none.
    pub fn transcribed(self, sm: &mut StateMachine, result: Result<String, TranscribeError>) -> (r:
        InjectionStep)
        ensures
            ({
                let events = transcription_events(
                    self.source@,
                    crate::transcribe::result_of(result),
                );
                &&& final(sm)@ == after_all(old(sm)@, events)
                &&& match r {
                    InjectionStep::Inject(injection, changes) => {
                        &&& changes@ == announced_all(old(sm)@, events)
                        &&& result matches Ok(text) && text@.len() > 0 && injection.text@ == text@
                        &&& injection.mode == self.injection_mode
                    },
                    InjectionStep::Finished(changes) => {
                        &&& changes@ == announced_all(old(sm)@, events)
                        &&& result matches Ok(text) ==> text@.len() == 0
                    },
                }
            }),
    {
        let ghost m = sm@;
        match result {
            Err(e) => {
                let mut msg = match &self.source {
                    Source::Groq { .. } => "Groq transkripsiyon: ".to_owned(),
                    Source::Offline => "Transkripsiyon: ".to_owned(),
                };
                msg.append(e.message().as_str());
                proof {
                    lemma_one_event(m, EventModel::Fail(msg@));
                }
                InjectionStep::Finished(sm.transition(StateEvent::Fail(msg)).changes)
            },
            Ok(text) => {
                let mut changes = sm.transition(StateEvent::TranscriptionDone).changes;
                proof {
                    lemma_one_event(m, EventModel::TranscriptionDone);
                }
                if text.as_str().is_empty() {
                    let mut more = sm.transition(StateEvent::InjectionDone).changes;
                    proof {
                        lemma_two_events(
                            m,
                            EventModel::TranscriptionDone,
                            EventModel::InjectionDone,
                        );
                    }
                    changes.append(&mut more);
                    return InjectionStep::Finished(changes);
                }
                InjectionStep::Inject(Injection { text, mode: self.injection_mode }, changes)
            },
        }
    }
}

impl Injection {
    /// Ends with the text injected, or with the reason why it was not.
    pub fn injected(self, sm: &mut StateMachine, result: Result<(), InjectError>) -> (r: Delivery)
        ensures
            ({
                let event = injection_event(
                    match result {
                        Ok(_) => Ok(()),
                        Err(e) => Err(e@),
                    },
                );
                &&& final(sm)@ == after(old(sm)@, event)
                &&& r.changes@ == announcements(old(sm)@, event)
            }),
            match r.transcript {
                Some(text) => result is Ok && text@ == self.text@,
                None => result is Err,
            },
    {
        match result {
            Err(e) => {
                let mut msg = "Enjeksiyon: ".to_owned();
                msg.append(e.message().as_str());
                let t = sm.transition(StateEvent::Fail(msg));
                Delivery { changes: t.changes, transcript: None }
            },
            Ok(_) => {
                let t = sm.transition(StateEvent::InjectionDone);
                Delivery { changes: t.changes, transcript: Some(self.text) }
            },
        }
    }
}

/// Sound goes to the cloud service only where it is chosen and a key is
/// there, and with no other key.
pub proof fn law_cloud_only_when_chosen(s: SettingsModel, key: Seq<char>)
    requires
        source_for(s) == Some(SourceModel::Groq(key)),
    ensures
        s.api_provider == ApiProvider::Groq,
        s.api_key == Some(key),
        !blank(key),
{
}

/// With mended settings there is always somebody who transcribes.
pub proof fn law_sanitized_settings_have_a_source(s: SettingsModel)
    ensures
        source_for(crate::settings::sanitized(s)) is Some,
        source_for(crate::settings::sanitized(s)) matches Some(SourceModel::Groq(_)) ==> has_key(
            s.api_key,
        ),
{
}

/// Whatever comes of it, turning a recording into text ends in the idle
/// state: with the failure to transcribe, with an empty text, or with the
/// injection, done or failed.
pub proof fn law_pipeline_ends_idle(
    m: MachineModel,
    source: SourceModel,
    text: Result<Seq<char>, TranscribeErrorModel>,
    injected: Result<(), InjectErrorModel>,
)
    requires
        m.state == AppState::Transcribing,
    ensures
        ({
            let transcribed = after_all(m, transcription_events(source, text));
            if text matches Ok(t) && t.len() > 0 {
                &&& transcribed.state == AppState::Injecting
                &&& after(transcribed, injection_event(injected)).state == AppState::Idle
            } else {
                transcribed.state == AppState::Idle
            }
        }),
{
    match text {
        Err(e) => {
            let event = transcription_events(source, text)[0];
            lemma_one_event(m, event);
        },
        Ok(t) => {
            lemma_one_event(m, EventModel::TranscriptionDone);
            lemma_two_events(m, EventModel::TranscriptionDone, EventModel::InjectionDone);
        },
    }
}

/// Stopping a recording twice is stopping it once: the second time nothing
/// is announced and nothing is transcribed.
pub proof fn law_stop_recording_is_idempotent(m: MachineModel)
    ensures
        ({
            let once = after(m, EventModel::StopRecording);
            &&& once.state != AppState::Recording
            &&& after(once, EventModel::StopRecording) == once
            &&& announcements(once, EventModel::StopRecording) == Seq::<StatePayload>::empty()
        }),
{
    let once = after(m, EventModel::StopRecording);
    assert(announcements(once, EventModel::StopRecording) =~= Seq::<StatePayload>::empty());
}

/// Who transcribes is who was chosen: the local model whatever the key is, and
/// the cloud service with the very key of the settings, provided that it has a
/// character that is no white space. Nobody stands in for the cloud service.
pub proof fn law_source_is_the_one_chosen(s: SettingsModel)
    ensures
        s.api_provider == ApiProvider::Offline ==> source_for(s) == Some(SourceModel::Offline),
        s.api_provider == ApiProvider::Groq ==> match s.api_key {
            Some(key) => if exists|i: int| 0 <= i < key.len() && !is_white_space(#[trigger] key[i]) {
                source_for(s) == Some(SourceModel::Groq(key))
            } else {
                source_for(s) is None
            },
            None => source_for(s) is None,
        },
{
}

/// The capture is started with the voice detection of the settings.
pub proof fn law_capture_has_the_settings(s: SettingsModel)
    ensures
        cfg_of(s).enabled == s.vad_enabled,
        cfg_of(s).silence_ms == s.vad_silence_ms,
        cfg_of(s).aggressiveness == s.vad_aggressiveness,
{
}

/// A transcription that failed is reported by who failed and why, and ends the
/// dictation: the error and the return to idle are announced.
pub proof fn law_failed_transcription_is_reported(
    m: MachineModel,
    key: Seq<char>,
    e: TranscribeErrorModel,
)
    ensures
        ({
            let cloud = transcription_events(SourceModel::Groq(key), Err(e));
            let local = transcription_events(SourceModel::Offline, Err(e));
            let announced = seq![
                StatePayload { state: AppState::Error, previous: m.state },
                StatePayload { state: AppState::Idle, previous: AppState::Error },
            ];
            &&& after_all(m, cloud) == (MachineModel {
                state: AppState::Idle,
                last_error: Some("Groq transkripsiyon: "@ + e.message()),
                ..m
            })
            &&& after_all(m, local) == (MachineModel {
                state: AppState::Idle,
                last_error: Some("Transkripsiyon: "@ + e.message()),
                ..m
            })
            &&& announced_all(m, cloud) == announced
            &&& announced_all(m, local) == announced
        }),
{
    let cloud = EventModel::Fail("Groq transkripsiyon: "@ + e.message());
    let local = EventModel::Fail("Transkripsiyon: "@ + e.message());
    assert(transcription_events(SourceModel::Groq(key), Err(e)) =~= seq![cloud]);
    assert(transcription_events(SourceModel::Offline, Err(e)) =~= seq![local]);
    lemma_one_event(m, cloud);
    lemma_one_event(m, local);
    law_failure_leads_to_idle(m, "Groq transkripsiyon: "@ + e.message());
    law_failure_leads_to_idle(m, "Transkripsiyon: "@ + e.message());
}

/// A text goes on to the injection and an empty one straight back to idle; each
/// step on the way is announced, and no failure is noted.
pub proof fn law_transcribed_text_goes_on(m: MachineModel, source: SourceModel, text: Seq<char>)
    requires
        m.state == AppState::Transcribing,
    ensures
        ({
            let events = transcription_events(source, Ok(text));
            let injecting = StatePayload {
                state: AppState::Injecting,
                previous: AppState::Transcribing,
            };
            let idle = StatePayload { state: AppState::Idle, previous: AppState::Injecting };
            if text.len() > 0 {
                &&& after_all(m, events) == (MachineModel { state: AppState::Injecting, ..m })
                &&& announced_all(m, events) == seq![injecting]
            } else {
                &&& after_all(m, events) == (MachineModel { state: AppState::Idle, ..m })
                &&& announced_all(m, events) == seq![injecting, idle]
            }
        }),
{
    let done = EventModel::TranscriptionDone;
    lemma_one_event(m, done);
    lemma_two_events(m, done, EventModel::InjectionDone);
    law_a_step_is_announced_once(m);
    law_a_step_is_announced_once(after(m, done));
    if text.len() == 0 {
        assert(announced_all(m, transcription_events(source, Ok(text))) =~= seq![
            StatePayload { state: AppState::Injecting, previous: AppState::Transcribing },
            StatePayload { state: AppState::Idle, previous: AppState::Injecting },
        ]);
    }
}

/// An injection ends in idle: done without a failure noted, or failed with the
/// reason noted.
pub proof fn law_injection_ends_the_dictation(m: MachineModel, e: InjectErrorModel)
    requires
        m.state == AppState::Injecting,
    ensures
        after(m, injection_event(Ok(()))) == (MachineModel { state: AppState::Idle, ..m }),
        announcements(m, injection_event(Ok(()))) == seq![
            StatePayload { state: AppState::Idle, previous: AppState::Injecting },
        ],
        after(m, injection_event(Err(e))) == (MachineModel {
            state: AppState::Idle,
            last_error: Some("Enjeksiyon: "@ + e.message()),
            ..m
        }),
        announcements(m, injection_event(Err(e))) == seq![
            StatePayload { state: AppState::Error, previous: AppState::Injecting },
            StatePayload { state: AppState::Idle, previous: AppState::Error },
        ],
{
    law_a_step_is_announced_once(m);
    law_failure_leads_to_idle(m, "Enjeksiyon: "@ + e.message());
}

/// A source is seen as it is, with its key.
pub proof fn law_a_source_is_seen_with_its_key(api_key: String)
    ensures
        (Source::Groq { api_key })@ == SourceModel::Groq(api_key@),
        Source::Offline@ == SourceModel::Offline,
{
}

} // verus!
