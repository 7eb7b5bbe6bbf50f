//! Capturing sound: what a recording is started with, what happens to the
//! samples that arrive, and when recording stops by itself.

use vstd::prelude::*;

use crate::buffer::{newest, SharedBuffer, BUFFER_CAP};
use crate::detector::silent;
use crate::device::{
    CaptureError, CaptureErrorModel, DefaultDevice, DeviceSearch, NamedDevice, StreamFailure,
    StreamPlan,
};
use crate::settings::{text_of, VadCfg};
use crate::vad::{law_portions_do_not_matter, mode_for, wrapped, EngineModel, VadEngine};

verus! {

/// The sample rate of everything behind the resampler, in Hz.
pub const TARGET_SAMPLE_RATE: usize = 16_000;

/// How often the silence is looked at, in milliseconds.
pub const VAD_WATCHER_TICK_MS: u64 = 50;

/// The mathematical counterpart of [`AudioCapture`].
pub ghost struct CaptureModel {
    /// A recording is running.
    pub active: bool,
    /// The voice detection, where it is on.
    pub engine: Option<EngineModel>,
    /// The silence since speech was last heard, in milliseconds.
    pub silence_ms: u32,
    /// Whoever watches the silence is to stop.
    pub watcher_cancel: bool,
}

impl CaptureModel {
    /// Ready to record: the counter is at zero, nothing is cancelled, and the
    /// voice detection is on where the settings ask for it and its
    /// aggressiveness exists.
    pub open spec fn armed(self, cfg: VadCfg) -> CaptureModel {
        CaptureModel {
            engine: match mode_for(cfg.aggressiveness) {
                Some(mode) if cfg.enabled => Some(EngineModel::fresh(mode)),
                _ => None,
            },
            silence_ms: 0,
            watcher_cancel: false,
            ..self
        }
    }

    /// After samples have arrived. Speech in one of their frames clears the
    /// counter of silence; otherwise it grows by the time of the frames.
    /// Without voice detection it is left alone.
    pub open spec fn after_input(self, pcm: Seq<i16>) -> CaptureModel {
        match self.engine {
            None => self,
            Some(e) => CaptureModel {
                engine: Some(e.after(pcm)),
                silence_ms: if e.says(pcm).contains(true) {
                    0
                } else {
                    wrapped((self.silence_ms + 30 * e.says(pcm).len()) as nat)
                },
                ..self
            },
        }
    }

    /// After recording was stopped.
    pub open spec fn stopped(self) -> CaptureModel {
        CaptureModel { active: false, watcher_cancel: true, ..self }
    }
}

/// What a look at the silence comes to: the recording is stopped where it was
/// silent for longer than the threshold.
pub open spec fn look(m: CaptureModel, threshold_ms: u32) -> WatcherStep {
    if m.watcher_cancel {
        WatcherStep::Exit
    } else if m.silence_ms > threshold_ms {
        WatcherStep::Stop
    } else {
        WatcherStep::Wait
    }
}

/// What whoever watches the silence does next.
#[derive(Debug, Clone, Copy, PartialEq, Eq, Structural)]
pub enum WatcherStep {
    /// Look again after [`VAD_WATCHER_TICK_MS`].
    Wait,
    /// Go away: the recording has ended.
    Exit,
    /// Stop the recording, and go away.
    Stop,
}

/// Samples that have arrived.
#[derive(Debug)]
pub struct Portion<'a, T> {
    /// As they are kept.
    pub samples: &'a [T],
    /// As the voice detection hears them.
    pub pcm: &'a [i16],
}

/// The state of the capture.
pub struct AudioCapture {
    active: bool,
    vad: Option<VadEngine>,
    silence_ms: u32,
    watcher_cancel: bool,
}

impl View for AudioCapture {
    type V = CaptureModel;

    closed spec fn view(&self) -> CaptureModel {
        CaptureModel {
            active: self.active,
            engine: match self.vad {
                Some(e) => Some(e@),
                None => None,
            },
            silence_ms: self.silence_ms,
            watcher_cancel: self.watcher_cancel,
        }
    }
}

impl AudioCapture {
    /// A capture at rest, and the buffer that it will fill.
    pub fn new<T>() -> (r: (Self, SharedBuffer<T>))
        ensures
            r.0@ == (CaptureModel {
                active: false,
                engine: None,
                silence_ms: 0,
                watcher_cancel: false,
            }),
            r.1@ == Seq::<T>::empty(),
    {
        let capture = AudioCapture { active: false, vad: None, silence_ms: 0, watcher_cancel: false };
        (capture, SharedBuffer::new())
    }

    /// Whether a recording is running.
    pub fn is_active(&self) -> (r: bool)
        ensures
            r == self@.active,
    {
        self.active
    }

    /// The silence since speech was last heard, in milliseconds.
    pub fn silence_ms(&self) -> (r: u32)
        ensures
            r == self@.silence_ms,
    {
        self.silence_ms
    }

    /// The names of the devices that tell one, in their order, or the reason
    /// why the devices could not be listed.
    pub fn list_devices(listed: Result<Vec<Option<String>>, String>) -> (r: Result<
        Vec<String>,
        CaptureError,
    >)
        ensures
            match (listed, r) {
                (Ok(devices), Ok(names)) => names@.map_values(|name: String| name@) == told_names(
                    devices@,
                ),
                (Err(e), Err(err)) => err@ == CaptureErrorModel::Devices(e@),
                _ => false,
            },
    {
        let devices = match listed {
            Ok(devices) => devices,
            Err(e) => {
                return Err(CaptureError::Devices(e));
            },
        };
        let ghost all = devices@;
        let mut names: Vec<String> = Vec::new();
        assert(all.take(0) =~= Seq::<Option<String>>::empty());
        assert(names@.map_values(|name: String| name@) =~= told_names(all.take(0)));
        for i in 0..devices.len()
            invariant
                devices@ == all,
                names@.map_values(|name: String| name@) == told_names(all.take(i as int)),
        {
            assert(all.take(i + 1).drop_last() =~= all.take(i as int));
            match &devices[i] {
                Some(name) => {
                    let ghost before = names@;
                    names.push(name.clone());
                    assert(names@.map_values(|name: String| name@) =~= before.map_values(
                        |name: String| name@,
                    ).push(name@));
                },
                None => {},
            }
        }
        assert(all.take(all.len() as int) =~= all);
        Ok(names)
    }

    /// Begins a recording: refuses where one is running, makes the capture
    /// ready, and says which device to look for.
    pub fn start(&mut self, device: Option<&str>, cfg: VadCfg) -> (r: Result<
        DeviceSearch,
        CaptureError,
    >)
        ensures
            match r {
                Err(err) => {
                    &&& old(self)@.active
                    &&& err@ == CaptureErrorModel::AlreadyActive
                    &&& final(self)@ == old(self)@
                },
                Ok(search) => {
                    &&& !old(self)@.active
                    &&& final(self)@ == old(self)@.armed(cfg)
                    &&& match (device, search) {
                        (Some(name), DeviceSearch::Named(n)) => n.name@ == name@ && n.cfg == cfg,
                        (None, DeviceSearch::Default(d)) => d.cfg == cfg,
                        _ => false,
                    }
                },
            },
    {
        if self.active {
            return Err(CaptureError::AlreadyActive);
        }
        self.silence_ms = 0;
        self.watcher_cancel = false;
        self.vad = if cfg.enabled {
            match VadEngine::new(cfg.aggressiveness) {
                Ok(engine) => Some(engine),
                Err(_) => None,
            }
        } else {
            None
        };
        match device {
            Some(name) => Ok(DeviceSearch::Named(NamedDevice { name: name.to_owned(), cfg })),
            None => Ok(DeviceSearch::Default(DefaultDevice { cfg })),
        }
    }

    /// Ends the beginning of a recording, with the stream running or with the
    /// reason why it is not. The answer is the silence to watch for, where the
    /// recording is to stop by itself.
    pub fn started(&mut self, plan: StreamPlan, opened: Result<(), StreamFailure>) -> (r: Result<
        Option<u32>,
        CaptureError,
    >)
        ensures
            match (opened, r) {
                (Ok(_), Ok(watch)) => {
                    &&& final(self)@ == (CaptureModel { active: true, ..old(self)@ })
                    &&& watch == (if plan.cfg.enabled {
                        Some(plan.cfg.silence_ms)
                    } else {
                        None
                    })
                },
                (Err(StreamFailure::Build(e)), Err(err)) => {
                    &&& err@ == CaptureErrorModel::Stream(e@)
                    &&& final(self)@ == old(self)@
                },
                (Err(StreamFailure::Play), Err(err)) => {
                    &&& err@ == CaptureErrorModel::Play
                    &&& final(self)@ == old(self)@
                },
                _ => false,
            },
    {
        match opened {
            Ok(_) => {
                self.active = true;
                if plan.cfg.enabled {
                    Ok(Some(plan.cfg.silence_ms))
                } else {
                    Ok(None)
                }
            },
            Err(StreamFailure::Build(e)) => Err(CaptureError::Stream(e)),
            Err(StreamFailure::Play) => Err(CaptureError::Play),
        }
    }

    /// Stops the recording, and whoever watches the silence.
    pub fn stop(&mut self)
        ensures
            final(self)@ == old(self)@.stopped(),
    {
        self.active = false;
        self.watcher_cancel = true;
    }

    /// Takes all samples out of the buffer.
    pub fn drain<T>(buf: &mut SharedBuffer<T>) -> (r: Vec<T>)
        ensures
            r@ == old(buf)@,
            final(buf)@ == Seq::<T>::empty(),
    {
        buf.take_all()
    }

    /// Takes samples that have arrived: the voice detection hears them, and
    /// the buffer gets them. Where the resampler failed on them, for the reason
    /// given, they are dropped and nothing changes.
    pub fn handle_input<T: Copy>(
        &mut self,
        input: Result<Portion<'_, T>, String>,
        buf: &mut SharedBuffer<T>,
    )
        ensures
            match input {
                Err(_) => final(self)@ == old(self)@ && final(buf)@ == old(buf)@,
                Ok(p) => {
                    &&& final(self)@ == old(self)@.after_input(p.pcm@)
                    // Where nothing but silence was heard, more of it counts in full.
                    &&& old(self)@.engine matches Some(e) ==> e.heard_silence() && silent(p.pcm@)
                        ==> {
                        &&& final(self)@.silence_ms == wrapped(
                            old(self)@.silence_ms as nat + 30 * ((e.waiting + p.pcm@).len() / 480),
                        )
                        &&& final(self)@.engine matches Some(f) && f.heard_silence()
                    }
                    &&& final(buf)@ == newest(old(buf)@ + p.samples@, BUFFER_CAP as nat)
                },
            },
    {
        let portion = match input {
            Ok(portion) => portion,
            Err(_) => {
                return;
            },
        };
        match &mut self.vad {
            Some(engine) => {
                match engine.listen(portion.pcm) {
                    None => {
                        self.silence_ms = 0;
                    },
                    Some(ms) => {
                        self.silence_ms = self.silence_ms.wrapping_add(ms);
                    },
                }
            },
            None => {},
        }
        buf.append(portion.samples);
    }

    /// One look at the silence, to be taken every [`VAD_WATCHER_TICK_MS`].
    pub fn watcher_tick(&mut self, threshold_ms: u32) -> (r: WatcherStep)
        ensures
            r == look(old(self)@, threshold_ms),
            final(self)@ == (CaptureModel {
                watcher_cancel: r != WatcherStep::Wait,
                ..old(self)@
            }),
    {
        if self.watcher_cancel {
            WatcherStep::Exit
        } else if self.silence_ms > threshold_ms {
            self.watcher_cancel = true;
            WatcherStep::Stop
        } else {
            WatcherStep::Wait
        }
    }
}

/// The names among `listed`, in their order.
pub open spec fn told_names(listed: Seq<Option<String>>) -> Seq<Seq<char>>
    decreases listed.len(),
{
    if listed.len() == 0 {
        seq![]
    } else {
        match text_of(listed.last()) {
            Some(name) => told_names(listed.drop_last()).push(name),
            None => told_names(listed.drop_last()),
        }
    }
}

/// As long as no speech is heard, the counter of silence does not depend on
/// how the samples are cut into portions.
pub proof fn law_silence_adds_up(m: CaptureModel, a: Seq<i16>, b: Seq<i16>)
    requires
        m.engine matches Some(e) ==> !e.says(a + b).contains(true),
    ensures
        m.after_input(a).after_input(b) == m.after_input(a + b),
{
    match m.engine {
        None => {},
        Some(e) => {
            law_portions_do_not_matter(e, a, b);
            let u = e.says(a);
            let v = e.after(a).says(b);
            let w = e.says(a + b);
            if u.contains(true) {
                let k = choose|k: int| 0 <= k < u.len() && u[k] == true;
                assert(w[k] == true);
            }
            if v.contains(true) {
                let k = choose|k: int| 0 <= k < v.len() && v[k] == true;
                assert(w[u.len() + k] == true);
            }
            assert(w.len() == u.len() + v.len());
        },
    }
}

/// Silence for longer than the threshold stops the recording: where no speech
/// was in it, and what was counted before and its frames last longer, the next
/// look says so.
pub proof fn law_silence_stops_the_recording(m: CaptureModel, pcm: Seq<i16>, threshold_ms: u32)
    requires
        !m.watcher_cancel,
        m.engine matches Some(e) && !e.says(pcm).contains(true) && threshold_ms < m.silence_ms + 30
            * e.says(pcm).len() <= u32::MAX,
    ensures
        look(m.after_input(pcm), threshold_ms) == WatcherStep::Stop,
{
}

/// Silence that only reaches the threshold does not stop the recording yet.
pub proof fn law_silence_has_to_exceed_the_threshold(m: CaptureModel, threshold_ms: u32)
    requires
        !m.watcher_cancel,
    ensures
        look(m, threshold_ms) == WatcherStep::Stop <==> m.silence_ms > threshold_ms,
        m.silence_ms == threshold_ms ==> look(m, threshold_ms) == WatcherStep::Wait,
{
}

/// Speech keeps the recording going, however long it was silent before.
pub proof fn law_speech_keeps_the_recording(m: CaptureModel, pcm: Seq<i16>, threshold_ms: u32)
    requires
        !m.watcher_cancel,
        m.engine matches Some(e) && e.says(pcm).contains(true),
    ensures
        m.after_input(pcm).silence_ms == 0,
        look(m.after_input(pcm), threshold_ms) == WatcherStep::Wait,
{
}

/// Without voice detection nothing that is heard counts as silence, so that
/// the recording is stopped by hand alone.
pub proof fn law_without_detection_silence_is_not_counted(
    m: CaptureModel,
    cfg: VadCfg,
    pcm: Seq<i16>,
    threshold_ms: u32,
)
    requires
        !cfg.enabled || mode_for(cfg.aggressiveness) is None,
    ensures
        m.armed(cfg).after_input(pcm) == m.armed(cfg),
        look(m.armed(cfg), threshold_ms) == WatcherStep::Wait,
{
}

/// Whoever watches the silence leaves once the recording is stopped.
pub proof fn law_stopping_ends_the_watch(m: CaptureModel, threshold_ms: u32)
    ensures
        look(m.stopped(), threshold_ms) == WatcherStep::Exit,
{
}

/// Stopping twice is stopping once.
pub proof fn law_stop_is_idempotent(m: CaptureModel)
    ensures
        m.stopped().stopped() == m.stopped(),
{
}

/// A start with voice detection on listens as the user set it: with an engine
/// that has heard nothing and whose detector has the mode of the
/// aggressiveness, in the detector's own numbers. Otherwise nothing listens.
/// Nothing is counted or cancelled yet.
pub proof fn law_detection_is_armed_as_set(m: CaptureModel, cfg: VadCfg)
    ensures
        m.armed(cfg).engine is Some <==> cfg.enabled && 1 <= cfg.aggressiveness <= 3,
        m.armed(cfg).engine matches Some(e) ==> {
            &&& e.heard.len() == 0
            &&& e.waiting.len() == 0
            &&& cfg.aggressiveness == 1 ==> e.mode == 0
            &&& cfg.aggressiveness == 2 ==> e.mode == 2
            &&& cfg.aggressiveness == 3 ==> e.mode == 3
        },
        m.armed(cfg).silence_ms == 0,
        !m.armed(cfg).watcher_cancel,
        m.armed(cfg).active == m.active,
{
}

/// What samples do to the counter of silence: a frame with speech sets it to
/// zero; where no frame has speech it grows by 30 ms for each. The samples go
/// to the detector, and nothing else changes.
pub proof fn law_input_counts_the_silence(m: CaptureModel, pcm: Seq<i16>)
    ensures
        m.after_input(pcm).active == m.active,
        m.after_input(pcm).watcher_cancel == m.watcher_cancel,
        m.engine is None ==> m.after_input(pcm) == m,
        m.engine matches Some(e) ==> {
            let said = e.says(pcm);
            &&& m.after_input(pcm).engine == Some(e.after(pcm))
            &&& (exists|i: int| 0 <= i < said.len() && #[trigger] said[i])
                ==> m.after_input(pcm).silence_ms == 0
            &&& (forall|i: int| 0 <= i < said.len() ==> !#[trigger] said[i]) && m.silence_ms + 30
                * ((e.waiting.len() + pcm.len()) / 480) <= u32::MAX
                ==> m.after_input(pcm).silence_ms == m.silence_ms + 30 * ((e.waiting.len()
                + pcm.len()) / 480)
        },
{
    if let Some(e) = m.engine {
        let said = e.says(pcm);
        if exists|i: int| 0 <= i < said.len() && #[trigger] said[i] {
            let k = choose|i: int| 0 <= i < said.len() && #[trigger] said[i];
            assert(said[k] == true);
        }
    }
}

/// Whoever watches leaves where that is asked, stops the recording where it
/// was silent for longer than the threshold, and waits otherwise.
pub proof fn law_a_look_leaves_stops_or_waits(m: CaptureModel, threshold_ms: u32)
    ensures
        look(m, threshold_ms) == WatcherStep::Exit <==> m.watcher_cancel,
        look(m, threshold_ms) == WatcherStep::Stop <==> !m.watcher_cancel && m.silence_ms
            > threshold_ms,
        look(m, threshold_ms) == WatcherStep::Wait <==> !m.watcher_cancel && m.silence_ms
            <= threshold_ms,
{
}

/// Stopping ends the recording and the watch, and leaves the rest.
pub proof fn law_stop_ends_recording_and_watch(m: CaptureModel)
    ensures
        !m.stopped().active,
        m.stopped().watcher_cancel,
        m.stopped().engine == m.engine,
        m.stopped().silence_ms == m.silence_ms,
{
}

/// Devices are listed one by one, in their order: two lists one after the
/// other give the names of the first and then those of the second. A device
/// that tells its name gives that name, and one that does not gives none.
pub proof fn law_devices_are_listed_in_order(a: Seq<Option<String>>, b: Seq<Option<String>>)
    ensures
        told_names(a + b) == told_names(a) + told_names(b),
        forall|name: String| told_names(seq![Some(name)]) == seq![#[trigger] name@],
        told_names(seq![None]) == Seq::<Seq<char>>::empty(),
        told_names(seq![]) == Seq::<Seq<char>>::empty(),
    decreases b.len(),
{
    let none = Seq::<Option<String>>::empty();
    assert(told_names(none) =~= Seq::<Seq<char>>::empty());
    assert forall|name: String| told_names(seq![Some(name)]) == seq![#[trigger] name@] by {
        assert(seq![Some(name)].drop_last() =~= none);
        assert(seq![Some(name)].last() == Some(name));
        assert(told_names(seq![Some(name)]) =~= seq![name@]);
    }
    assert(seq![None::<String>].drop_last() =~= none);
    assert(seq![None::<String>].last() is None);
    if b.len() == 0 {
        assert(a + b =~= a);
        assert(told_names(a) + told_names(b) =~= told_names(a));
    } else {
        law_devices_are_listed_in_order(a, b.drop_last());
        assert((a + b).drop_last() =~= a + b.drop_last());
        assert(told_names(a + b) =~= told_names(a) + told_names(b));
    }
}

} // verus!
