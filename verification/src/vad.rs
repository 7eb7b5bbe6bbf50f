//! Voice activity detection over fixed frames.
//!
//! Samples arrive in portions of any size. They are cut into frames of 30 ms,
//! each frame is put to the detector, and what does not fill a frame waits
//! for the next portion.

use vstd::prelude::*;
use vstd::slice::slice_subrange;

use crate::audio::TARGET_SAMPLE_RATE;
use crate::detector::{all_silent, is_voice_segment, new_detector, silent, DetectorMode, DetectorRate};
use crate::text::decimal_text;

verus! {

/// The samples of one frame: 30 ms at [`TARGET_SAMPLE_RATE`].
pub const FRAME_SAMPLES: usize = TARGET_SAMPLE_RATE * 30 / 1000;

/// The time that one frame stands for, in milliseconds.
pub const FRAME_MS: u32 = 30;

/// The samples of one piece of a long portion: a minute.
const LISTEN_SAMPLES: usize = TARGET_SAMPLE_RATE * 60;

/// A count of milliseconds as a 32-bit counter shows it.
pub open spec fn wrapped(n: nat) -> u32 {
    (n % 0x1_0000_0000) as u32
}

/// The whole frames of [`FRAME_SAMPLES`] samples at the front of `s`, in
/// order.
pub open spec fn frames_of(s: Seq<i16>) -> Seq<Seq<i16>> {
    Seq::new(s.len() / 480, |i: int| s.subrange(480 * i, 480 * (i + 1)))
}

/// What is left of `s` behind its whole frames.
pub open spec fn leftover(s: Seq<i16>) -> Seq<i16> {
    s.subrange(480 * (s.len() / 480) as int, s.len() as int)
}

/// The detector's answer to each of `frames`, put to it one after the other.
pub open spec fn votes(
    rate: nat,
    mode: nat,
    heard: Seq<Seq<i16>>,
    frames: Seq<Seq<i16>>,
) -> Seq<bool> {
    Seq::new(
        frames.len(),
        |i: int| crate::detector::fvad_decision(rate, mode, heard + frames.take(i), frames[i]),
    )
}

/// How many of `votes` say that there was speech.
pub open spec fn speech_votes(votes: Seq<bool>) -> nat
    decreases votes.len(),
{
    if votes.len() == 0 {
        0
    } else {
        speech_votes(votes.drop_last()) + if votes.last() { 1nat } else { 0nat }
    }
}

/// Why there is no detector.
#[derive(Debug, Clone, Copy, PartialEq, Eq, Structural)]
pub enum VadError {
    /// An aggressiveness that is none of 1, 2 and 3.
    InvalidAggressiveness(u8),
}

impl VadError {
    /// The message for the user.
    pub open spec fn message_text(self) -> Seq<char> {
        match self {
            VadError::InvalidAggressiveness(n) => "Geçersiz VAD agresifliği: "@
                + crate::text::decimal(n as nat) + " (1-3 arası olmalı)"@,
        }
    }

    /// The message for the user.
    pub fn message(&self) -> (r: String)
        ensures
            r@ == self.message_text(),
    {
        match self {
            VadError::InvalidAggressiveness(n) => {
                let mut r = "Geçersiz VAD agresifliği: ".to_owned();
                r.append(decimal_text(*n as u64).as_str());
                r.append(" (1-3 arası olmalı)");
                r
            },
        }
    }
}

/// The detector mode for an aggressiveness: 1 is the one that misses least
/// speech, 2 the balance, 3 the one that stops cleanly even in noise.
pub open spec fn mode_for(aggressiveness: u8) -> Option<DetectorMode> {
    match aggressiveness {
        1 => Some(DetectorMode::Quality),
        2 => Some(DetectorMode::Aggressive),
        3 => Some(DetectorMode::VeryAggressive),
        _ => None,
    }
}

/// The detector mode for an aggressiveness of 1 to 3; any other number is an
/// error.
pub fn aggressiveness_to_mode(aggressiveness: u8) -> (r: Result<DetectorMode, VadError>)
    ensures
        match mode_for(aggressiveness) {
            Some(mode) => r == Ok::<DetectorMode, VadError>(mode),
            None => r == Err::<DetectorMode, VadError>(
                VadError::InvalidAggressiveness(aggressiveness),
            ),
        },
{
    match aggressiveness {
        1 => Ok(DetectorMode::Quality),
        2 => Ok(DetectorMode::Aggressive),
        3 => Ok(DetectorMode::VeryAggressive),
        other => Err(VadError::InvalidAggressiveness(other)),
    }
}

/// The outcome of one [`VadEngine::process`].
#[derive(Debug, Clone, Copy, PartialEq, Eq, Structural)]
pub struct VadFrameResult {
    /// At least one of the frames held speech.
    pub any_speech: bool,
    /// How many frames held none.
    pub silent_frames: u32,
    /// How many frames held speech.
    pub speech_frames: u32,
}

impl Default for VadFrameResult {
    /// No frame yet.
    fn default() -> (r: Self)
        ensures
            r == (VadFrameResult { any_speech: false, silent_frames: 0, speech_frames: 0 }),
    {
        VadFrameResult { any_speech: false, silent_frames: 0, speech_frames: 0 }
    }
}

impl VadFrameResult {
    /// The time of the silent frames, in milliseconds.
    pub fn silence_ms(&self) -> (r: u32)
        requires
            self.silent_frames * FRAME_MS <= u32::MAX,
        ensures
            r == self.silent_frames * FRAME_MS,
    {
        self.silent_frames * FRAME_MS
    }

    /// Counts one more frame, with what the detector said of it. A frame that
    /// the detector refused counts as silent.
    pub fn record(&mut self, decision: Result<bool, ()>)
        requires
            old(self).silent_frames + old(self).speech_frames < u32::MAX,
        ensures
            *final(self) == (if decision == Ok::<bool, ()>(true) {
                VadFrameResult {
                    any_speech: true,
                    silent_frames: old(self).silent_frames,
                    speech_frames: (old(self).speech_frames + 1) as u32,
                }
            } else {
                VadFrameResult {
                    any_speech: old(self).any_speech,
                    silent_frames: (old(self).silent_frames + 1) as u32,
                    speech_frames: old(self).speech_frames,
                }
            }),
    {
        let is_voice = match decision {
            Ok(voice) => voice,
            Err(_) => false,
        };
        if is_voice {
            self.speech_frames = self.speech_frames + 1;
            self.any_speech = true;
        } else {
            self.silent_frames = self.silent_frames + 1;
        }
    }

    /// The counts of a run of frames with the given answers.
    pub open spec fn counts(self, votes: Seq<bool>) -> bool {
        &&& self.speech_frames == speech_votes(votes)
        &&& self.silent_frames == votes.len() - speech_votes(votes)
        &&& self.any_speech <==> votes.contains(true)
    }
}

/// The mathematical counterpart of [`VadEngine`].
pub ghost struct EngineModel {
    /// The number of the detector's mode.
    pub mode: nat,
    /// The frames that the detector has been given.
    pub heard: Seq<Seq<i16>>,
    /// The samples that wait for their frame to fill.
    pub waiting: Seq<i16>,
}

impl EngineModel {
    /// An engine that has been given nothing.
    pub open spec fn fresh(mode: DetectorMode) -> EngineModel {
        EngineModel { mode: mode.level(), heard: seq![], waiting: seq![] }
    }

    /// The engine after more samples.
    pub open spec fn after(self, pcm: Seq<i16>) -> EngineModel {
        let all = self.waiting + pcm;
        EngineModel {
            heard: self.heard + frames_of(all),
            waiting: leftover(all),
            ..self
        }
    }

    /// What the detector says of the frames that more samples fill.
    pub open spec fn says(self, pcm: Seq<i16>) -> Seq<bool> {
        votes(16, self.mode, self.heard, frames_of(self.waiting + pcm))
    }

    /// Everything that the engine was given is silence.
    pub open spec fn heard_silence(self) -> bool {
        all_silent(self.heard) && silent(self.waiting)
    }
}

/// A voice detector that buffers partial frames.
pub struct VadEngine {
    vad: webrtc_vad::Vad,
    carry: Vec<i16>,
}

impl View for VadEngine {
    type V = EngineModel;

    closed spec fn view(&self) -> EngineModel {
        EngineModel {
            mode: crate::detector::fvad_mode(self.vad),
            heard: crate::detector::fvad_heard(self.vad),
            waiting: self.carry@,
        }
    }
}

impl VadEngine {
    #[verifier::type_invariant]
    spec fn valid(self) -> bool {
        &&& self.carry@.len() < FRAME_SAMPLES
        &&& crate::detector::fvad_rate(self.vad) == DetectorRate::Rate16kHz.per_ms()
    }

    /// A new engine. The aggressiveness is 1, 2 or 3; any other is an error.
    pub fn new(aggressiveness: u8) -> (r: Result<Self, VadError>)
        ensures
            match mode_for(aggressiveness) {
                Some(mode) => r matches Ok(e) && e@ == EngineModel::fresh(mode),
                None => r matches Err(e) && e == VadError::InvalidAggressiveness(aggressiveness),
            },
    {
        let mode = match aggressiveness_to_mode(aggressiveness) {
            Ok(mode) => mode,
            Err(e) => {
                return Err(e);
            },
        };
        let vad = new_detector(DetectorRate::Rate16kHz, mode);
        Ok(VadEngine { vad, carry: Vec::new() })
    }

    /// How many samples wait for their frame to fill.
    pub fn carry_len(&self) -> (r: usize)
        ensures
            r == self@.waiting.len(),
            r < FRAME_SAMPLES,
    {
        proof {
            use_type_invariant(self);
        }
        self.carry.len()
    }

    /// Takes samples, puts every frame that is now whole to the detector, and
    /// counts its answers. What fills no frame waits for the next call.
    pub fn process(&mut self, pcm: &[i16]) -> (r: VadFrameResult)
        requires
            (old(self)@.waiting + pcm@).len() / 480 <= u32::MAX,
        ensures
            final(self)@ == old(self)@.after(pcm@),
            r.counts(old(self)@.says(pcm@)),
            // An engine that has heard nothing but silence finds no speech in more of it.
            old(self)@.heard_silence() && silent(pcm@) ==> {
                &&& !r.any_speech
                &&& r.speech_frames == 0
                &&& r.silent_frames == (old(self)@.waiting + pcm@).len() / 480
                &&& final(self)@.heard_silence()
            },
    {
        proof {
            use_type_invariant(&*self);
        }
        let ghost all = self.carry@ + pcm@;
        let ghost heard = crate::detector::fvad_heard(self.vad);
        let ghost mode = crate::detector::fvad_mode(self.vad);
        let ghost said = votes(16, mode, heard, frames_of(all));
        let mut carry: Vec<i16> = Vec::new();
        std::mem::swap(&mut carry, &mut self.carry);
        carry.extend_from_slice(pcm);
        assert(carry@ =~= all);
        assert(silent(old(self)@.waiting) && silent(pcm@) ==> silent(all));

        let mut result = VadFrameResult::default();
        let n_full: usize = carry.len() / FRAME_SAMPLES;
        assert(frames_of(all).take(0) =~= Seq::<Seq<i16>>::empty());
        assert(heard + frames_of(all).take(0) =~= heard);
        let mut start: usize = 0;
        for i in 0..n_full
            invariant
                carry@ == all,
                self.carry@.len() == 0,
                n_full == all.len() / 480,
                start == 480 * i,
                n_full <= u32::MAX,
                said == votes(16, mode, heard, frames_of(all)),
                said.len() == n_full,
                crate::detector::fvad_rate(self.vad) == 16,
                crate::detector::fvad_mode(self.vad) == mode,
                crate::detector::fvad_heard(self.vad) == heard + frames_of(all).take(i as int),
                result.counts(said.take(i as int)),
                speech_votes(said.take(i as int)) <= i,
                all_silent(heard) && silent(all) ==> speech_votes(said.take(i as int)) == 0,
        {
            assert(480 * (i + 1) <= carry.len());
            let frame = slice_subrange(carry.as_slice(), start, start + FRAME_SAMPLES);
            assert(frame@ == frames_of(all)[i as int]);
            proof {
                if all_silent(heard) && silent(all) {
                    lemma_silent_frames(heard, all, i as int);
                }
            }
            let decision = is_voice_segment(&mut self.vad, frame);
            assert(decision == Ok::<bool, ()>(said[i as int]));
            proof {
                lemma_votes_step(said, i as int);
            }
            result.record(decision);
            start = start + FRAME_SAMPLES;
            assert(frames_of(all).take(i + 1) =~= frames_of(all).take(i as int).push(frame@));
            assert(heard + frames_of(all).take(i + 1) =~= (heard + frames_of(all).take(
                i as int,
            )).push(frame@));
        }
        assert(said.take(n_full as int) =~= said);
        assert(frames_of(all).take(n_full as int) =~= frames_of(all));

        let rest = carry.split_off(start);
        assert(rest@ =~= leftover(all));
        proof {
            if all_silent(heard) && silent(all) {
                lemma_silent_frames(heard, all, n_full as int);
                lemma_no_speech(said);
            }
        }
        self.carry = rest;
        result
    }

    /// Takes samples like [`VadEngine::process`], however many there are, and
    /// says how long they were silent, in milliseconds as a 32-bit counter
    /// shows it; `None` where one of their frames held speech.
    pub fn listen(&mut self, pcm: &[i16]) -> (r: Option<u32>)
        ensures
            final(self)@ == old(self)@.after(pcm@),
            match r {
                None => old(self)@.says(pcm@).contains(true),
                Some(ms) => {
                    &&& !old(self)@.says(pcm@).contains(true)
                    &&& ms == wrapped(30 * old(self)@.says(pcm@).len())
                },
            },
            // An engine that has heard nothing but silence finds no speech in more of it.
            old(self)@.heard_silence() && silent(pcm@) ==> {
                &&& r is Some
                &&& final(self)@.heard_silence()
            },
    {
        let ghost m = self@;
        let mut speech: bool = false;
        let mut ms: u32 = 0;
        let mut done: usize = 0;
        proof {
            assert(pcm@.take(0) =~= Seq::<i16>::empty());
            assert(m.waiting + pcm@.take(0) =~= m.waiting);
            use_type_invariant(&*self);
            assert(m.heard + frames_of(m.waiting) =~= m.heard);
            assert(leftover(m.waiting) =~= m.waiting);
            assert(m.says(pcm@.take(0)) =~= Seq::<bool>::empty());
        }
        // piece by piece, so that the counts of one piece fit their type
        while done < pcm.len()
            invariant
                done <= pcm@.len(),
                self@ == m.after(pcm@.take(done as int)),
                speech <==> m.says(pcm@.take(done as int)).contains(true),
                !speech ==> ms == wrapped(30 * m.says(pcm@.take(done as int)).len()),
                m.heard_silence() && silent(pcm@) ==> !speech && self@.heard_silence(),
            decreases pcm@.len() - done,
        {
            let end: usize = if pcm.len() - done > LISTEN_SAMPLES {
                done + LISTEN_SAMPLES
            } else {
                pcm.len()
            };
            let piece = slice_subrange(pcm, done, end);
            let ghost said = self@.says(piece@);
            proof {
                use_type_invariant(&*self);
                law_portions_do_not_matter(m, pcm@.take(done as int), piece@);
                assert(pcm@.take(done as int) + piece@ =~= pcm@.take(end as int));
                lemma_contains_either(m.says(pcm@.take(done as int)), said);
                assert(silent(pcm@) ==> silent(piece@));
            }
            let heard = self.process(piece);
            proof {
                law_any_speech_is_counted(said, heard);
            }
            if heard.any_speech {
                speech = true;
            } else {
                ms = ms.wrapping_add(heard.silence_ms());
            }
            done = end;
        }
        assert(pcm@.take(pcm@.len() as int) =~= pcm@);
        if speech {
            None
        } else {
            Some(ms)
        }
    }
}

/// Two runs of answers hold speech exactly where one of them does.
proof fn lemma_contains_either(u: Seq<bool>, v: Seq<bool>)
    ensures
        (u + v).contains(true) <==> u.contains(true) || v.contains(true),
{
    let w = u + v;
    if u.contains(true) {
        let k = choose|k: int| 0 <= k < u.len() && u[k] == true;
        assert(w[k] == true);
    }
    if v.contains(true) {
        let k = choose|k: int| 0 <= k < v.len() && v[k] == true;
        assert(w[u.len() + k] == true);
    }
    if w.contains(true) {
        let k = choose|k: int| 0 <= k < w.len() && w[k] == true;
        if k < u.len() {
            assert(u[k] == true);
        } else {
            assert(v[k - u.len()] == true);
        }
    }
}

/// One more answer changes the count by that answer alone.
proof fn lemma_votes_step(said: Seq<bool>, i: int)
    requires
        0 <= i < said.len(),
        speech_votes(said.take(i)) <= i,
    ensures
        speech_votes(said.take(i + 1)) == speech_votes(said.take(i)) + if said[i] { 1nat } else {
            0nat
        },
        speech_votes(said.take(i + 1)) <= i + 1,
        said.take(i + 1).contains(true) <==> said.take(i).contains(true) || said[i],
{
    let a = said.take(i);
    let b = said.take(i + 1);
    assert(b.drop_last() =~= a);
    assert(b.last() == said[i]);
    if a.contains(true) {
        let k = choose|k: int| 0 <= k < a.len() && a[k] == true;
        assert(b[k] == true);
    }
    if said[i] {
        assert(b[i] == true);
    }
    if b.contains(true) && !said[i] {
        let k = choose|k: int| 0 <= k < b.len() && b[k] == true;
        assert(a[k] == true);
    }
}

/// The frames of silent samples are silent, and so is what they leave over.
proof fn lemma_silent_frames(heard: Seq<Seq<i16>>, all: Seq<i16>, i: int)
    requires
        all_silent(heard),
        silent(all),
        0 <= i <= all.len() / 480,
    ensures
        all_silent(heard + frames_of(all).take(i)),
        i < all.len() / 480 ==> silent(frames_of(all)[i]),
        silent(leftover(all)),
{
    assert forall|k: int| 0 <= k < all.len() / 480 implies silent(#[trigger] frames_of(all)[k]) by {
        let f = frames_of(all)[k];
        assert forall|j: int| 0 <= j < f.len() implies #[trigger] f[j] == 0 by {
            assert(f[j] == all[480 * k + j]);
        }
    }
    let h = heard + frames_of(all).take(i);
    assert forall|k: int| 0 <= k < h.len() implies silent(#[trigger] h[k]) by {
        if k >= heard.len() {
            assert(h[k] == frames_of(all)[k - heard.len()]);
        } else {
            assert(h[k] == heard[k]);
        }
    }
    let rest = leftover(all);
    assert forall|j: int| 0 <= j < rest.len() implies #[trigger] rest[j] == 0 by {
        assert(rest[j] == all[480 * (all.len() / 480) as int + j]);
    }
}

/// Where no vote was counted, none says that there was speech.
proof fn lemma_no_speech(said: Seq<bool>)
    requires
        speech_votes(said) == 0,
    ensures
        !said.contains(true),
    decreases said.len(),
{
    if said.len() > 0 {
        lemma_no_speech(said.drop_last());
        if said.contains(true) {
            let k = choose|k: int| 0 <= k < said.len() && said[k] == true;
            assert(said.drop_last()[k] == true);
        }
    }
}

/// Two portions one after the other give the same frames and leave the same
/// samples over as both at once.
proof fn lemma_frames_follow_on(waiting: Seq<i16>, a: Seq<i16>, b: Seq<i16>)
    ensures
        frames_of(waiting + a) + frames_of(leftover(waiting + a) + b) == frames_of(waiting + a + b),
        leftover(leftover(waiting + a) + b) == leftover(waiting + a + b),
{
    let first = waiting + a;
    let n1 = (first.len() / 480) as int;
    let second = leftover(first) + b;
    let n2 = (second.len() / 480) as int;
    let all = waiting + a + b;
    assert(second =~= all.subrange(480 * n1, all.len() as int));
    assert(all.len() / 480 == n1 + n2);
    let parts = frames_of(first) + frames_of(second);
    assert forall|i: int| 0 <= i < n1 + n2 implies #[trigger] parts[i] == frames_of(all)[i] by {
        if i < n1 {
            assert(480 * (i + 1) <= first.len());
            assert(first.subrange(480 * i, 480 * (i + 1)) =~= all.subrange(480 * i, 480 * (i + 1)));
        } else {
            let k = i - n1;
            assert(480 * (k + 1) <= second.len());
            assert(second.subrange(480 * k, 480 * (k + 1)) =~= all.subrange(480 * i, 480 * (i + 1)));
        }
    }
    assert(parts =~= frames_of(all));
    assert(leftover(second) =~= leftover(all));
}

/// What the detector says of two runs of frames is what it says of the first,
/// followed by what it says of the second with the first already heard.
proof fn lemma_votes_follow_on(
    rate: nat,
    mode: nat,
    heard: Seq<Seq<i16>>,
    f: Seq<Seq<i16>>,
    g: Seq<Seq<i16>>,
)
    ensures
        votes(rate, mode, heard, f + g) == votes(rate, mode, heard, f) + votes(
            rate,
            mode,
            heard + f,
            g,
        ),
{
    let whole = votes(rate, mode, heard, f + g);
    let parts = votes(rate, mode, heard, f) + votes(rate, mode, heard + f, g);
    assert forall|i: int| 0 <= i < whole.len() implies #[trigger] whole[i] == parts[i] by {
        if i < f.len() {
            assert((f + g).take(i) =~= f.take(i));
            assert((f + g)[i] == f[i]);
        } else {
            assert(heard + (f + g).take(i) =~= (heard + f) + g.take(i - f.len()));
            assert((f + g)[i] == g[i - f.len()]);
        }
    }
    assert(whole =~= parts);
}

/// It does not matter how the samples are cut into portions: two portions
/// one after the other leave the engine as both at once would, and the
/// detector says the same of every frame.
pub proof fn law_portions_do_not_matter(e: EngineModel, a: Seq<i16>, b: Seq<i16>)
    ensures
        e.after(a).after(b) == e.after(a + b),
        e.says(a) + e.after(a).says(b) == e.says(a + b),
{
    assert(e.waiting + (a + b) =~= e.waiting + a + b);
    lemma_frames_follow_on(e.waiting, a, b);
    let f = frames_of(e.waiting + a);
    let g = frames_of(leftover(e.waiting + a) + b);
    lemma_votes_follow_on(16, e.mode, e.heard, f, g);
    assert((e.heard + f) + g =~= e.heard + (f + g));
}

/// The counts of two portions taken one after the other add up to the counts
/// of both at once.
pub proof fn law_counts_add_up(
    e: EngineModel,
    a: Seq<i16>,
    b: Seq<i16>,
    first: VadFrameResult,
    second: VadFrameResult,
    whole: VadFrameResult,
)
    requires
        first.counts(e.says(a)),
        second.counts(e.after(a).says(b)),
        whole.counts(e.says(a + b)),
    ensures
        whole.speech_frames == first.speech_frames + second.speech_frames,
        whole.silent_frames == first.silent_frames + second.silent_frames,
        whole.any_speech <==> first.any_speech || second.any_speech,
{
    law_portions_do_not_matter(e, a, b);
    let u = e.says(a);
    let v = e.after(a).says(b);
    lemma_speech_votes_add(u, v);
    lemma_contains_either(u, v);
}

/// Speech was found exactly where a frame with speech was counted.
pub proof fn law_any_speech_is_counted(said: Seq<bool>, r: VadFrameResult)
    requires
        r.counts(said),
    ensures
        r.any_speech <==> r.speech_frames > 0,
{
    if r.speech_frames == 0 {
        lemma_no_speech(said);
    }
    if !said.contains(true) {
        lemma_none_counted(said);
    }
}

proof fn lemma_none_counted(said: Seq<bool>)
    requires
        !said.contains(true),
    ensures
        speech_votes(said) == 0,
    decreases said.len(),
{
    if said.len() > 0 {
        let front = said.drop_last();
        if front.contains(true) {
            let k = choose|k: int| 0 <= k < front.len() && front[k] == true;
            assert(said[k] == true);
        }
        assert(said[said.len() - 1] != true);
        lemma_none_counted(front);
    }
}

proof fn lemma_speech_votes_add(u: Seq<bool>, v: Seq<bool>)
    ensures
        speech_votes(u + v) == speech_votes(u) + speech_votes(v),
    decreases v.len(),
{
    if v.len() == 0 {
        assert(u + v =~= u);
    } else {
        lemma_speech_votes_add(u, v.drop_last());
        assert((u + v).drop_last() =~= u + v.drop_last());
    }
}

/// A frame is 30 ms at 16 kHz.
pub proof fn law_a_frame_is_thirty_milliseconds()
    ensures
        FRAME_SAMPLES == 480,
        FRAME_MS == 30,
        FRAME_SAMPLES * 1000 == FRAME_MS * TARGET_SAMPLE_RATE,
{
}

/// The aggressiveness is followed: 1 misses least speech, 2 is the balance and
/// 3 stops cleanly in noise, in the detector's own numbers of its modes. There
/// is no other.
pub proof fn law_aggressiveness_is_followed(a: u8)
    ensures
        mode_for(a) is Some <==> 1 <= a <= 3,
        a == 1 ==> mode_for(a) == Some(DetectorMode::Quality) && EngineModel::fresh(
            mode_for(a)->0,
        ).mode == 0,
        a == 2 ==> mode_for(a) == Some(DetectorMode::Aggressive) && EngineModel::fresh(
            mode_for(a)->0,
        ).mode == 2,
        a == 3 ==> mode_for(a) == Some(DetectorMode::VeryAggressive) && EngineModel::fresh(
            mode_for(a)->0,
        ).mode == 3,
{
}

/// A new engine has heard nothing and keeps nothing.
pub proof fn law_a_new_engine_has_heard_nothing(mode: DetectorMode)
    ensures
        EngineModel::fresh(mode).heard.len() == 0,
        EngineModel::fresh(mode).waiting.len() == 0,
        EngineModel::fresh(mode).heard_silence(),
{
}

/// Cutting into frames loses, doubles and moves no sample: the frames one
/// after the other, and what is left over, are the samples. Every frame has 480
/// samples, and fewer are left over.
pub proof fn law_frames_keep_every_sample(s: Seq<i16>)
    ensures
        frames_of(s).flatten() + leftover(s) == s,
        forall|i: int| 0 <= i < frames_of(s).len() ==> (#[trigger] frames_of(s)[i]).len() == 480,
        leftover(s).len() < 480,
    decreases s.len(),
{
    if s.len() < 480 {
        assert(frames_of(s) =~= Seq::<Seq<i16>>::empty());
        assert(frames_of(s).flatten() + leftover(s) =~= s);
    } else {
        let rest = s.skip(480);
        law_frames_keep_every_sample(rest);
        let f = frames_of(s);
        let g = frames_of(rest);
        assert(rest.len() / 480 == s.len() / 480 - 1);
        assert(f[0] =~= s.take(480));
        assert forall|i: int| 0 <= i < g.len() implies #[trigger] f.drop_first()[i] == g[i] by {
            assert(480 * (i + 2) <= s.len());
            assert(s.subrange(480 * (i + 1), 480 * (i + 2)) =~= rest.subrange(
                480 * i,
                480 * (i + 1),
            ));
        }
        assert(f.drop_first() =~= g);
        assert(leftover(rest) =~= leftover(s));
        assert(f.flatten() == s.take(480) + g.flatten());
        assert(s.take(480) + g.flatten() + leftover(s) =~= s.take(480) + (g.flatten() + leftover(
            rest,
        )));
        assert(s.take(480) + rest =~= s);
    }
}

/// No sample is lost on the way to the detector: what it has been given, one
/// frame after the other, and what waits, are what it had been given before,
/// what waited, and the new samples. What was given is not taken back, less
/// than a frame waits, and the mode stays.
pub proof fn law_samples_are_heard_or_wait(e: EngineModel, pcm: Seq<i16>)
    ensures
        e.after(pcm).heard.flatten() + e.after(pcm).waiting == e.heard.flatten() + e.waiting + pcm,
        e.heard.len() <= e.after(pcm).heard.len(),
        forall|i: int| 0 <= i < e.heard.len() ==> #[trigger] e.after(pcm).heard[i] == e.heard[i],
        forall|i: int|
            e.heard.len() <= i < e.after(pcm).heard.len() ==> (#[trigger] e.after(
                pcm,
            ).heard[i]).len() == 480,
        e.after(pcm).waiting.len() < 480,
        e.after(pcm).mode == e.mode,
{
    let all = e.waiting + pcm;
    law_frames_keep_every_sample(all);
    lemma_flatten_follows_on(e.heard, frames_of(all));
    assert(e.after(pcm).heard.flatten() + e.after(pcm).waiting =~= e.heard.flatten() + (frames_of(
        all,
    ).flatten() + leftover(all)));
    assert(e.heard.flatten() + all =~= e.heard.flatten() + e.waiting + pcm);
}

proof fn lemma_flatten_follows_on(a: Seq<Seq<i16>>, b: Seq<Seq<i16>>)
    ensures
        (a + b).flatten() == a.flatten() + b.flatten(),
    decreases a.len(),
{
    if a.len() == 0 {
        assert(a + b =~= b);
        assert(a.flatten() + b.flatten() =~= b.flatten());
    } else {
        lemma_flatten_follows_on(a.drop_first(), b);
        assert((a + b).drop_first() =~= a.drop_first() + b);
        assert((a + b).first() == a.first());
        assert((a + b).flatten() =~= a.flatten() + b.flatten());
    }
}

/// Every frame is judged by the detector, at 16 kHz and in the engine's mode,
/// after exactly the frames in front of it: the frames heard afterwards are
/// those that were judged.
pub proof fn law_every_frame_is_judged(e: EngineModel, pcm: Seq<i16>, i: int)
    requires
        0 <= i < e.after(pcm).heard.len() - e.heard.len(),
    ensures
        e.says(pcm).len() == e.after(pcm).heard.len() - e.heard.len(),
        e.says(pcm).len() == (e.waiting.len() + pcm.len()) / 480,
        e.says(pcm)[i] == crate::detector::fvad_decision(
            16,
            e.mode,
            e.after(pcm).heard.take(e.heard.len() + i),
            e.after(pcm).heard[e.heard.len() + i],
        ),
{
    let f = frames_of(e.waiting + pcm);
    assert((e.heard + f).take(e.heard.len() + i) =~= e.heard + f.take(i));
}

/// The counts are those of the answers: so many say speech, the others do not,
/// and all are counted.
pub proof fn law_counts_are_those_of_the_answers(said: Seq<bool>, r: VadFrameResult)
    requires
        r.counts(said),
    ensures
        r.speech_frames == said.filter(|voice: bool| voice).len(),
        r.silent_frames + r.speech_frames == said.len(),
        r.any_speech <==> exists|i: int| 0 <= i < said.len() && #[trigger] said[i],
{
    lemma_speech_votes_are_filtered(said);
    if said.contains(true) {
        let k = choose|k: int| 0 <= k < said.len() && said[k] == true;
        assert(said[k]);
    }
    if exists|i: int| 0 <= i < said.len() && #[trigger] said[i] {
        let k = choose|i: int| 0 <= i < said.len() && #[trigger] said[i];
        assert(said[k] == true);
    }
}

proof fn lemma_speech_votes_are_filtered(said: Seq<bool>)
    ensures
        speech_votes(said) == said.filter(|voice: bool| voice).len(),
    decreases said.len(),
{
    reveal(Seq::filter);
    if said.len() > 0 {
        lemma_speech_votes_are_filtered(said.drop_last());
    }
}

/// The counter of milliseconds shows the count as long as it fits, and then
/// starts over.
pub proof fn law_counter_starts_over(n: nat)
    ensures
        n <= u32::MAX ==> wrapped(n) == n,
        wrapped((n + 0x1_0000_0000) as nat) == wrapped(n),
{
}

/// Silence is samples of zero, in what was heard and in what waits, and more
/// of it stays silence.
pub proof fn law_silence_is_samples_of_zero(e: EngineModel, pcm: Seq<i16>)
    ensures
        e.heard_silence() <==> {
            &&& forall|i: int, j: int|
                0 <= i < e.heard.len() && 0 <= j < e.heard[i].len() ==> #[trigger] e.heard[i][j]
                    == 0
            &&& forall|j: int| 0 <= j < e.waiting.len() ==> #[trigger] e.waiting[j] == 0
        },
        e.heard_silence() && (forall|j: int| 0 <= j < pcm.len() ==> #[trigger] pcm[j] == 0)
            ==> e.after(pcm).heard_silence(),
{
    if forall|i: int, j: int|
        0 <= i < e.heard.len() && 0 <= j < e.heard[i].len() ==> #[trigger] e.heard[i][j] == 0 {
        assert forall|i: int| 0 <= i < e.heard.len() implies silent(#[trigger] e.heard[i]) by {
            let f = e.heard[i];
            assert forall|j: int| 0 <= j < f.len() implies #[trigger] f[j] == 0 by {
                assert(e.heard[i][j] == 0);
            }
        }
    }
    if e.heard_silence() {
        assert forall|i: int, j: int|
            0 <= i < e.heard.len() && 0 <= j < e.heard[i].len() implies #[trigger] e.heard[i][j]
            == 0 by {
            assert(silent(e.heard[i]));
        }
    }
    if e.heard_silence() && (forall|j: int| 0 <= j < pcm.len() ==> #[trigger] pcm[j] == 0) {
        let all = e.waiting + pcm;
        assert(silent(all));
        lemma_silent_frames(e.heard, all, (all.len() / 480) as int);
        assert(frames_of(all).take((all.len() / 480) as int) =~= frames_of(all));
    }
}

/// The message for an aggressiveness that does not exist names it in decimal.
pub proof fn law_message_names_the_aggressiveness(n: u8)
    ensures
        VadError::InvalidAggressiveness(n).message_text() == "Geçersiz VAD agresifliği: "@
            + crate::text::decimal(n as nat) + " (1-3 arası olmalı)"@,
{
}

} // verus!
