//! The voice detector of the `webrtc-vad` crate (libfvad), as far as the
//! frame logic needs it.

use vstd::prelude::*;

verus! {

/// A voice detector of the `webrtc-vad` crate. Its state is opaque; what the
/// contracts need of it is named by [`fvad_rate`], [`fvad_mode`] and
/// [`fvad_heard`]. A detector's rate and mode are set when it is made and
/// never changed.
#[verifier::external_type_specification]
#[verifier::external_body]
pub struct ExVad(webrtc_vad::Vad);

/// The sample rates that the detector knows.
#[derive(Debug, Clone, Copy, PartialEq, Eq, Structural)]
pub enum DetectorRate {
    Rate8kHz,
    Rate16kHz,
    Rate32kHz,
    Rate48kHz,
}

/// The detector's operating modes, from the one that misses least speech to
/// the one that reports least noise.
#[derive(Debug, Clone, Copy, PartialEq, Eq, Structural)]
pub enum DetectorMode {
    Quality,
    LowBitrate,
    Aggressive,
    VeryAggressive,
}

impl DetectorRate {
    /// The rate in samples per millisecond.
    pub open spec fn per_ms(self) -> nat {
        match self {
            DetectorRate::Rate8kHz => 8,
            DetectorRate::Rate16kHz => 16,
            DetectorRate::Rate32kHz => 32,
            DetectorRate::Rate48kHz => 48,
        }
    }
}

impl DetectorMode {
    /// The number of the mode; a higher one is more restrictive.
    pub open spec fn level(self) -> nat {
        match self {
            DetectorMode::Quality => 0,
            DetectorMode::LowBitrate => 1,
            DetectorMode::Aggressive => 2,
            DetectorMode::VeryAggressive => 3,
        }
    }
}

/// The sample rate that a detector was set to, in samples per millisecond.
pub uninterp spec fn fvad_rate(vad: webrtc_vad::Vad) -> nat;

/// The number of the mode that a detector was set to.
pub uninterp spec fn fvad_mode(vad: webrtc_vad::Vad) -> nat;

/// The frames that a detector has taken since it was made, oldest first.
pub uninterp spec fn fvad_heard(vad: webrtc_vad::Vad) -> Seq<Seq<i16>>;

/// What `webrtc_vad::Vad::is_voice_segment` answers for `frame` on a detector
/// with this rate and mode that has taken the frames `heard` before.
pub uninterp spec fn fvad_decision(
    rate: nat,
    mode: nat,
    heard: Seq<Seq<i16>>,
    frame: Seq<i16>,
) -> bool;

/// A detector takes frames of 10, 20 or 30 ms.
pub open spec fn valid_frame_length(rate: nat, len: nat) -> bool {
    len == 10 * rate || len == 20 * rate || len == 30 * rate
}

/// Every sample of the frame is zero.
pub open spec fn silent(frame: Seq<i16>) -> bool {
    forall|i: int| 0 <= i < frame.len() ==> #[trigger] frame[i] == 0
}

/// Every frame is silent.
pub open spec fn all_silent(frames: Seq<Seq<i16>>) -> bool {
    forall|i: int| 0 <= i < frames.len() ==> silent(#[trigger] frames[i])
}

/// Calls `webrtc_vad::Vad::new_with_rate_and_mode`: a detector with that rate
/// and mode that has not taken any frame. It panics where no memory can be
/// had for it, as every allocation may.
#[verifier::external_body]
pub(crate) fn new_detector(rate: DetectorRate, mode: DetectorMode) -> (vad: webrtc_vad::Vad)
    ensures
        fvad_rate(vad) == rate.per_ms(),
        fvad_mode(vad) == mode.level(),
        fvad_heard(vad) == Seq::<Seq<i16>>::empty(),
{
    let rate = match rate {
        DetectorRate::Rate8kHz => webrtc_vad::SampleRate::Rate8kHz,
        DetectorRate::Rate16kHz => webrtc_vad::SampleRate::Rate16kHz,
        DetectorRate::Rate32kHz => webrtc_vad::SampleRate::Rate32kHz,
        DetectorRate::Rate48kHz => webrtc_vad::SampleRate::Rate48kHz,
    };
    let mode = match mode {
        DetectorMode::Quality => webrtc_vad::VadMode::Quality,
        DetectorMode::LowBitrate => webrtc_vad::VadMode::LowBitrate,
        DetectorMode::Aggressive => webrtc_vad::VadMode::Aggressive,
        DetectorMode::VeryAggressive => webrtc_vad::VadMode::VeryAggressive,
    };
    webrtc_vad::Vad::new_with_rate_and_mode(rate, mode)
}

/// Calls `webrtc_vad::Vad::is_voice_segment`. The detector refuses a frame
/// that is not 10, 20 or 30 ms long and stays as it was. It takes any other
/// frame, and its answer depends on its rate, its mode, the frames that it
/// took before and this frame alone. At 16 kHz (and at 8 kHz) a detector that
/// has taken nothing but zero samples hears no voice in a frame of zeros: the
/// energy of every band is then zero, below the least that it looks at.
#[verifier::external_body]
pub(crate) fn is_voice_segment(vad: &mut webrtc_vad::Vad, frame: &[i16]) -> (r: Result<bool, ()>)
    requires
        frame@.len() > 0,
    ensures
        fvad_rate(*final(vad)) == fvad_rate(*old(vad)),
        fvad_mode(*final(vad)) == fvad_mode(*old(vad)),
        r is Ok <==> valid_frame_length(fvad_rate(*old(vad)), frame@.len()),
        r matches Ok(voice) ==> voice == fvad_decision(
            fvad_rate(*old(vad)),
            fvad_mode(*old(vad)),
            fvad_heard(*old(vad)),
            frame@,
        ),
        r matches Ok(voice) ==> fvad_heard(*final(vad)) == fvad_heard(*old(vad)).push(frame@),
        r is Err ==> fvad_heard(*final(vad)) == fvad_heard(*old(vad)),
        r is Ok && fvad_rate(*old(vad)) <= 16 && all_silent(fvad_heard(*old(vad))) && silent(frame@)
            ==> (r matches Ok(voice) && !voice),
    no_unwind
{
    vad.is_voice_segment(frame)
}

/// The numbers of the detector's settings, as the detector has them: samples
/// per millisecond for the rate, and 0 to 3 for the mode.
pub proof fn law_settings_have_their_numbers()
    ensures
        DetectorRate::Rate8kHz.per_ms() == 8,
        DetectorRate::Rate16kHz.per_ms() == 16,
        DetectorRate::Rate32kHz.per_ms() == 32,
        DetectorRate::Rate48kHz.per_ms() == 48,
        DetectorMode::Quality.level() == 0,
        DetectorMode::LowBitrate.level() == 1,
        DetectorMode::Aggressive.level() == 2,
        DetectorMode::VeryAggressive.level() == 3,
{
}

/// At 16 kHz the detector takes frames of 160, 320 and 480 samples and no
/// others.
pub proof fn law_frames_are_ten_to_thirty_milliseconds(len: nat)
    ensures
        valid_frame_length(16, len) <==> len == 160 || len == 320 || len == 480,
{
}

} // verus!
