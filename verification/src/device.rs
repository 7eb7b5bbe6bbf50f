//! The way to a running stream: which device to take, what it delivers, and
//! what has to be opened.
//!
//! Each step is a value; the next one is had from it together with the answer
//! of the system.

use vstd::prelude::*;

use crate::audio::TARGET_SAMPLE_RATE;
use crate::settings::VadCfg;
use crate::text::same_text;

verus! {

/// The shortest portion that the resampler is given.
pub const MIN_RESAMPLE_CHUNK: usize = 1024;

/// Why recording could not start.
#[derive(Debug)]
pub enum CaptureError {
    /// It is running already.
    AlreadyActive,
    /// The devices could not be listed; the text is the system's.
    Devices(String),
    /// No device has that name.
    DeviceNotFound(String),
    /// There is no default device.
    NoDefaultDevice,
    /// The device does not tell its configuration.
    Config,
    /// The resampler could not be made; the text is its own.
    Resampler(String),
    /// The device delivers samples of another format; the text is its name.
    UnsupportedFormat(String),
    /// The stream could not be built; the text is the system's.
    Stream(String),
    /// The stream does not run, perhaps for want of a permission.
    Play,
}

/// The mathematical counterpart of [`CaptureError`].
pub ghost enum CaptureErrorModel {
    AlreadyActive,
    Devices(Seq<char>),
    DeviceNotFound(Seq<char>),
    NoDefaultDevice,
    Config,
    Resampler(Seq<char>),
    UnsupportedFormat(Seq<char>),
    Stream(Seq<char>),
    Play,
}

impl View for CaptureError {
    type V = CaptureErrorModel;

    open spec fn view(&self) -> CaptureErrorModel {
        match self {
            CaptureError::AlreadyActive => CaptureErrorModel::AlreadyActive,
            CaptureError::Devices(e) => CaptureErrorModel::Devices(e@),
            CaptureError::DeviceNotFound(name) => CaptureErrorModel::DeviceNotFound(name@),
            CaptureError::NoDefaultDevice => CaptureErrorModel::NoDefaultDevice,
            CaptureError::Config => CaptureErrorModel::Config,
            CaptureError::Resampler(e) => CaptureErrorModel::Resampler(e@),
            CaptureError::UnsupportedFormat(f) => CaptureErrorModel::UnsupportedFormat(f@),
            CaptureError::Stream(e) => CaptureErrorModel::Stream(e@),
            CaptureError::Play => CaptureErrorModel::Play,
        }
    }
}

impl CaptureErrorModel {
    /// The message for the user.
    pub open spec fn message(self) -> Seq<char> {
        match self {
            CaptureErrorModel::AlreadyActive => "Kayıt zaten aktif"@,
            CaptureErrorModel::Devices(e) => e,
            CaptureErrorModel::DeviceNotFound(name) => "Cihaz bulunamadı: "@ + name,
            CaptureErrorModel::NoDefaultDevice => "Varsayılan giriş cihazı yok"@,
            CaptureErrorModel::Config => "Cihaz yapılandırması alınamadı"@,
            CaptureErrorModel::Resampler(e) => e,
            CaptureErrorModel::UnsupportedFormat(f) => "Desteklenmeyen örnek formatı: "@ + f,
            CaptureErrorModel::Stream(e) => e,
            CaptureErrorModel::Play => "Akış başlatılamadı (mikrofon izni?)"@,
        }
    }
}

impl CaptureError {
    /// The message for the user.
    pub fn message(&self) -> (r: String)
        ensures
            r@ == self@.message(),
    {
        match self {
            CaptureError::AlreadyActive => "Kayıt zaten aktif".to_owned(),
            CaptureError::Devices(e) => e.clone(),
            CaptureError::DeviceNotFound(name) => {
                let mut r = "Cihaz bulunamadı: ".to_owned();
                r.append(name.as_str());
                r
            },
            CaptureError::NoDefaultDevice => "Varsayılan giriş cihazı yok".to_owned(),
            CaptureError::Config => "Cihaz yapılandırması alınamadı".to_owned(),
            CaptureError::Resampler(e) => e.clone(),
            CaptureError::UnsupportedFormat(f) => {
                let mut r = "Desteklenmeyen örnek formatı: ".to_owned();
                r.append(f.as_str());
                r
            },
            CaptureError::Stream(e) => e.clone(),
            CaptureError::Play => "Akış başlatılamadı (mikrofon izni?)".to_owned(),
        }
    }
}

/// The search for the device to record from.
#[derive(Debug)]
pub enum DeviceSearch {
    /// The device with a certain name.
    Named(NamedDevice),
    /// The system's default device.
    Default(DefaultDevice),
}

/// The search for a device by name: the devices are to be listed.
#[derive(Debug)]
pub struct NamedDevice {
    pub name: String,
    pub cfg: VadCfg,
}

/// The search for the default device: the system is to be asked for it.
#[derive(Debug)]
pub struct DefaultDevice {
    pub cfg: VadCfg,
}

/// A device was found; its configuration is to be read.
#[derive(Debug, Clone, Copy, PartialEq, Eq, Structural)]
pub struct ConfigQuery {
    pub cfg: VadCfg,
}

impl NamedDevice {
    /// Picks the device from the list of all devices, of which some may not
    /// tell their name. The first with the name is taken.
    pub fn found(self, listed: Result<Vec<Option<String>>, String>) -> (r: Result<
        (usize, ConfigQuery),
        CaptureError,
    >)
        ensures
            match (listed, r) {
                (Err(e), Err(err)) => err@ == CaptureErrorModel::Devices(e@),
                (Err(_), Ok(_)) => false,
                (Ok(names), Ok((i, query))) => {
                    &&& i < names@.len()
                    &&& crate::settings::text_of(names@[i as int]) == Some(self.name@)
                    &&& forall|k: int|
                        0 <= k < i ==> crate::settings::text_of(#[trigger] names@[k]) != Some(
                            self.name@,
                        )
                    &&& query.cfg == self.cfg
                },
                (Ok(names), Err(err)) => {
                    &&& err@ == CaptureErrorModel::DeviceNotFound(self.name@)
                    &&& forall|k: int|
                        0 <= k < names@.len() ==> crate::settings::text_of(#[trigger] names@[k])
                            != Some(self.name@)
                },
            },
    {
        let names = match listed {
            Ok(names) => names,
            Err(e) => {
                return Err(CaptureError::Devices(e));
            },
        };
        for i in 0..names.len()
            invariant
                listed == Ok::<Vec<Option<String>>, String>(names),
                forall|k: int|
                    0 <= k < i ==> crate::settings::text_of(#[trigger] names@[k]) != Some(
                        self.name@,
                    ),
        {
            match &names[i] {
                Some(name) => {
                    if same_text(name.as_str(), self.name.as_str()) {
                        return Ok((i, ConfigQuery { cfg: self.cfg }));
                    }
                },
                None => {},
            }
        }
        Err(CaptureError::DeviceNotFound(self.name))
    }
}

impl DefaultDevice {
    /// Goes on with the default device, if there is one.
    pub fn found(self, present: bool) -> (r: Result<ConfigQuery, CaptureError>)
        ensures
            match r {
                Ok(query) => present && query.cfg == self.cfg,
                Err(err) => !present && err@ == CaptureErrorModel::NoDefaultDevice,
            },
    {
        if present {
            Ok(ConfigQuery { cfg: self.cfg })
        } else {
            Err(CaptureError::NoDefaultDevice)
        }
    }
}

/// The format of the samples that a device delivers.
#[derive(Debug)]
pub enum SampleFormat {
    F32,
    I16,
    U16,
    /// One that is not supported, with its name.
    Other(String),
}

/// What a device delivers.
#[derive(Debug)]
pub struct InputConfig {
    pub format: SampleFormat,
    /// Samples per second and channel.
    pub sample_rate: u32,
    pub channels: u16,
}

/// The format of the stream to open.
#[derive(Debug, Clone, Copy, PartialEq, Eq, Structural)]
pub enum StreamFormat {
    F32,
    I16,
    U16,
}

/// The stream format for a device's format.
pub open spec fn stream_format(format: SampleFormat) -> Option<StreamFormat> {
    match format {
        SampleFormat::F32 => Some(StreamFormat::F32),
        SampleFormat::I16 => Some(StreamFormat::I16),
        SampleFormat::U16 => Some(StreamFormat::U16),
        SampleFormat::Other(_) => None,
    }
}

/// The configuration is known; the resampler is to be made, if one is needed.
#[derive(Debug)]
pub struct StreamSetup {
    pub config: InputConfig,
    pub cfg: VadCfg,
}

/// The stream to open and to set running.
#[derive(Debug, Clone, Copy, PartialEq, Eq, Structural)]
pub struct StreamPlan {
    pub format: StreamFormat,
    pub channels: usize,
    /// The samples go through the resampler.
    pub resample: bool,
    pub cfg: VadCfg,
}

/// Where opening a stream went wrong.
#[derive(Debug)]
pub enum StreamFailure {
    /// It could not be built; the text is the system's.
    Build(String),
    /// It was built and does not run.
    Play,
}

impl ConfigQuery {
    /// Takes the device's configuration, if it told one.
    pub fn configured(self, config: Option<InputConfig>) -> (r: Result<StreamSetup, CaptureError>)
        ensures
            match (config, r) {
                (Some(c), Ok(setup)) => setup == (StreamSetup { config: c, cfg: self.cfg }),
                (None, Err(err)) => err@ == CaptureErrorModel::Config,
                _ => false,
            },
    {
        match config {
            Some(config) => Ok(StreamSetup { config, cfg: self.cfg }),
            None => Err(CaptureError::Config),
        }
    }
}

/// The portion that the resampler is given at once: 30 ms, but no fewer than
/// [`MIN_RESAMPLE_CHUNK`] samples.
pub open spec fn chunk_for(in_rate: u32) -> nat {
    let portion = (in_rate * 30 / 1000) as nat;
    if portion < 1024 {
        1024
    } else {
        portion
    }
}

/// The portion that the resampler is given at once.
pub fn resample_chunk(in_rate: u32) -> (r: usize)
    ensures
        r == chunk_for(in_rate),
{
    let portion: usize = (in_rate as u64 * 30 / 1000) as usize;
    if portion < MIN_RESAMPLE_CHUNK {
        MIN_RESAMPLE_CHUNK
    } else {
        portion
    }
}

impl StreamSetup {
    /// The samples come at another rate than [`TARGET_SAMPLE_RATE`].
    pub open spec fn resamples(self) -> bool {
        self.config.sample_rate != TARGET_SAMPLE_RATE
    }

    /// The portion for the resampler; `None` where none is needed.
    pub fn resampler_chunk(&self) -> (r: Option<usize>)
        ensures
            match r {
                Some(chunk) => self.resamples() && chunk == chunk_for(self.config.sample_rate),
                None => !self.resamples(),
            },
    {
        if self.config.sample_rate as usize != TARGET_SAMPLE_RATE {
            Some(resample_chunk(self.config.sample_rate))
        } else {
            None
        }
    }

    /// Goes on with the resampler made, or with the reason why it was not.
    /// Where none is needed, nothing is asked of it.
    pub fn prepared(self, resampler: Result<(), String>) -> (r: Result<StreamPlan, CaptureError>)
        ensures
            match r {
                Ok(plan) => {
                    &&& self.resamples() ==> resampler is Ok
                    &&& stream_format(self.config.format) == Some(plan.format)
                    &&& plan.channels == self.config.channels
                    &&& plan.resample == self.resamples()
                    &&& plan.cfg == self.cfg
                },
                Err(err) => if self.resamples() && resampler is Err {
                    err@ == CaptureErrorModel::Resampler(resampler->Err_0@)
                } else {
                    &&& self.config.format matches SampleFormat::Other(name)
                    &&& err@ == CaptureErrorModel::UnsupportedFormat(name@)
                },
            },
    {
        let resample = self.config.sample_rate as usize != TARGET_SAMPLE_RATE;
        if resample {
            match resampler {
                Ok(_) => {},
                Err(e) => {
                    return Err(CaptureError::Resampler(e));
                },
            }
        }
        let format = match self.config.format {
            SampleFormat::F32 => StreamFormat::F32,
            SampleFormat::I16 => StreamFormat::I16,
            SampleFormat::U16 => StreamFormat::U16,
            SampleFormat::Other(name) => {
                return Err(CaptureError::UnsupportedFormat(name));
            },
        };
        Ok(
            StreamPlan {
                format,
                channels: self.config.channels as usize,
                resample,
                cfg: self.cfg,
            },
        )
    }
}

/// The resampler is given 30 ms at once, rounded down, and never fewer than
/// 1024 samples.
pub proof fn law_resampler_is_given_thirty_milliseconds(in_rate: u32)
    ensures
        chunk_for(in_rate) >= 1024,
        chunk_for(in_rate) > 1024 ==> 1000 * chunk_for(in_rate) <= 30 * in_rate < 1000 * (chunk_for(
            in_rate,
        ) + 1),
        chunk_for(in_rate) == 1024 ==> 30 * in_rate < 1000 * 1025,
{
}

/// Samples are resampled exactly where they do not come at 16 kHz.
pub proof fn law_other_rates_are_resampled(setup: StreamSetup)
    ensures
        setup.resamples() <==> setup.config.sample_rate != 16_000,
        TARGET_SAMPLE_RATE == 16_000,
{
}

/// A stream has the format of its device. Three formats are supported.
pub proof fn law_stream_has_the_format_of_the_device(name: String)
    ensures
        stream_format(SampleFormat::F32) == Some(StreamFormat::F32),
        stream_format(SampleFormat::I16) == Some(StreamFormat::I16),
        stream_format(SampleFormat::U16) == Some(StreamFormat::U16),
        stream_format(SampleFormat::Other(name)) is None,
{
}

/// A message ends with what the system or the user named, whatever that is.
pub proof fn law_messages_end_with_the_reason(e: Seq<char>)
    ensures
        CaptureErrorModel::Devices(e).message() == e,
        CaptureErrorModel::Resampler(e).message() == e,
        CaptureErrorModel::Stream(e).message() == e,
        CaptureErrorModel::DeviceNotFound(e).message() == CaptureErrorModel::DeviceNotFound(
            seq![],
        ).message() + e,
        CaptureErrorModel::UnsupportedFormat(e).message() == CaptureErrorModel::UnsupportedFormat(
            seq![],
        ).message() + e,
{
    let none = Seq::<char>::empty();
    assert(CaptureErrorModel::DeviceNotFound(none).message() + e
        =~= CaptureErrorModel::DeviceNotFound(e).message());
    assert(CaptureErrorModel::UnsupportedFormat(none).message() + e
        =~= CaptureErrorModel::UnsupportedFormat(e).message());
}

} // verus!
