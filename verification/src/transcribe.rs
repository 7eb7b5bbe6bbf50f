//! Speech to text: what the local model and the cloud service are asked, and
//! what is made of their answers.

use vstd::prelude::*;

use crate::text::{
    decimal, decimal_text, is_white_space, law_trim_is_idempotent, law_trim_takes_only_the_ends,
    same_text, trim, trimmed,
};
use crate::wav::{data_len, pcm_to_wav, wav_of};

verus! {

/// A recording of fewer samples is not worth transcribing.
pub const MIN_SAMPLES: usize = 16;

/// The most threads that the local model is given.
pub const MAX_THREADS: usize = 8;

/// The threads for the local model where the machine does not tell how many
/// it runs at once.
pub const FALLBACK_THREADS: usize = 4;

/// Where the cloud service is.
pub const GROQ_API_URL: &'static str = "https://api.groq.com/openai/v1/audio/transcriptions";

/// The model that the cloud service is asked for.
pub const GROQ_MODEL: &'static str = "whisper-large-v3";

/// The sample rate of what is sent to the cloud service, in Hz.
pub const GROQ_SAMPLE_RATE: u32 = 16_000;

/// The name under which the recording is sent.
pub const GROQ_FILE_NAME: &'static str = "recording.wav";

/// The media type under which the recording is sent.
pub const GROQ_MIME: &'static str = "audio/wav";

/// Why there is no text.
#[derive(Debug)]
pub enum TranscribeError {
    /// There is no model file at that path.
    ModelNotFound(String),
    /// The path of the model file is no text.
    ModelPath,
    /// The model could not be loaded; the text is its own.
    ModelLoad(String),
    /// No model was loaded.
    NotLoaded,
    /// The model gave no state to work in; the text is its own.
    State(String),
    /// The model failed; the text is its own.
    Run(String),
    /// The segment with that number is not there.
    SegmentMissing(u64),
    /// The segment with that number has no text, for that reason.
    SegmentText(u64, String),
    /// The recording could not be made a part of the request.
    Part,
    /// The request could not be sent.
    Send,
    /// The service refused, with that status and that text.
    Refused(String, String),
    /// The service's answer could not be read.
    Answer,
}

/// The mathematical counterpart of [`TranscribeError`].
pub ghost enum TranscribeErrorModel {
    ModelNotFound(Seq<char>),
    ModelPath,
    ModelLoad(Seq<char>),
    NotLoaded,
    State(Seq<char>),
    Run(Seq<char>),
    SegmentMissing(nat),
    SegmentText(nat, Seq<char>),
    Part,
    Send,
    Refused(Seq<char>, Seq<char>),
    Answer,
}

impl View for TranscribeError {
    type V = TranscribeErrorModel;

    open spec fn view(&self) -> TranscribeErrorModel {
        match self {
            TranscribeError::ModelNotFound(path) => TranscribeErrorModel::ModelNotFound(path@),
            TranscribeError::ModelPath => TranscribeErrorModel::ModelPath,
            TranscribeError::ModelLoad(e) => TranscribeErrorModel::ModelLoad(e@),
            TranscribeError::NotLoaded => TranscribeErrorModel::NotLoaded,
            TranscribeError::State(e) => TranscribeErrorModel::State(e@),
            TranscribeError::Run(e) => TranscribeErrorModel::Run(e@),
            TranscribeError::SegmentMissing(i) => TranscribeErrorModel::SegmentMissing(*i as nat),
            TranscribeError::SegmentText(i, e) => TranscribeErrorModel::SegmentText(*i as nat, e@),
            TranscribeError::Part => TranscribeErrorModel::Part,
            TranscribeError::Send => TranscribeErrorModel::Send,
            TranscribeError::Refused(status, body) => TranscribeErrorModel::Refused(status@, body@),
            TranscribeError::Answer => TranscribeErrorModel::Answer,
        }
    }
}

impl TranscribeErrorModel {
    /// The message for the user.
    pub open spec fn message(self) -> Seq<char> {
        match self {
            TranscribeErrorModel::ModelNotFound(path) => "Model dosyası bulunamadı: "@ + path
                + ". ggml-small.bin gibi bir GGUF modeli indirin."@,
            TranscribeErrorModel::ModelPath => "Model yolu UTF-8 değil"@,
            TranscribeErrorModel::ModelLoad(e) => "Whisper context yüklenemedi: "@ + e,
            TranscribeErrorModel::NotLoaded => "Model yüklenmemiş; önce load() çağrılmalı"@,
            TranscribeErrorModel::State(e) => "Whisper state oluşturulamadı: "@ + e,
            TranscribeErrorModel::Run(e) => "Whisper işleme hatası: "@ + e,
            TranscribeErrorModel::SegmentMissing(i) => "Segment "@ + decimal(i) + " bulunamadı"@,
            TranscribeErrorModel::SegmentText(i, e) => "Segment "@ + decimal(i)
                + " metni alınamadı: "@ + e,
            TranscribeErrorModel::Part => "WAV part oluşturulamadı"@,
            TranscribeErrorModel::Send => "Groq API isteği gönderilemedi"@,
            TranscribeErrorModel::Refused(status, body) => "Groq API hatası "@ + status + ": "@
                + body,
            TranscribeErrorModel::Answer => "Groq yanıtı JSON olarak ayrıştırılamadı"@,
        }
    }
}

impl TranscribeError {
    /// The message for the user.
    pub fn message(&self) -> (r: String)
        ensures
            r@ == self@.message(),
    {
        match self {
            TranscribeError::ModelNotFound(path) => {
                let mut r = "Model dosyası bulunamadı: ".to_owned();
                r.append(path.as_str());
                r.append(". ggml-small.bin gibi bir GGUF modeli indirin.");
                r
            },
            TranscribeError::ModelPath => "Model yolu UTF-8 değil".to_owned(),
            TranscribeError::ModelLoad(e) => {
                let mut r = "Whisper context yüklenemedi: ".to_owned();
                r.append(e.as_str());
                r
            },
            TranscribeError::NotLoaded => "Model yüklenmemiş; önce load() çağrılmalı".to_owned(),
            TranscribeError::State(e) => {
                let mut r = "Whisper state oluşturulamadı: ".to_owned();
                r.append(e.as_str());
                r
            },
            TranscribeError::Run(e) => {
                let mut r = "Whisper işleme hatası: ".to_owned();
                r.append(e.as_str());
                r
            },
            TranscribeError::SegmentMissing(i) => {
                let mut r = "Segment ".to_owned();
                r.append(decimal_text(*i).as_str());
                r.append(" bulunamadı");
                r
            },
            TranscribeError::SegmentText(i, e) => {
                let mut r = "Segment ".to_owned();
                r.append(decimal_text(*i).as_str());
                r.append(" metni alınamadı: ");
                r.append(e.as_str());
                r
            },
            TranscribeError::Part => "WAV part oluşturulamadı".to_owned(),
            TranscribeError::Send => "Groq API isteği gönderilemedi".to_owned(),
            TranscribeError::Refused(status, body) => {
                let mut r = "Groq API hatası ".to_owned();
                r.append(status.as_str());
                r.append(": ");
                r.append(body.as_str());
                r
            },
            TranscribeError::Answer => "Groq yanıtı JSON olarak ayrıştırılamadı".to_owned(),
        }
    }
}

/// The language to ask for; `"auto"` leaves it to the model.
pub open spec fn language_for(lang: Seq<char>) -> Option<Seq<char>> {
    if lang == "auto"@ {
        None
    } else {
        Some(lang)
    }
}

/// The language to ask for.
fn requested_language(lang: &str) -> (r: Option<String>)
    ensures
        crate::settings::text_of(r) == language_for(lang@),
{
    if same_text(lang, "auto") {
        None
    } else {
        Some(lang.to_owned())
    }
}

/// The threads for the local model: as many as the machine runs at once, but
/// no more than [`MAX_THREADS`].
pub fn num_cpu_threads(available: Option<usize>) -> (r: i32)
    ensures
        r == match available {
            Some(n) => if n < 8 {
                n as int
            } else {
                8
            },
            None => 4,
        },
{
    let n: usize = match available {
        Some(n) => n,
        None => FALLBACK_THREADS,
    };
    if n < MAX_THREADS {
        n as i32
    } else {
        MAX_THREADS as i32
    }
}

/// What became of the model file; `M` is a model in memory.
#[derive(Debug)]
pub enum ModelFile<M> {
    /// It is not there.
    Missing,
    /// Its path is no text.
    NotUtf8,
    /// It was read, or it could not be for that reason.
    Read(Result<M, String>),
}

/// What the local model is to do.
#[derive(Debug)]
pub struct WhisperJob<'a, M, T> {
    pub model: &'a M,
    /// The recording.
    pub samples: &'a [T],
    /// The language of the speech; `None` leaves it to the model.
    pub language: Option<String>,
    /// The text is to be in another language than the speech.
    pub translate: bool,
    pub threads: i32,
}

/// One piece of the model's text.
#[derive(Debug)]
pub enum Segment {
    /// It is not there.
    Missing,
    /// It has no text, for that reason.
    Unreadable(String),
    Text(String),
}

/// What the local model did.
#[derive(Debug)]
pub enum WhisperRun {
    /// It gave no state to work in.
    NoState(String),
    /// It failed.
    Failed(String),
    /// It gave these pieces of text.
    Segments(Vec<Segment>),
}

/// The pieces one after the other, or what is wrong with the first that is
/// no text.
pub open spec fn joined(segments: Seq<Segment>) -> Result<Seq<char>, TranscribeErrorModel>
    decreases segments.len(),
{
    if segments.len() == 0 {
        Ok(seq![])
    } else {
        let i = (segments.len() - 1) as nat;
        match joined(segments.drop_last()) {
            Err(e) => Err(e),
            Ok(text) => match segments.last() {
                Segment::Missing => Err(TranscribeErrorModel::SegmentMissing(i)),
                Segment::Unreadable(e) => Err(TranscribeErrorModel::SegmentText(i, e@)),
                Segment::Text(t) => Ok(text + t@),
            },
        }
    }
}

/// A piece that is no text decides, whatever comes behind it.
proof fn lemma_first_failure_stays(segments: Seq<Segment>, n: int)
    requires
        0 <= n <= segments.len(),
        joined(segments.take(n)) is Err,
    ensures
        joined(segments) == joined(segments.take(n)),
    decreases segments.len() - n,
{
    if n == segments.len() {
        assert(segments.take(n) =~= segments);
    } else {
        assert(segments.take(n + 1).drop_last() =~= segments.take(n));
        lemma_first_failure_stays(segments, n + 1);
    }
}

/// The text of a run: the joined pieces without white space at either end.
pub open spec fn outcome(run: WhisperRun) -> Result<Seq<char>, TranscribeErrorModel> {
    match run {
        WhisperRun::NoState(e) => Err(TranscribeErrorModel::State(e@)),
        WhisperRun::Failed(e) => Err(TranscribeErrorModel::Run(e@)),
        WhisperRun::Segments(segments) => match joined(segments@) {
            Ok(text) => Ok(trimmed(text)),
            Err(e) => Err(e),
        },
    }
}

/// What a function returned, as far as it is text or a reason.
pub open spec fn result_of(r: Result<String, TranscribeError>) -> Result<
    Seq<char>,
    TranscribeErrorModel,
> {
    match r {
        Ok(text) => Ok(text@),
        Err(e) => Err(e@),
    }
}

/// The local model, once one was loaded. It is loaded once and stays in
/// memory.
pub struct Transcriber<M> {
    model: Option<M>,
}

impl<M> View for Transcriber<M> {
    type V = Option<M>;

    closed spec fn view(&self) -> Option<M> {
        self.model
    }
}

impl<M> Transcriber<M> {
    /// No model yet.
    pub fn new() -> (r: Self)
        ensures
            r@ is None,
    {
        Transcriber { model: None }
    }

    /// Takes a model that was loaded, in place of one that was there before.
    /// Where loading failed, the one that was there before stays.
    pub fn load(&mut self, path: &str, file: ModelFile<M>) -> (r: Result<(), TranscribeError>)
        ensures
            match (file, r) {
                (ModelFile::Missing, Err(e)) => e@ == TranscribeErrorModel::ModelNotFound(path@),
                (ModelFile::NotUtf8, Err(e)) => e@ == TranscribeErrorModel::ModelPath,
                (ModelFile::Read(Err(why)), Err(e)) => e@ == TranscribeErrorModel::ModelLoad(why@),
                (ModelFile::Read(Ok(model)), Ok(_)) => final(self)@ == Some(model),
                _ => false,
            },
            r is Err ==> final(self)@ == old(self)@,
    {
        match file {
            ModelFile::Missing => Err(TranscribeError::ModelNotFound(path.to_owned())),
            ModelFile::NotUtf8 => Err(TranscribeError::ModelPath),
            ModelFile::Read(Err(e)) => Err(TranscribeError::ModelLoad(e)),
            ModelFile::Read(Ok(model)) => {
                self.model = Some(model);
                Ok(())
            },
        }
    }

    /// What the model is to do with a recording: to run on all of it, in its
    /// own language; nothing where it is too short.
    pub fn transcribe<'a, T>(&'a self, pcm: &'a [T], lang: &str, available: Option<usize>) -> (r:
        Result<Option<WhisperJob<'a, M, T>>, TranscribeError>)
        ensures
            match r {
                Err(e) => self@ is None && e@ == TranscribeErrorModel::NotLoaded,
                Ok(None) => self@ is Some && pcm@.len() < MIN_SAMPLES,
                Ok(Some(job)) => {
                    &&& self@ == Some(*job.model)
                    &&& pcm@.len() >= MIN_SAMPLES
                    &&& job.samples@ == pcm@
                    &&& !job.translate
                    &&& crate::settings::text_of(job.language) == language_for(lang@)
                    &&& job.threads == match available {
                        Some(n) => if n < 8 {
                            n as int
                        } else {
                            8
                        },
                        None => 4,
                    }
                },
            },
    {
        match &self.model {
            None => Err(TranscribeError::NotLoaded),
            Some(model) => {
                if pcm.len() < MIN_SAMPLES {
                    return Ok(None);
                }
                Ok(
                    Some(
                        WhisperJob {
                            model,
                            samples: pcm,
                            language: requested_language(lang),
                            translate: false,
                            threads: num_cpu_threads(available),
                        },
                    ),
                )
            },
        }
    }
}

/// The text of a run.
pub fn whisper_text(run: WhisperRun) -> (r: Result<String, TranscribeError>)
    ensures
        result_of(r) == outcome(run),
{
    let segments = match run {
        WhisperRun::NoState(e) => {
            return Err(TranscribeError::State(e));
        },
        WhisperRun::Failed(e) => {
            return Err(TranscribeError::Run(e));
        },
        WhisperRun::Segments(segments) => segments,
    };
    let ghost all = segments@;
    let mut text = String::new();
    assert(all.take(0) =~= Seq::<Segment>::empty());
    for i in 0..segments.len()
        invariant
            run == WhisperRun::Segments(segments),
            segments@ == all,
            joined(all.take(i as int)) == Ok::<Seq<char>, TranscribeErrorModel>(text@),
    {
        proof {
            assert(all.take(i + 1).drop_last() =~= all.take(i as int));
            if joined(all.take(i + 1)) is Err {
                lemma_first_failure_stays(all, i + 1);
            }
        }
        match &segments[i] {
            Segment::Missing => {
                return Err(TranscribeError::SegmentMissing(i as u64));
            },
            Segment::Unreadable(e) => {
                return Err(TranscribeError::SegmentText(i as u64, e.clone()));
            },
            Segment::Text(t) => {
                text.append(t.as_str());
            },
        }
    }
    assert(all.take(all.len() as int) =~= all);
    Ok(trim(text.as_str()))
}

/// A request to the cloud service.
#[derive(Debug)]
pub struct GroqRequest {
    pub url: &'static str,
    /// The secret that the request is authorised with.
    pub api_key: String,
    pub model: &'static str,
    pub file_name: &'static str,
    pub mime: &'static str,
    /// The recording.
    pub wav: Vec<u8>,
    /// The language of the speech; `None` leaves it to the service.
    pub language: Option<String>,
}

/// What came of a request.
#[derive(Debug)]
pub enum GroqReply {
    /// The recording could not be made a part of it.
    NoPart,
    /// It could not be sent.
    NotSent,
    /// The service answered with a status that is no success.
    Refused { status: String, body: String },
    /// The answer could not be read.
    Unreadable,
    /// The service's text.
    Text(String),
}

/// The request for a recording; none where it is too short.
pub fn transcribe_groq(pcm: &[i16], lang: &str, api_key: &str) -> (r: Option<GroqRequest>)
    requires
        2 * pcm@.len() <= usize::MAX,
        36 + data_len(pcm@) <= u32::MAX,
    ensures
        match r {
            None => pcm@.len() < MIN_SAMPLES,
            Some(request) => {
                &&& pcm@.len() >= MIN_SAMPLES
                &&& request.url@ == GROQ_API_URL@
                &&& request.api_key@ == api_key@
                &&& request.model@ == GROQ_MODEL@
                &&& request.file_name@ == GROQ_FILE_NAME@
                &&& request.mime@ == GROQ_MIME@
                &&& request.wav@ == wav_of(pcm@, GROQ_SAMPLE_RATE)
                &&& crate::settings::text_of(request.language) == language_for(lang@)
            },
        },
{
    if pcm.len() < MIN_SAMPLES {
        return None;
    }
    Some(
        GroqRequest {
            url: GROQ_API_URL,
            api_key: api_key.to_owned(),
            model: GROQ_MODEL,
            file_name: GROQ_FILE_NAME,
            mime: GROQ_MIME,
            wav: pcm_to_wav(pcm, GROQ_SAMPLE_RATE),
            language: requested_language(lang),
        },
    )
}

/// The text of a reply: the service's, without white space at either end.
pub fn groq_text(reply: GroqReply) -> (r: Result<String, TranscribeError>)
    ensures
        result_of(r) == match reply {
            GroqReply::NoPart => Err(TranscribeErrorModel::Part),
            GroqReply::NotSent => Err(TranscribeErrorModel::Send),
            GroqReply::Refused { status, body } => Err(
                TranscribeErrorModel::Refused(status@, body@),
            ),
            GroqReply::Unreadable => Err(TranscribeErrorModel::Answer),
            GroqReply::Text(text) => Ok(trimmed(text@)),
        },
{
    match reply {
        GroqReply::NoPart => Err(TranscribeError::Part),
        GroqReply::NotSent => Err(TranscribeError::Send),
        GroqReply::Refused { status, body } => Err(TranscribeError::Refused(status, body)),
        GroqReply::Unreadable => Err(TranscribeError::Answer),
        GroqReply::Text(text) => Ok(trim(text.as_str())),
    }
}

/// The text of a run has no white space at either end.
pub proof fn law_transcript_is_trimmed(run: WhisperRun, text: Seq<char>)
    requires
        outcome(run) == Ok::<Seq<char>, TranscribeErrorModel>(text),
    ensures
        trimmed(text) == text,
{
    let segments = run->Segments_0@;
    law_trim_is_idempotent(joined(segments)->Ok_0);
}

/// Pieces of text lose nothing when they are joined: more pieces only add
/// theirs behind.
pub proof fn law_segments_are_joined_in_order(segments: Seq<Segment>, last: String)
    requires
        joined(segments) is Ok,
    ensures
        joined(segments.push(Segment::Text(last))) == Ok::<Seq<char>, TranscribeErrorModel>(
            joined(segments)->Ok_0 + last@,
        ),
{
    assert(segments.push(Segment::Text(last)).drop_last() =~= segments);
}

/// A run whose pieces are all texts gives all of them, in their order and
/// however many there are: the text, with the white space that was taken from
/// its two ends, is the pieces one after the other.
pub proof fn law_every_segment_is_in_the_text(run: WhisperRun) -> (ends: (Seq<char>, Seq<char>))
    requires
        run is Segments,
        forall|i: int| 0 <= i < run->Segments_0@.len() ==> #[trigger] run->Segments_0@[i] is Text,
    ensures
        outcome(run) is Ok,
        run->Segments_0@.map_values(|s: Segment| s->Text_0@).flatten() == ends.0 + outcome(run)->Ok_0
            + ends.1,
        forall|i: int| 0 <= i < ends.0.len() ==> is_white_space(#[trigger] ends.0[i]),
        forall|i: int| 0 <= i < ends.1.len() ==> is_white_space(#[trigger] ends.1[i]),
        outcome(run)->Ok_0.len() > 0 ==> !is_white_space(outcome(run)->Ok_0[0])
            && !is_white_space(outcome(run)->Ok_0[outcome(run)->Ok_0.len() - 1]),
{
    let segments = run->Segments_0@;
    lemma_texts_are_joined(segments);
    law_trim_takes_only_the_ends(joined(segments)->Ok_0)
}

proof fn lemma_texts_are_joined(segments: Seq<Segment>)
    requires
        forall|i: int| 0 <= i < segments.len() ==> #[trigger] segments[i] is Text,
    ensures
        joined(segments) == Ok::<Seq<char>, TranscribeErrorModel>(
            segments.map_values(|s: Segment| s->Text_0@).flatten(),
        ),
    decreases segments.len(),
{
    let texts = segments.map_values(|s: Segment| s->Text_0@);
    texts.lemma_flatten_and_flatten_alt_are_equivalent();
    if segments.len() == 0 {
        assert(texts.flatten_alt() =~= Seq::<char>::empty());
    } else {
        let front = segments.drop_last();
        let front_texts = front.map_values(|s: Segment| s->Text_0@);
        assert forall|i: int| 0 <= i < front.len() implies #[trigger] front[i] is Text by {
            assert(front[i] == segments[i]);
        }
        lemma_texts_are_joined(front);
        front_texts.lemma_flatten_and_flatten_alt_are_equivalent();
        assert(texts.drop_last() =~= front_texts);
        assert(segments.last() is Text) by {
            assert(segments[segments.len() - 1] is Text);
        }
    }
}

/// The first piece that is no text decides what is reported, with its number
/// and its reason, whatever comes behind it.
pub proof fn law_first_bad_segment_is_reported(run: WhisperRun, n: int)
    requires
        run is Segments,
        0 <= n < run->Segments_0@.len(),
        forall|i: int| 0 <= i < n ==> #[trigger] run->Segments_0@[i] is Text,
    ensures
        run->Segments_0@[n] is Missing ==> outcome(run) == Err::<Seq<char>, TranscribeErrorModel>(
            TranscribeErrorModel::SegmentMissing(n as nat),
        ),
        run->Segments_0@[n] matches Segment::Unreadable(e) ==> outcome(run) == Err::<
            Seq<char>,
            TranscribeErrorModel,
        >(TranscribeErrorModel::SegmentText(n as nat, e@)),
{
    let segments = run->Segments_0@;
    let front = segments.take(n);
    assert forall|i: int| 0 <= i < front.len() implies #[trigger] front[i] is Text by {
        assert(front[i] == segments[i]);
    }
    lemma_texts_are_joined(front);
    assert(segments.take(n + 1).drop_last() =~= front);
    assert(segments.take(n + 1).last() == segments[n]);
    if !(segments[n] is Text) {
        lemma_first_failure_stays(segments, n + 1);
    }
}

/// A model that gave no state or failed is reported with its own reason.
pub proof fn law_failed_run_is_reported(why: String)
    ensures
        outcome(WhisperRun::NoState(why)) == Err::<Seq<char>, TranscribeErrorModel>(
            TranscribeErrorModel::State(why@),
        ),
        outcome(WhisperRun::Failed(why)) == Err::<Seq<char>, TranscribeErrorModel>(
            TranscribeErrorModel::Run(why@),
        ),
{
}

/// The language that the user set is the one asked for; only `"auto"` leaves
/// it open.
pub proof fn law_language_is_the_one_set(lang: Seq<char>)
    ensures
        lang == "auto"@ ==> language_for(lang) is None,
        lang != "auto"@ ==> language_for(lang) == Some(lang),
{
}

/// Recordings of 16 samples and more are transcribed, the local model runs on
/// at most 8 threads, and the cloud service is sent 16 kHz.
pub proof fn law_limits_of_transcription()
    ensures
        MIN_SAMPLES == 16,
        MAX_THREADS == 8,
        FALLBACK_THREADS == 4,
        GROQ_SAMPLE_RATE == 16_000,
        GROQ_API_URL@ == "https://api.groq.com/openai/v1/audio/transcriptions"@,
        GROQ_MODEL@ == "whisper-large-v3"@,
{
}

/// A message ends with what the model, the system or the service said,
/// whatever that is; a segment is named by its number in decimal.
pub proof fn law_messages_end_with_the_reason(e: Seq<char>, status: Seq<char>, n: nat)
    ensures
        TranscribeErrorModel::ModelLoad(e).message() == TranscribeErrorModel::ModelLoad(
            seq![],
        ).message() + e,
        TranscribeErrorModel::State(e).message() == TranscribeErrorModel::State(seq![]).message()
            + e,
        TranscribeErrorModel::Run(e).message() == TranscribeErrorModel::Run(seq![]).message() + e,
        TranscribeErrorModel::SegmentText(n, e).message() == TranscribeErrorModel::SegmentText(
            n,
            seq![],
        ).message() + e,
        TranscribeErrorModel::Refused(status, e).message() == TranscribeErrorModel::Refused(
            status,
            seq![],
        ).message() + e,
        TranscribeErrorModel::Refused(status, e).message() == "Groq API hatası "@ + status + ": "@
            + e,
        TranscribeErrorModel::ModelNotFound(e).message() == "Model dosyası bulunamadı: "@ + e
            + ". ggml-small.bin gibi bir GGUF modeli indirin."@,
        TranscribeErrorModel::SegmentMissing(n).message() == "Segment "@ + decimal(n)
            + " bulunamadı"@,
        TranscribeErrorModel::SegmentText(n, e).message() == "Segment "@ + decimal(n)
            + " metni alınamadı: "@ + e,
{
    let none = Seq::<char>::empty();
    assert(TranscribeErrorModel::ModelLoad(none).message() + e
        =~= TranscribeErrorModel::ModelLoad(e).message());
    assert(TranscribeErrorModel::State(none).message() + e =~= TranscribeErrorModel::State(
        e,
    ).message());
    assert(TranscribeErrorModel::Run(none).message() + e =~= TranscribeErrorModel::Run(
        e,
    ).message());
    assert(TranscribeErrorModel::SegmentText(n, none).message() + e
        =~= TranscribeErrorModel::SegmentText(n, e).message());
    assert(TranscribeErrorModel::Refused(status, none).message() + e
        =~= TranscribeErrorModel::Refused(status, e).message());
}

/// What was returned is seen as it is: the text, or the reason.
pub proof fn law_a_result_is_seen_as_it_is(text: String, e: TranscribeError)
    ensures
        result_of(Ok(text)) == Ok::<Seq<char>, TranscribeErrorModel>(text@),
        result_of(Err(e)) == Err::<Seq<char>, TranscribeErrorModel>(e@),
{
}

} // verus!
