use vstd::prelude::*;
use vstd::string::*;

use crate::error::SttError;
use crate::text::{joined, same_text, trim_text, trimmed};

verus! {

/// Whether `len` samples at `rate` Hz last less than 100 ms (or are none at
/// all): such a capture is treated as empty.
pub open spec fn too_short(len: nat, rate: nat) -> bool {
    len == 0 || len * 10 < rate
}

/// Length in whole milliseconds of `len` samples at `rate` Hz.
pub open spec fn duration_ms(len: nat, rate: nat) -> nat
    recommends
        rate > 0,
{
    (len * 1000 / rate) as nat
}

/// A snapshot of captured audio handed to a provider: mono 16-bit samples
/// and their rate in Hz.
#[derive(Debug, Clone, PartialEq, Eq)]
pub struct AudioData {
    pub samples: Vec<i16>,
    pub sample_rate: u32,
}

impl AudioData {
    pub fn new(samples: Vec<i16>, sample_rate: u32) -> (r: Self)
        ensures
            r.samples@ == samples@,
            r.sample_rate == sample_rate,
    {
        AudioData { samples, sample_rate }
    }

    /// Duration of the audio, in whole milliseconds.
    pub fn duration(&self) -> (r: u64)
        requires
            self.sample_rate > 0,
            duration_ms(self.samples@.len(), self.sample_rate as nat) <= u64::MAX,
        ensures
            r == duration_ms(self.samples@.len(), self.sample_rate as nat),
    {
        let len = self.samples.len() as u128;
        assert(len * 1000 <= u128::MAX) by (nonlinear_arith)
            requires
                len <= usize::MAX,
        ;
        ((len * 1000) / (self.sample_rate as u128)) as u64
    }

    /// Whether the audio holds no samples or lasts less than 100 ms.
    pub fn is_empty(&self) -> (r: bool)
        ensures
            r == too_short(self.samples@.len(), self.sample_rate as nat),
    {
        let len = self.samples.len() as u128;
        len == 0 || len * 10 < self.sample_rate as u128
    }
}

/// Confidence scores are held in hundredths of a percent: `0..=10000`.
pub open spec fn max_confidence() -> u16 {
    10000
}

/// Text that a provider returned, with what it reported about it.
#[derive(Debug, Clone, PartialEq, Eq)]
pub struct TranscriptionResult {
    pub text: String,
    pub language: Option<String>,
    /// Confidence in hundredths of a percent, where the provider gives one.
    pub confidence: Option<u16>,
    /// Time the provider took, in milliseconds.
    pub processing_time: u64,
}

impl TranscriptionResult {
    pub fn new(text: String) -> (r: Self)
        ensures
            r.text@ == text@,
            r.language is None,
            r.confidence is None,
            r.processing_time == 0,
    {
        TranscriptionResult { text, language: None, confidence: None, processing_time: 0 }
    }

    pub fn with_language(self, language: String) -> (r: Self)
        ensures
            r.text@ == self.text@,
            r.language matches Some(l) && l@ == language@,
            r.confidence == self.confidence,
            r.processing_time == self.processing_time,
    {
        TranscriptionResult { language: Some(language), ..self }
    }

    pub fn with_confidence(self, confidence: u16) -> (r: Self)
        requires
            confidence <= max_confidence(),
        ensures
            r.text@ == self.text@,
            r.language == self.language,
            r.confidence == Some(confidence),
            r.processing_time == self.processing_time,
    {
        TranscriptionResult { confidence: Some(confidence), ..self }
    }

    pub fn with_processing_time(self, millis: u64) -> (r: Self)
        ensures
            r.text@ == self.text@,
            r.language == self.language,
            r.confidence == self.confidence,
            r.processing_time == millis,
    {
        TranscriptionResult { processing_time: millis, ..self }
    }
}

/// The transcription backends.
#[derive(Debug, Clone, Copy, PartialEq, Eq)]
pub enum ProviderType {
    WhisperLocal,
    OpenAI,
    Groq,
    Deepgram,
}

impl ProviderType {
    /// The backend's name as configuration writes it.
    pub fn name(&self) -> (r: &'static str)
        ensures
            r@ == match *self {
                ProviderType::WhisperLocal => "whisper-local"@,
                ProviderType::OpenAI => "openai"@,
                ProviderType::Groq => "groq"@,
                ProviderType::Deepgram => "deepgram"@,
            },
    {
        match self {
            ProviderType::WhisperLocal => "whisper-local",
            ProviderType::OpenAI => "openai",
            ProviderType::Groq => "groq",
            ProviderType::Deepgram => "deepgram",
        }
    }

    /// Whether the backend runs on this machine rather than over the network.
    pub fn is_local(&self) -> (r: bool)
        ensures
            r == (*self == ProviderType::WhisperLocal),
    {
        match self {
            ProviderType::WhisperLocal => true,
            _ => false,
        }
    }
}

/// Refuses audio that is empty or shorter than 100 ms before any backend
/// is asked to transcribe it.
pub fn check_audio(audio: &AudioData) -> (r: Result<(), SttError>)
    ensures
        r is Ok <==> !too_short(audio.samples@.len(), audio.sample_rate as nat),
        r matches Err(e) ==> e matches SttError::InvalidAudio(m) && m@
            == "Audio is empty or too short"@,
{
    if audio.is_empty() {
        Err(SttError::InvalidAudio(String::from_str("Audio is empty or too short")))
    } else {
        Ok(())
    }
}

/// The language to request from a backend: none where the hint is absent
/// or `auto` (the backend detects it).
pub fn language_param(language: Option<&str>) -> (r: Option<String>)
    ensures
        match language {
            None => r is None,
            Some(l) => if l@ == "auto"@ {
                r is None
            } else {
                r matches Some(s) && s@ == l@
            },
        },
{
    match language {
        None => None,
        Some(l) => {
            if same_text(l, "auto") {
                None
            } else {
                Some(String::from_str(l))
            }
        },
    }
}

/// The language recorded in a result: the hint, or `auto` where there was none.
pub fn result_language(language: Option<&str>) -> (r: String)
    ensures
        r@ == match language {
            None => "auto"@,
            Some(l) => l@,
        },
{
    match language {
        None => String::from_str("auto"),
        Some(l) => String::from_str(l),
    }
}

/// Whether an HTTP status code reports success (`200..=299`).
pub open spec fn status_ok(status: u16) -> bool {
    200 <= status <= 299
}

/// Turns a backend's HTTP answer into an API error unless its status reports
/// success. `status_text` is the status as the client prints it.
pub fn check_status(provider: &str, status: u16, status_text: &str, body: &str) -> (r: Result<
    (),
    SttError,
>)
    ensures
        r is Ok <==> status_ok(status),
        r matches Err(e) ==> e matches SttError::ApiError(m) && m@ == provider@ + " API error "@
            + status_text@ + ": "@ + body@,
{
    if 200 <= status && status <= 299 {
        Ok(())
    } else {
        let mut m = joined(provider, " API error ");
        m.append(status_text);
        m.append(": ");
        m.append(body);
        Err(SttError::ApiError(m))
    }
}

/// A remote backend cannot be built without a credential.
pub fn require_api_key(provider: &str, key: Option<String>) -> (r: Result<String, SttError>)
    ensures
        key matches Some(k) ==> r == Ok::<String, SttError>(k),
        key is None ==> (r matches Err(e) && e matches SttError::ProviderUnavailable(m) && m@
            == provider@ + " API key not configured"@),
{
    match key {
        Some(k) => Ok(k),
        None => Err(SttError::ProviderUnavailable(joined(provider, " API key not configured"))),
    }
}

/// A remote backend is ready when its credential is not empty.
pub fn check_api_key(api_key: &str) -> (r: Result<(), SttError>)
    ensures
        r is Ok <==> api_key@.len() > 0,
        r matches Err(e) ==> e matches SttError::ProviderUnavailable(m) && m@
            == "API key is empty"@,
{
    if api_key.unicode_len() == 0 {
        Err(SttError::ProviderUnavailable(String::from_str("API key is empty")))
    } else {
        Ok(())
    }
}

/// The query part that switches on each feature, in order: `&f=true` per
/// feature `f`.
pub open spec fn feature_query(features: Seq<String>) -> Seq<char>
    decreases features.len(),
{
    if features.len() == 0 {
        Seq::empty()
    } else {
        feature_query(features.drop_last()) + "&"@ + features.last()@ + "=true"@
    }
}

/// The Deepgram request URL for a model, its features and a language hint.
pub open spec fn deepgram_url_of(model: Seq<char>, features: Seq<String>, language: Option<
    Seq<char>,
>) -> Seq<char> {
    "https://api.deepgram.com/v1/listen?model="@ + model + feature_query(features) + match language {
        Some(l) => if l == "auto"@ {
            Seq::empty()
        } else {
            "&language="@ + l
        },
        None => Seq::empty(),
    }
}

/// Builds the Deepgram request URL.
pub fn deepgram_url(model: &str, features: &Vec<String>, language: Option<&str>) -> (r: String)
    ensures
        r@ == deepgram_url_of(
            model@,
            features@,
            match language {
                Some(l) => Some(l@),
                None => None,
            },
        ),
{
    let mut url = joined("https://api.deepgram.com/v1/listen?model=", model);
    let ghost base = url@;
    let mut i: usize = 0;
    while i < features.len()
        invariant
            i <= features@.len(),
            url@ == base + feature_query(features@.subrange(0, i as int)),
        decreases features@.len() - i,
    {
        assert(features@.subrange(0, i + 1).drop_last() =~= features@.subrange(0, i as int));
        url.append("&");
        url.append(features[i].as_str());
        url.append("=true");
        i = i + 1;
    }
    assert(features@.subrange(0, features@.len() as int) =~= features@);
    match language {
        Some(l) => {
            if !same_text(l, "auto") {
                url.append("&language=");
                url.append(l);
            }
        },
        None => {},
    }
    url
}

/// All segments of text, in order, one after another.
pub open spec fn concat_all(segments: Seq<String>) -> Seq<char>
    decreases segments.len(),
{
    if segments.len() == 0 {
        Seq::empty()
    } else {
        concat_all(segments.drop_last()) + segments.last()@
    }
}

/// The transcript that the local engine's segments make: the segments in
/// order, with surrounding white space trimmed.
pub fn transcript_text(segments: &Vec<String>) -> (r: String)
    ensures
        r@ == trimmed(concat_all(segments@)),
{
    let mut text = String::new();
    let mut i: usize = 0;
    while i < segments.len()
        invariant
            i <= segments@.len(),
            text@ == concat_all(segments@.subrange(0, i as int)),
        decreases segments@.len() - i,
    {
        assert(segments@.subrange(0, i + 1).drop_last() =~= segments@.subrange(0, i as int));
        text.append(segments[i].as_str());
        i = i + 1;
    }
    assert(segments@.subrange(0, segments@.len() as int) =~= segments@);
    String::from_str(trim_text(text.as_str()))
}

/// One transcript alternative of a Deepgram answer.
#[derive(Debug, Clone, PartialEq, Eq)]
pub struct Alternative {
    pub transcript: String,
    /// Confidence in hundredths of a percent.
    pub confidence: u16,
}

/// The transcript and confidence that a Deepgram answer gives: its first
/// channel's first alternative, or empty text with no confidence where it
/// has none.
pub fn first_alternative(channels: &Vec<Vec<Alternative>>) -> (r: (String, u16))
    ensures
        if channels@.len() > 0 && channels@[0]@.len() > 0 {
            r.0@ == channels@[0]@[0].transcript@ && r.1 == channels@[0]@[0].confidence
        } else {
            r.0@.len() == 0 && r.1 == 0
        },
{
    if channels.len() > 0 && channels[0].len() > 0 {
        let a = &channels[0][0];
        (a.transcript.clone(), a.confidence)
    } else {
        (String::new(), 0)
    }
}

} // verus!
