//! The speaking services, one per backend: each turns text and voice into a
//! cache key and starts the session that looks it up, synthesizes on a miss
//! and plays the result.

use crate::audio_cache::AudioCache;
use crate::cache_key::{
    azure_cache_key, eleven_cache_key, google_cache_key, hash_azure_tts, hash_eleven_labs_tts,
    hash_google_tts, opt_view, AzureVoice, GoogleVoice, AZURE_FORMAT_VERSION,
    ELEVEN_LABS_FORMAT_VERSION, GOOGLE_FORMAT_VERSION,
};
use crate::say_session::{cache_file_of, say_begin, SayAction, SayError, SaySession};
use crate::table::{lookup, NameTable};
use vstd::prelude::*;

pub use crate::audio_player::Playable;
pub use crate::broadcast::AudioMessage;
pub use crate::cache_key::AzureVoiceStyle;

verus! {

/// The backend a phrase is spoken with.
#[derive(Debug, Clone, Copy, PartialEq, Eq, Structural)]
pub enum TtsService {
    Azure,
    Google,
}

/// Where a silence is placed in an Azure request.
#[derive(Debug, Clone, Copy, PartialEq, Eq, Structural)]
pub enum SilenceKind {
    SentenceBoundary,
    Tailing,
    Leading,
}

/// One part of an Azure request.
#[derive(Debug, Clone)]
pub enum VoiceSegment {
    /// A silence of the given duration, such as `50ms`.
    Silence(SilenceKind, String),
    /// Text spoken without expression.
    Plain(String),
    /// Text spoken with a style.
    Expression(String, AzureVoiceStyle),
}

/// The segments sent to Azure for `text` in `style`: silence padding, then
/// the text.
pub fn azure_segments(text: &str, style: AzureVoiceStyle) -> (r: Vec<VoiceSegment>)
    ensures
        r@.len() == 4,
        r@[0] matches VoiceSegment::Silence(k, d) && k == SilenceKind::SentenceBoundary && d@ == "50ms"@,
        r@[1] matches VoiceSegment::Silence(k, d) && k == SilenceKind::Tailing && d@ == "25ms"@,
        r@[2] matches VoiceSegment::Silence(k, d) && k == SilenceKind::Leading && d@ == "25ms"@,
        style == AzureVoiceStyle::Plain ==> (r@[3] matches VoiceSegment::Plain(t) && t@ == text@),
        style != AzureVoiceStyle::Plain ==> (r@[3] matches VoiceSegment::Expression(t, s) && t@ == text@ && s == style),
{
    let mut segments: Vec<VoiceSegment> = Vec::new();
    segments.push(VoiceSegment::Silence(SilenceKind::SentenceBoundary, "50ms".to_owned()));
    segments.push(VoiceSegment::Silence(SilenceKind::Tailing, "25ms".to_owned()));
    segments.push(VoiceSegment::Silence(SilenceKind::Leading, "25ms".to_owned()));
    let contents = match style {
        AzureVoiceStyle::Plain => VoiceSegment::Plain(text.to_owned()),
        _ => VoiceSegment::Expression(text.to_owned(), style),
    };
    segments.push(contents);
    segments
}

/// The Azure and Google speaking service.
pub struct SpeechService {
    pub audio_cache: AudioCache,
    pub google_voice: GoogleVoice,
    pub azure_voice: AzureVoice,
    /// The identifier of the audio format Azure renders in.
    pub azure_audio_format: String,
    /// Whether played artifacts are also broadcast.
    pub broadcast: bool,
}

impl SpeechService {
    pub fn new(
        audio_cache: AudioCache,
        google_voice: GoogleVoice,
        azure_voice: AzureVoice,
        azure_audio_format: String,
        broadcast: bool,
    ) -> (r: SpeechService)
        ensures
            r.audio_cache == audio_cache,
            r.google_voice == google_voice,
            r.azure_voice == azure_voice,
            r.azure_audio_format == azure_audio_format,
            r.broadcast == broadcast,
    {
        SpeechService { audio_cache, google_voice, azure_voice, azure_audio_format, broadcast }
    }

    /// Starts saying `text` with the Azure voice `voice` in `style`.
    pub fn say_azure_with_voice(&self, text: &str, voice: &AzureVoice, style: AzureVoiceStyle) -> (r: (SaySession, SayAction))
        ensures
            (r.0@, r.1@) == say_begin(
                cache_file_of(
                    self.audio_cache,
                    azure_cache_key(
                        text@,
                        voice.name@,
                        voice.language@,
                        self.azure_audio_format@,
                        style,
                        AZURE_FORMAT_VERSION,
                        voice.gender,
                    ),
                ),
                self.broadcast,
            ),
    {
        let key = hash_azure_tts(text, voice, self.azure_audio_format.as_str(), style);
        SaySession::begin(&self.audio_cache, key.as_str(), self.broadcast)
    }

    /// Starts saying `text` with the default Azure voice in `style`.
    pub fn say_azure_with_style(&self, text: &str, style: AzureVoiceStyle) -> (r: (SaySession, SayAction))
        ensures
            (r.0@, r.1@) == say_begin(
                cache_file_of(
                    self.audio_cache,
                    azure_cache_key(
                        text@,
                        self.azure_voice.name@,
                        self.azure_voice.language@,
                        self.azure_audio_format@,
                        style,
                        AZURE_FORMAT_VERSION,
                        self.azure_voice.gender,
                    ),
                ),
                self.broadcast,
            ),
    {
        self.say_azure_with_voice(text, &self.azure_voice, style)
    }

    /// Starts saying `text` with the default Azure voice, without expression.
    pub fn say_azure(&self, text: &str) -> (r: (SaySession, SayAction))
        ensures
            (r.0@, r.1@) == say_begin(
                cache_file_of(
                    self.audio_cache,
                    azure_cache_key(
                        text@,
                        self.azure_voice.name@,
                        self.azure_voice.language@,
                        self.azure_audio_format@,
                        AzureVoiceStyle::Plain,
                        AZURE_FORMAT_VERSION,
                        self.azure_voice.gender,
                    ),
                ),
                self.broadcast,
            ),
    {
        self.say_azure_with_voice(text, &self.azure_voice, AzureVoiceStyle::Plain)
    }

    /// Starts saying `text` with the Google voice.
    pub fn say_google(&self, text: &str) -> (r: (SaySession, SayAction))
        ensures
            (r.0@, r.1@) == say_begin(
                cache_file_of(
                    self.audio_cache,
                    google_cache_key(
                        text@,
                        self.google_voice.language_code@,
                        opt_view(self.google_voice.name),
                        self.google_voice.gender,
                        GOOGLE_FORMAT_VERSION,
                    ),
                ),
                self.broadcast,
            ),
    {
        let key = hash_google_tts(text, &self.google_voice);
        SaySession::begin(&self.audio_cache, key.as_str(), self.broadcast)
    }

    /// Starts saying `text` with the backend `service`.
    pub fn say(&self, text: &str, service: TtsService) -> (r: (SaySession, SayAction))
        ensures
            service == TtsService::Azure ==> (r.0@, r.1@) == say_begin(
                cache_file_of(
                    self.audio_cache,
                    azure_cache_key(
                        text@,
                        self.azure_voice.name@,
                        self.azure_voice.language@,
                        self.azure_audio_format@,
                        AzureVoiceStyle::Plain,
                        AZURE_FORMAT_VERSION,
                        self.azure_voice.gender,
                    ),
                ),
                self.broadcast,
            ),
            service == TtsService::Google ==> (r.0@, r.1@) == say_begin(
                cache_file_of(
                    self.audio_cache,
                    google_cache_key(
                        text@,
                        self.google_voice.language_code@,
                        opt_view(self.google_voice.name),
                        self.google_voice.gender,
                        GOOGLE_FORMAT_VERSION,
                    ),
                ),
                self.broadcast,
            ),
    {
        match service {
            TtsService::Azure => self.say_azure(text),
            TtsService::Google => self.say_google(text),
        }
    }
}

/// A voice that Azure offers: its display name, its locale and its settings.
#[derive(Debug, Clone)]
pub struct VoiceListing {
    pub display_name: String,
    pub locale: String,
    pub voice: AzureVoice,
}

/// The locale whose voices are sampled.
pub open spec fn sampled_locale() -> Seq<char> {
    "en-US"@
}

/// The phrase a sampled voice introduces itself with.
pub open spec fn sample_phrase(display_name: Seq<char>, text: Seq<char>) -> Seq<char> {
    "Hey, my name is "@ + display_name + " and "@ + text
}

/// The sampled requests for the voices of `voices` from index `k` on.
pub open spec fn sample_from(voices: Seq<VoiceListing>, text: Seq<char>, k: int) -> Seq<(Seq<char>, AzureVoice)>
    decreases voices.len() - k,
{
    if k < 0 || k >= voices.len() {
        Seq::empty()
    } else if voices[k].locale@ == sampled_locale() {
        seq![(sample_phrase(voices[k].display_name@, text), voices[k].voice)] + sample_from(voices, text, k + 1)
    } else {
        sample_from(voices, text, k + 1)
    }
}

/// The requests for sampling voices: one phrase for each voice of the
/// sampled locale, in order, naming the voice and followed by `text`.
pub fn sample_azure_languages(voices: &Vec<VoiceListing>, text: &str) -> (r: Vec<(String, AzureVoice)>)
    ensures
        r@.len() == sample_from(voices@, text@, 0).len(),
        forall|i: int| 0 <= i < r@.len() ==> r@[i].0@ == sample_from(voices@, text@, 0)[i].0
            && r@[i].1 == sample_from(voices@, text@, 0)[i].1,
{
    let locale = String::from_str("en-US");
    let mut out: Vec<(String, AzureVoice)> = Vec::new();
    let mut i: usize = 0;
    while i < voices.len()
        invariant
            locale@ == sampled_locale(),
            i <= voices@.len(),
            out@.len() + sample_from(voices@, text@, i as int).len() == sample_from(voices@, text@, 0).len(),
            forall|j: int| 0 <= j < out@.len() ==> out@[j].0@ == sample_from(voices@, text@, 0)[j].0
                && out@[j].1 == sample_from(voices@, text@, 0)[j].1,
            forall|j: int| 0 <= j < sample_from(voices@, text@, i as int).len() ==>
                sample_from(voices@, text@, 0)[out@.len() + j] == sample_from(voices@, text@, i as int)[j],
        decreases voices@.len() - i,
    {
        let listing = &voices[i];
        let ghost rest = sample_from(voices@, text@, i as int + 1);
        if listing.locale == locale {
            let mut message = String::from_str("Hey, my name is ");
            message.append(listing.display_name.as_str());
            message.append(" and ");
            message.append(text);
            let ghost n = out@.len();
            let ghost here = sample_from(voices@, text@, i as int);
            assert(here == seq![(sample_phrase(voices@[i as int].display_name@, text@), voices@[i as int].voice)] + rest);
            assert(here[0].0 == message@);
            assert forall|j: int| 0 <= j < rest.len() implies
                sample_from(voices@, text@, 0)[n + 1 + j] == rest[j] by {
                assert(here[j + 1] == rest[j]);
            }
            out.push((message, listing.voice.copy()));
        }
        i = i + 1;
    }
    out
}

/// The Eleven Labs speaking service.
pub struct ElevenSpeechService {
    /// Voice ids by voice name.
    pub voice_name_to_voice_id_table: NameTable<String>,
    pub audio_cache: AudioCache,
    pub eleven_labs_default_voice_id: String,
    /// Whether played artifacts are also broadcast.
    pub broadcast: bool,
}

/// The voice that speaks when none is named.
pub const DEFAULT_ELEVEN_LABS_VOICE_ID: &'static str = "jsCqWAovK2LkecY7zXl4";

impl ElevenSpeechService {
    /// A service with the voices of `voice_table`, speaking with the default
    /// voice when none is named.
    pub fn new(voice_table: NameTable<String>, audio_cache: AudioCache, broadcast: bool) -> (r: ElevenSpeechService)
        ensures
            r.voice_name_to_voice_id_table == voice_table,
            r.audio_cache == audio_cache,
            r.eleven_labs_default_voice_id@ == DEFAULT_ELEVEN_LABS_VOICE_ID@,
            r.broadcast == broadcast,
    {
        ElevenSpeechService {
            voice_name_to_voice_id_table: voice_table,
            audio_cache,
            eleven_labs_default_voice_id: DEFAULT_ELEVEN_LABS_VOICE_ID.to_owned(),
            broadcast,
        }
    }

    /// Starts saying `text` with the voice `voice_id`.
    pub fn say_eleven_with_voice_id(&self, text: &str, voice_id: &str) -> (r: (SaySession, SayAction))
        ensures
            (r.0@, r.1@) == say_begin(
                cache_file_of(self.audio_cache, eleven_cache_key(text@, voice_id@, ELEVEN_LABS_FORMAT_VERSION)),
                self.broadcast,
            ),
    {
        let key = hash_eleven_labs_tts(text, voice_id);
        SaySession::begin(&self.audio_cache, key.as_str(), self.broadcast)
    }

    /// Starts saying `text` with the default voice.
    pub fn say_eleven_with_default_voice(&self, text: &str) -> (r: (SaySession, SayAction))
        ensures
            (r.0@, r.1@) == say_begin(
                cache_file_of(
                    self.audio_cache,
                    eleven_cache_key(text@, self.eleven_labs_default_voice_id@, ELEVEN_LABS_FORMAT_VERSION),
                ),
                self.broadcast,
            ),
    {
        self.say_eleven_with_voice_id(text, self.eleven_labs_default_voice_id.as_str())
    }

    /// Starts saying `text` with the voice named `voice_name`; an unknown
    /// name is an error.
    pub fn say_eleven(&self, text: &str, voice_name: &str) -> (r: Result<(SaySession, SayAction), SayError>)
        requires
            self.voice_name_to_voice_id_table.wf(),
        ensures
            match lookup(self.voice_name_to_voice_id_table@, voice_name@) {
                Some(id) => r matches Ok(p) && (p.0@, p.1@) == say_begin(
                    cache_file_of(self.audio_cache, eleven_cache_key(text@, id@, ELEVEN_LABS_FORMAT_VERSION)),
                    self.broadcast,
                ),
                None => r matches Err(e) && e == SayError::UnknownVoice,
            },
    {
        match self.voice_name_to_voice_id_table.get(voice_name) {
            Some(id) => Ok(self.say_eleven_with_voice_id(text, id.as_str())),
            None => Err(SayError::UnknownVoice),
        }
    }
}

} // verus!
