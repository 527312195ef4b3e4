use std::collections::HashMap;

use home_speak_core::audio_cache::AudioCache;
use home_speak_core::cache_key::{hash_azure_tts, AzureVoice, AzureVoiceStyle, GoogleVoice, VoiceGender};
use home_speak_core::say_session::{SayAction, SayError, SayEvent, SaySession, SayStage};
use home_speak_core::speech_service::{
    azure_segments, sample_azure_languages, ElevenSpeechService, SilenceKind, SpeechService, TtsService,
    VoiceListing, VoiceSegment,
};
use home_speak_core::table::NameTable;

/// A world where the cache directory is a map and the vendor always answers.
struct World {
    files: HashMap<String, Vec<u8>>,
    vendor_calls: usize,
    played: Vec<Vec<u8>>,
    published: Vec<Vec<u8>>,
    vendor_fails: bool,
    store_fails: bool,
}

impl World {
    fn new() -> World {
        World {
            files: HashMap::new(),
            vendor_calls: 0,
            played: vec![],
            published: vec![],
            vendor_fails: false,
            store_fails: false,
        }
    }

    fn run(&mut self, start: (SaySession, SayAction), audio: &[u8]) -> Result<(), SayError> {
        let (mut session, mut action) = start;
        loop {
            let event = match action {
                SayAction::ReadCache(path) => match self.files.get(&path) {
                    Some(bytes) => SayEvent::CacheHit(bytes.clone()),
                    None => SayEvent::CacheMiss,
                },
                SayAction::Synthesize => {
                    self.vendor_calls += 1;
                    if self.vendor_fails {
                        SayEvent::SynthesisFailed
                    } else {
                        SayEvent::Synthesized(audio.to_vec())
                    }
                }
                SayAction::WriteCache(path, bytes) => {
                    if self.store_fails {
                        SayEvent::StoreFailed
                    } else {
                        self.files.insert(path, bytes);
                        SayEvent::Stored
                    }
                }
                SayAction::Publish(bytes) => {
                    self.published.push(bytes);
                    SayEvent::Published
                }
                SayAction::Play(bytes) => {
                    self.played.push(bytes);
                    SayEvent::Enqueued
                }
                SayAction::Finish(outcome) => return outcome,
                SayAction::Wait => panic!("session waited"),
            };
            action = session.step(event);
        }
    }
}

fn service(cache: AudioCache, broadcast: bool) -> SpeechService {
    SpeechService::new(
        cache,
        GoogleVoice { language_code: "en-US".to_string(), name: Some("en-US-Wavenet-F".to_string()), gender: VoiceGender::Female },
        AzureVoice { name: "en-US-SaraNeural".to_string(), language: "en-US".to_string(), gender: VoiceGender::Female },
        "audio-48khz-192kbitrate-mono-mp3".to_string(),
        broadcast,
    )
}

#[test]
fn second_say_is_served_from_the_cache() {
    let speech = service(AudioCache::new("/cache".to_string(), true).unwrap(), false);
    let mut world = World::new();
    assert_eq!(world.run(speech.say("Hello", TtsService::Azure), b"audio"), Ok(()));
    assert_eq!(world.run(speech.say("Hello", TtsService::Azure), b"other"), Ok(()));
    assert_eq!(world.vendor_calls, 1);
    assert_eq!(world.played, vec![b"audio".to_vec(), b"audio".to_vec()]);
    let key = hash_azure_tts("Hello", &speech.azure_voice, "audio-48khz-192kbitrate-mono-mp3", AzureVoiceStyle::Plain);
    assert_eq!(world.files.get(&format!("/cache/{}.mp3", key)), Some(&b"audio".to_vec()));
}

#[test]
fn null_cache_calls_the_vendor_every_time() {
    let speech = service(AudioCache::new_without_cache(), false);
    let mut world = World::new();
    for _ in 0..3 {
        assert_eq!(world.run(speech.say("Hello", TtsService::Google), b"audio"), Ok(()));
    }
    assert_eq!(world.vendor_calls, 3);
    assert!(world.files.is_empty());
    assert_eq!(world.played.len(), 3);
}

#[test]
fn null_cache_session_starts_at_the_vendor() {
    let (session, action) = SaySession::begin(&AudioCache::new_without_cache(), "key", false);
    assert!(matches!(action, SayAction::Synthesize));
    assert_eq!(session.stage(), SayStage::AwaitSynthesis);
}

#[test]
fn broadcast_comes_before_playback() {
    let speech = service(AudioCache::new("/cache".to_string(), true).unwrap(), true);
    let (mut session, action) = speech.say_azure_with_style("Hi", AzureVoiceStyle::Sad);
    assert!(matches!(action, SayAction::ReadCache(_)));
    assert!(matches!(session.step(SayEvent::CacheHit(vec![9])), SayAction::Publish(b) if b == vec![9]));
    assert!(matches!(session.step(SayEvent::PublishFailed), SayAction::Play(b) if b == vec![9]));
    assert!(matches!(session.step(SayEvent::Enqueued), SayAction::Finish(Ok(()))));
    assert_eq!(session.stage(), SayStage::Finished);
}

#[test]
fn vendor_failure_is_reported_and_nothing_plays() {
    let speech = service(AudioCache::new("/cache".to_string(), true).unwrap(), false);
    let mut world = World::new();
    world.vendor_fails = true;
    assert_eq!(world.run(speech.say_azure("Hello"), b"audio"), Err(SayError::VendorFailed));
    assert!(world.played.is_empty());
    assert!(world.files.is_empty());
}

#[test]
fn cache_write_failure_still_plays() {
    let speech = service(AudioCache::new("/cache".to_string(), true).unwrap(), true);
    let mut world = World::new();
    world.store_fails = true;
    assert_eq!(world.run(speech.say_google("Hello"), b"audio"), Ok(()));
    assert_eq!(world.played, vec![b"audio".to_vec()]);
    assert_eq!(world.published, vec![b"audio".to_vec()]);
}

#[test]
fn device_gone_is_reported() {
    let (mut session, _) = SaySession::begin(&AudioCache::new_without_cache(), "key", false);
    assert!(matches!(session.step(SayEvent::Synthesized(vec![1])), SayAction::Play(_)));
    assert!(matches!(session.step(SayEvent::EnqueueFailed), SayAction::Finish(Err(SayError::DeviceUnavailable))));
}

#[test]
fn unexpected_event_changes_nothing() {
    let (mut session, _) = SaySession::begin(&AudioCache::new_without_cache(), "key", false);
    assert!(matches!(session.step(SayEvent::Stored), SayAction::Wait));
    assert_eq!(session.stage(), SayStage::AwaitSynthesis);
}

#[test]
fn azure_request_pads_with_silence() {
    let plain = azure_segments("Hello", AzureVoiceStyle::Plain);
    assert_eq!(plain.len(), 4);
    assert!(matches!(&plain[0], VoiceSegment::Silence(SilenceKind::SentenceBoundary, d) if d == "50ms"));
    assert!(matches!(&plain[1], VoiceSegment::Silence(SilenceKind::Tailing, d) if d == "25ms"));
    assert!(matches!(&plain[2], VoiceSegment::Silence(SilenceKind::Leading, d) if d == "25ms"));
    assert!(matches!(&plain[3], VoiceSegment::Plain(t) if t == "Hello"));
    let angry = azure_segments("Hello", AzureVoiceStyle::Angry);
    assert!(matches!(&angry[3], VoiceSegment::Expression(t, AzureVoiceStyle::Angry) if t == "Hello"));
}

#[test]
fn sampling_introduces_each_us_voice() {
    let voice = |name: &str| AzureVoice { name: name.to_string(), language: "x".to_string(), gender: VoiceGender::Neutral };
    let voices = vec![
        VoiceListing { display_name: "Sara".to_string(), locale: "en-US".to_string(), voice: voice("sara") },
        VoiceListing { display_name: "Libby".to_string(), locale: "en-GB".to_string(), voice: voice("libby") },
        VoiceListing { display_name: "Guy".to_string(), locale: "en-US".to_string(), voice: voice("guy") },
    ];
    let requests = sample_azure_languages(&voices, "I can speak.");
    assert_eq!(requests.len(), 2);
    assert_eq!(requests[0].0, "Hey, my name is Sara and I can speak.");
    assert_eq!(requests[0].1.name, "sara");
    assert_eq!(requests[1].0, "Hey, my name is Guy and I can speak.");
    assert_eq!(requests[1].1.name, "guy");
}

#[test]
fn eleven_voice_is_looked_up_by_name() {
    let mut table = NameTable::new();
    table.insert("Freya".to_string(), "freya-id".to_string());
    let eleven = ElevenSpeechService::new(table, AudioCache::new("c".to_string(), true).unwrap(), false);
    assert_eq!(eleven.eleven_labs_default_voice_id, "jsCqWAovK2LkecY7zXl4");
    match eleven.say_eleven("Hi", "Freya") {
        Ok((_, SayAction::ReadCache(path))) => {
            assert_eq!(path, format!("c/{}.mp3", home_speak_core::cache_key::hash_eleven_labs_tts("Hi", "freya-id")));
        }
        _ => panic!("expected a cache lookup"),
    }
    assert!(matches!(eleven.say_eleven("Hi", "Nobody"), Err(SayError::UnknownVoice)));
    match eleven.say_eleven_with_default_voice("Hi") {
        (_, SayAction::ReadCache(path)) => {
            assert_eq!(path, format!("c/{}.mp3", home_speak_core::cache_key::hash_eleven_labs_tts("Hi", "jsCqWAovK2LkecY7zXl4")));
        }
        _ => panic!("expected a cache lookup"),
    }
}
