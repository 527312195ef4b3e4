use home_speak_core::audio_cache::AudioCache;
use home_speak_core::broadcast::audio_message;
use home_speak_core::cache_key::{
    hash_azure_tts, hash_eleven_labs_tts, hash_google_tts, AzureVoice, AzureVoiceStyle, GoogleVoice,
    VoiceGender,
};

fn sara() -> AzureVoice {
    AzureVoice {
        name: "en-US-SaraNeural".to_string(),
        language: "en-US".to_string(),
        gender: VoiceGender::Female,
    }
}

const FORMAT: &str = "audio-48khz-192kbitrate-mono-mp3";

#[test]
fn eleven_key_is_sha256_of_text_voice_and_version() {
    assert_eq!(
        hash_eleven_labs_tts("Hello", "jsCqWAovK2LkecY7zXl4"),
        "eleven-9cf0a70e659983c0f79f1c67bddd0e04c5f5331c4f362c99a36eac64c147be2d"
    );
}

#[test]
fn azure_key_is_labelled_with_voice_name() {
    assert_eq!(
        hash_azure_tts("Hello", &sara(), FORMAT, AzureVoiceStyle::Plain),
        "en-US-SaraNeural-82722a2d069ed3ce9e99b55d1752b62f9f650b7ce0aff0c680357db1790fea2b"
    );
}

#[test]
fn azure_key_depends_on_style() {
    assert_eq!(
        hash_azure_tts("Hello", &sara(), FORMAT, AzureVoiceStyle::Cheerful),
        "en-US-SaraNeural-7b2f42068e7085f96a2a716a3807c010d02b1db38c40cf64807bf4327d236099"
    );
    assert_ne!(
        hash_azure_tts("Hello", &sara(), FORMAT, AzureVoiceStyle::Cheerful),
        hash_azure_tts("Hello", &sara(), FORMAT, AzureVoiceStyle::Sad)
    );
}

#[test]
fn google_key_uses_voice_name_or_unknown() {
    let named = GoogleVoice {
        language_code: "en-US".to_string(),
        name: Some("en-US-Wavenet-F".to_string()),
        gender: VoiceGender::Female,
    };
    assert_eq!(
        hash_google_tts("Hello", &named),
        "en-US-Wavenet-F-5f44c83a9561046df4a02ba14e3a309c5e122c9c958a1ed6edd3f4a2ae061819"
    );
    let unnamed = GoogleVoice { language_code: "en-US".to_string(), name: None, gender: VoiceGender::Male };
    assert_eq!(
        hash_google_tts("Hello", &unnamed),
        "Unknown-c47b27c3dfc320e3749efd45a9305694de6ce744cbd2993e4da781cebabf80d1"
    );
}

#[test]
fn keys_are_identical_across_repeated_computations() {
    let first = hash_azure_tts("Good morning", &sara(), FORMAT, AzureVoiceStyle::Angry);
    let second = hash_azure_tts("Good morning", &sara(), FORMAT, AzureVoiceStyle::Angry);
    assert_eq!(first, second);
    assert_eq!(hash_eleven_labs_tts("a", "b"), hash_eleven_labs_tts("a", "b"));
}

#[test]
fn different_text_gives_different_key() {
    assert_ne!(hash_eleven_labs_tts("Hello", "v"), hash_eleven_labs_tts("Hello!", "v"));
}

#[test]
fn key_digest_is_64_lowercase_hex_digits() {
    let key = hash_eleven_labs_tts("", "");
    let digest = key.strip_prefix("eleven-").unwrap();
    assert_eq!(digest.len(), 64);
    assert!(digest.chars().all(|c| c.is_ascii_digit() || ('a'..='f').contains(&c)));
}

#[test]
fn cache_entry_is_key_with_extension_in_directory() {
    let cache = AudioCache::new("/tmp/audio_cache".to_string(), true).unwrap();
    assert!(cache.is_enabled());
    assert_eq!(cache.entry_path("abc").unwrap(), "/tmp/audio_cache/abc.mp3");
    let slashed = AudioCache::new("cache/".to_string(), true).unwrap();
    assert_eq!(slashed.entry_path("k").unwrap(), "cache/k.mp3");
    let empty = AudioCache::new(String::new(), true).unwrap();
    assert_eq!(empty.entry_path("k").unwrap(), "k.mp3");
}

#[test]
fn unusable_cache_directory_is_an_error() {
    assert!(AudioCache::new("/nowhere".to_string(), false).is_err());
}

#[test]
fn null_cache_always_misses() {
    let cache = AudioCache::new_without_cache();
    assert!(!cache.is_enabled());
    assert!(cache.entry_path("abc").is_none());
    assert!(cache.entry_path("").is_none());
}

#[test]
fn broadcast_message_is_base64_with_format() {
    let message = audio_message(&b"hi".to_vec());
    assert_eq!(message.data, "aGk=");
    assert_eq!(message.format, "mp3");
    assert_eq!(audio_message(&vec![0, 1, 2, 3, 255]).data, "AAECA/8=");
    assert_eq!(audio_message(&Vec::new()).data, "");
}
