use home_speak_core::audio_repository::AudioRepository;
use home_speak_core::config::{default_mqtt_port, motion_message, MotionSensorData};
use home_speak_core::router::{voice_name_from_topic, Router, RouterError};
use home_speak_core::table::NameTable;
use home_speak_core::text::{contains, contains_char, last_segment};

#[test]
fn wildcard_topics_are_refused() {
    let mut router: Router<u32> = Router::new();
    match router.add_handler("home/#", 1) {
        Err(RouterError::UnsupportedTopicName { topic }) => assert_eq!(topic, "home/#"),
        Ok(()) => panic!("wildcard accepted"),
    }
    assert!(router.add_handler("home/+/say", 2).is_err());
    assert!(router.topics().is_empty());
}

#[test]
fn handlers_are_found_by_exact_topic() {
    let mut router: Router<u32> = Router::new();
    assert!(router.add_handler("home/say", 1).is_ok());
    assert!(router.add_handler("home/stop", 2).is_ok());
    assert_eq!(router.handler("home/say"), Some(&1));
    assert_eq!(router.handler("home/stop"), Some(&2));
    assert_eq!(router.handler("home"), None);
    assert_eq!(router.topics(), vec!["home/say".to_string(), "home/stop".to_string()]);
}

#[test]
fn registering_a_topic_again_replaces_its_handler() {
    let mut router: Router<u32> = Router::new();
    router.add_handler("t", 1).unwrap();
    router.add_handler("t", 5).unwrap();
    assert_eq!(router.handler("t"), Some(&5));
    assert_eq!(router.topics().len(), 1);
    if let Some(h) = router.handler_mut("t") {
        *h += 1;
    }
    assert_eq!(router.handler("t"), Some(&6));
    assert!(router.handler_mut("u").is_none());
}

#[test]
fn voice_name_is_the_last_topic_segment() {
    assert_eq!(voice_name_from_topic("home/say/eleven/Freya"), "Freya");
    assert_eq!(voice_name_from_topic("Freya"), "Freya");
    assert_eq!(voice_name_from_topic("home/"), "");
    assert_eq!(last_segment("a-b-c", '-'), "c");
}

#[test]
fn text_search() {
    assert!(contains("hw:CARD=Device,DEV=0", "CARD=Device"));
    assert!(!contains("hw:CARD=Dev", "CARD=Device"));
    assert!(contains("anything", ""));
    assert!(contains("", ""));
    assert!(!contains("", "a"));
    assert!(contains_char("a#b", '#'));
    assert!(!contains_char("ab", '#'));
}

#[test]
fn name_table_keeps_one_entry_per_key() {
    let mut table: NameTable<String> = NameTable::new();
    table.insert("a".to_string(), "1".to_string());
    table.insert("b".to_string(), "2".to_string());
    table.insert("a".to_string(), "3".to_string());
    assert_eq!(table.len(), 2);
    assert_eq!(table.get("a"), Some(&"3".to_string()));
    assert_eq!(table.find("b"), Some(1));
    assert_eq!(table.find("c"), None);
    assert_eq!(table.keys(), vec!["a".to_string(), "b".to_string()]);
}

#[test]
fn default_broker_port() {
    assert_eq!(default_mqtt_port(), 1883);
}

#[test]
fn motion_messages() {
    let mut data = MotionSensorData::default();
    assert_eq!(motion_message(&data), "Motion sensor detects no movement");
    data.occupancy = true;
    assert_eq!(motion_message(&data), "Motion sensor triggered");
}

#[test]
fn repository_paths_and_picks() {
    let repo = AudioRepository::new("sounds".to_string());
    assert_eq!(repo.file_path("beep.mp3"), "sounds/beep.mp3");
    let paths = vec![
        "sounds/r2/astromech_1.mp3".to_string(),
        "sounds/bell.mp3".to_string(),
        "sounds/horn.mp3".to_string(),
    ];
    let pickable = AudioRepository::pickable_paths(&paths);
    assert_eq!(pickable, vec!["sounds/bell.mp3".to_string(), "sounds/horn.mp3".to_string()]);
    assert_eq!(AudioRepository::pick_random(&Vec::new()), None);
    for _ in 0..10 {
        let pick = AudioRepository::pick_random(&pickable).unwrap();
        assert!(pickable.contains(&pick));
    }
}
