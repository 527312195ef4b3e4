use home_speak_core::alarm_service::AlarmBook;
use home_speak_core::alarm_service::saved_alarms;
use home_speak_core::cache_key::AzureVoiceStyle;
use home_speak_core::config::AssistantConfig;
use home_speak_core::template_messages::{
    humanize_date_time, humanize_time, replace, trim_end_matches, LocalDateTime, NetworkInterface,
    TemplateEngine,
};

fn at(year: i32, month: u32, day: u32, weekday: u32, hour: u32, minute: u32) -> LocalDateTime {
    LocalDateTime { year, month, day, weekday, hour, minute }
}

fn nic(name: &str, address: &str, is_ipv4: bool, is_loopback: bool) -> NetworkInterface {
    NetworkInterface { name: name.to_string(), address: address.to_string(), is_ipv4, is_loopback }
}

#[test]
fn time_is_spoken_with_padded_minutes() {
    assert_eq!(humanize_time(at(2024, 1, 1, 0, 9, 5)), "9:05, ");
    assert_eq!(humanize_time(at(2024, 1, 1, 0, 23, 59)), "23:59, ");
    assert_eq!(humanize_time(at(2024, 1, 1, 0, 0, 0)), "0:00, ");
}

#[test]
fn date_is_spoken_with_weekday_ordinal_and_month() {
    assert_eq!(humanize_date_time(at(2024, 1, 1, 0, 9, 5)), "Mon, 1st of January, 2024 at 9:05, ");
    assert_eq!(humanize_date_time(at(2023, 12, 22, 4, 18, 30)), "Fri, 22nd of December, 2023 at 18:30, ");
    assert_eq!(humanize_date_time(at(2023, 3, 13, 0, 7, 0)), "Mon, 13th of March, 2023 at 7:00, ");
    assert_eq!(humanize_date_time(at(-44, 3, 15, 6, 12, 1)), "Sun, 15th of March, -44 at 12:01, ");
}

#[test]
fn ordinal_suffixes() {
    let cases = [(1, "1st"), (2, "2nd"), (3, "3rd"), (4, "4th"), (11, "11th"), (12, "12th"), (13, "13th"), (21, "21st"), (23, "23rd"), (31, "31st")];
    for (day, text) in cases {
        let spoken = humanize_date_time(at(2024, 5, day, 2, 1, 2));
        assert_eq!(spoken, format!("Wed, {} of May, 2024 at 1:02, ", text));
    }
}

#[test]
fn placeholders_are_replaced() {
    let t = at(2024, 7, 4, 3, 6, 45);
    assert_eq!(
        TemplateEngine::template_substitute_at("Now /time on /date", t),
        "Now 6:45,  on Thu, 4th of July, 2024 at 6:45, "
    );
    assert_eq!(TemplateEngine::template_substitute_at("nothing", t), "nothing");
    let live = TemplateEngine::template_substitute("/time");
    assert!(live.ends_with(", "));
}

#[test]
fn replace_is_left_to_right_and_not_overlapping() {
    assert_eq!(replace("aaa", "aa", "b"), "ba");
    assert_eq!(replace("x/timey/time", "/time", "T"), "xTyT");
    assert_eq!(replace("", "a", "b"), "");
}

#[test]
fn trailing_separators_are_trimmed() {
    assert_eq!(trim_end_matches("a, b, ", ", "), "a, b");
    assert_eq!(trim_end_matches("a, , ", ", "), "a");
    assert_eq!(trim_end_matches("a", ", "), "a");
    assert_eq!(trim_end_matches("", ", "), "");
}

fn config() -> AssistantConfig {
    AssistantConfig { name: "Joy".to_string(), primary_user_name: "David".to_string() }
}

#[test]
fn startup_message_names_ipv4_interfaces() {
    let nics = vec![
        nic("lo", "127.0.0.1", true, true),
        nic("eth0", "192.168.1.2", true, false),
        nic("eth0", "fe80::1", false, false),
        nic("wlan0", "10.0.0.7", true, false),
    ];
    let engine = TemplateEngine::new(config(), Some("homepi".to_string()), Some(nics));
    let lines = engine.startup_message_at(at(2024, 1, 1, 0, 9, 5));
    assert_eq!(
        lines,
        vec![
            "Good morning, my name is Joy!".to_string(),
            "It's Mon, 1st of January, 2024 at 9:05, . ".to_string(),
            "My network interfaces are eth0 at 192.168.1.2, wlan0 at 10.0.0.7.".to_string(),
            "My hostname is homepi. ".to_string(),
        ]
    );
    assert_eq!(engine.startup_message().len(), 4);
}

#[test]
fn startup_message_without_interfaces_or_hostname() {
    let none = TemplateEngine::new(config(), None, None);
    let lines = none.startup_message_at(at(2024, 1, 1, 0, 9, 5));
    assert_eq!(
        lines[2],
        "I can't tell you how to reach me because it looks like I failed to query the local interfaces for some reason."
    );
    assert_eq!(lines[3], "I can't detect my hostname. Maybe this platform isn't supported?");
    let empty = TemplateEngine::new(config(), None, Some(vec![]));
    assert_eq!(
        empty.startup_message_at(at(2024, 1, 1, 0, 9, 5))[2],
        "Huh, It looks like this device has no network interfaces?"
    );
    let only_loopback = TemplateEngine::new(config(), None, Some(vec![nic("lo", "127.0.0.1", true, true)]));
    assert_eq!(only_loopback.startup_message_at(at(2024, 1, 1, 0, 9, 5))[2], "My network interfaces are .");
}

#[test]
fn alarms_are_kept_in_time_order() {
    let mut book = AlarmBook::new();
    let first = book.add_alarm("08:00".to_string(), 5, 2, "wake up".to_string(), AzureVoiceStyle::Cheerful).unwrap();
    let early = book.add_alarm("07:30".to_string(), 1, 1, "early".to_string(), AzureVoiceStyle::Plain).unwrap();
    let second = book.add_alarm("08:00".to_string(), 0, 0, "again".to_string(), AzureVoiceStyle::Sad).unwrap();
    assert_ne!(first, second);
    let messages: Vec<String> = book.alarms().iter().map(|a| a.message.clone()).collect();
    assert_eq!(messages, vec!["early", "wake up", "again"]);
    book.remove(first);
    let remaining: Vec<_> = book.alarms().iter().map(|a| a.id).collect();
    assert_eq!(remaining, vec![early, second]);
    book.remove(first);
    assert_eq!(book.alarms().len(), 2);
}

#[test]
fn alarms_are_saved_field_by_field() {
    let mut book = AlarmBook::new();
    book.add_alarm("06:15".to_string(), 10, 3, "/time".to_string(), AzureVoiceStyle::Angry).unwrap();
    let saved = saved_alarms(&book.alarms());
    assert_eq!(saved.len(), 1);
    assert_eq!(saved[0].time, "06:15");
    assert_eq!(saved[0].repeat_delay, 10);
    assert_eq!(saved[0].repeat_count, 3);
    assert_eq!(saved[0].message, "/time");
    assert_eq!(saved[0].style, AzureVoiceStyle::Angry);
}
