use home_speak_core::audio_player::{
    select_output_device, AudioPlayerCommand, DeviceAction, DevicePhase, DeviceWorker, Playable, FULL_VOLUME,
};

fn buffer(tag: u8) -> Playable {
    Playable::Buffer(vec![tag])
}

fn appended_tag(action: DeviceAction) -> Option<u8> {
    match action {
        DeviceAction::Append(Playable::Buffer(b)) => Some(b[0]),
        _ => None,
    }
}

#[test]
fn plays_are_appended_in_the_order_sent() {
    let mut worker = DeviceWorker::new();
    assert_eq!(appended_tag(worker.handle(AudioPlayerCommand::Play(buffer(1)))), Some(1));
    assert_eq!(appended_tag(worker.handle(AudioPlayerCommand::Play(buffer(2)))), Some(2));
    assert_eq!(worker.phase(), DevicePhase::Running);
}

#[test]
fn stop_pauses_and_keeps_the_queue() {
    let mut worker = DeviceWorker::new();
    let mut appended = vec![];
    let commands = vec![
        AudioPlayerCommand::Play(buffer(1)),
        AudioPlayerCommand::Play(buffer(2)),
        AudioPlayerCommand::Stop,
    ];
    for command in commands {
        if let Some(tag) = appended_tag(worker.handle(command)) {
            appended.push(tag);
        }
    }
    assert!(worker.is_paused());
    assert!(matches!(worker.handle(AudioPlayerCommand::Resume), DeviceAction::ResumeOutput));
    assert!(!worker.is_paused());
    assert_eq!(appended, vec![1, 2]);
}

#[test]
fn stop_is_a_pause_of_output() {
    let mut worker = DeviceWorker::new();
    assert!(matches!(worker.handle(AudioPlayerCommand::Stop), DeviceAction::PauseOutput));
    assert!(matches!(worker.handle(AudioPlayerCommand::Pause), DeviceAction::PauseOutput));
}

#[test]
fn volume_is_set_and_applied() {
    let mut worker = DeviceWorker::new();
    assert_eq!(worker.volume(), FULL_VOLUME);
    assert!(matches!(worker.handle(AudioPlayerCommand::Volume(250)), DeviceAction::SetVolume(250)));
    assert_eq!(worker.volume(), 250);
}

#[test]
fn restart_then_reacquired_plays_again() {
    let mut worker = DeviceWorker::new();
    worker.handle(AudioPlayerCommand::Volume(100));
    worker.handle(AudioPlayerCommand::Pause);
    assert!(matches!(worker.handle(AudioPlayerCommand::Restart), DeviceAction::Reacquire));
    assert_eq!(worker.phase(), DevicePhase::Reacquiring);
    worker.reacquired(true);
    assert_eq!(worker.phase(), DevicePhase::Running);
    assert!(!worker.is_paused());
    assert_eq!(worker.volume(), FULL_VOLUME);
    assert_eq!(appended_tag(worker.handle(AudioPlayerCommand::Play(buffer(7)))), Some(7));
}

#[test]
fn failed_reacquisition_discards_everything_after() {
    let mut worker = DeviceWorker::new();
    worker.handle(AudioPlayerCommand::Restart);
    worker.reacquired(false);
    assert_eq!(worker.phase(), DevicePhase::Terminated);
    assert!(matches!(worker.handle(AudioPlayerCommand::Play(buffer(1))), DeviceAction::Discard));
    assert!(matches!(worker.handle(AudioPlayerCommand::Resume), DeviceAction::Discard));
    assert!(matches!(worker.handle(AudioPlayerCommand::Restart), DeviceAction::Discard));
    worker.reacquired(true);
    assert_eq!(worker.phase(), DevicePhase::Terminated);
}

#[test]
fn preferred_devices_come_first_then_default_then_rest() {
    let names = vec![
        "default".to_string(),
        "hw:CARD=Device,DEV=0".to_string(),
        "hdmi".to_string(),
        "sysdefault:CARD=Device".to_string(),
    ];
    assert_eq!(select_output_device(&names, "CARD=Device", Some(0)), vec![1, 3, 0, 2]);
    assert_eq!(select_output_device(&names, "CARD=Device", Some(1)), vec![1, 3, 0, 2]);
    assert_eq!(select_output_device(&names, "CARD=Device", None), vec![1, 3, 0, 2]);
    assert_eq!(select_output_device(&names, "CARD=Device", Some(2)), vec![1, 3, 2, 0]);
}

#[test]
fn without_a_match_the_default_device_is_tried_first() {
    let names = vec!["a".to_string(), "b".to_string(), "c".to_string()];
    assert_eq!(select_output_device(&names, "CARD=Device", Some(1)), vec![1, 0, 2]);
    assert_eq!(select_output_device(&names, "CARD=Device", Some(9)), vec![0, 1, 2]);
    assert_eq!(select_output_device(&Vec::new(), "CARD=Device", None), Vec::<usize>::new());
}

#[test]
fn commands_from_two_callers_play_in_send_order() {
    let (sender, receiver) = std::sync::mpsc::channel();
    let first_caller = sender.clone();
    let second_caller = sender;
    first_caller.send(AudioPlayerCommand::Play(buffer(10))).unwrap();
    second_caller.send(AudioPlayerCommand::Play(buffer(20))).unwrap();
    first_caller.send(AudioPlayerCommand::Play(buffer(30))).unwrap();
    drop(first_caller);
    drop(second_caller);
    let mut worker = DeviceWorker::new();
    let order: Vec<u8> = receiver.iter().filter_map(|command| appended_tag(worker.handle(command))).collect();
    assert_eq!(order, vec![10, 20, 30]);
}
