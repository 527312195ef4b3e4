//! Configuration and records that are read from files and messages.

use crate::cache_key::AzureVoiceStyle;
use vstd::prelude::*;

verus! {

/// Who the assistant is.
#[derive(Debug, Clone, Default)]
pub struct AssistantConfig {
    pub name: String,
    pub primary_user_name: String,
}

/// The port of an MQTT broker when none is configured.
pub const DEFAULT_MQTT_PORT: u16 = 1883;

/// The broker port used when the configuration names none.
pub fn default_mqtt_port() -> (r: u16)
    ensures
        r == DEFAULT_MQTT_PORT,
{
    DEFAULT_MQTT_PORT
}

/// How to reach the message bus.
#[derive(Debug, Clone)]
pub struct MqttConfig {
    pub base_route: String,
    pub broker_host: String,
    pub broker_port: u16,
    pub client_id: String,
}

/// A report of a motion sensor.
#[derive(Debug, Clone, Default, PartialEq, Eq, Structural)]
pub struct MotionSensorData {
    pub battery: i64,
    pub battery_low: bool,
    pub linkquality: i64,
    pub occupancy: bool,
    pub tamper: bool,
    pub voltage: i64,
}

/// What is said when a motion sensor reports.
pub fn motion_message(data: &MotionSensorData) -> (r: &'static str)
    ensures
        data.occupancy ==> r@ == "Motion sensor triggered"@,
        !data.occupancy ==> r@ == "Motion sensor detects no movement"@,
{
    if data.occupancy {
        "Motion sensor triggered"
    } else {
        "Motion sensor detects no movement"
    }
}

/// An alarm as it is saved: when it rings, how often it repeats, and what
/// is said in which style.
#[derive(Debug, Clone)]
pub struct SavedAlarm {
    pub time: String,
    pub repeat_delay: u32,
    pub repeat_count: usize,
    pub message: String,
    pub style: AzureVoiceStyle,
}

/// The saved alarms.
#[derive(Debug, Clone)]
pub struct SavedAlarmConfig {
    pub alarms: Vec<SavedAlarm>,
}

} // verus!
