use vstd::prelude::*;
use vstd::string::StringExecFns;
use crate::message::{BusMessage, DeviceProfile};

verus! {

/// Delivery level of the status topic: at least once.
pub const STATUS_QOS: u8 = 1;

/// Delivery level of the button topic: exactly once, so that a press is
/// never delivered twice.
pub const BUTTON_QOS: u8 = 2;

/// Delivery level asked for on the door-state topic.
pub const DOOR_QOS: u8 = 1;

/// Keep-alive interval asked of the broker, in seconds.
pub const KEEP_ALIVE_SECS: u64 = 10;

/// What a status message must be: on the status topic, the given payload,
/// level one, retained.
pub open spec fn is_status_message(p: &DeviceProfile, m: BusMessage, payload: Seq<char>) -> bool {
    &&& m.topic@ == p.status_topic@
    &&& m.payload@ == payload
    &&& m.qos == STATUS_QOS
    &&& m.retained
}

/// The "online" announcement.
pub open spec fn is_online_message(p: &DeviceProfile, m: BusMessage) -> bool {
    is_status_message(p, m, "1"@)
}

/// The "offline" announcement, also the last will.
pub open spec fn is_offline_message(p: &DeviceProfile, m: BusMessage) -> bool {
    is_status_message(p, m, "0"@)
}

/// The message that puts the button back to its idle state.
pub open spec fn is_button_reset(p: &DeviceProfile, m: BusMessage) -> bool {
    &&& m.topic@ == p.button_topic@
    &&& m.payload@ == "0"@
    &&& m.qos == BUTTON_QOS
    &&& !m.retained
}

/// Announces that the device is present.
pub fn build_online_message(p: &DeviceProfile) -> (r: BusMessage)
    ensures
        is_online_message(p, r),
{
    BusMessage {
        topic: p.status_topic.clone(),
        payload: String::from_str("1"),
        qos: STATUS_QOS,
        retained: true,
    }
}

/// Announces that the device is gone; the broker also publishes it on the
/// device's behalf when the link drops uncleanly.
pub fn build_offline_message(p: &DeviceProfile) -> (r: BusMessage)
    ensures
        is_offline_message(p, r),
{
    BusMessage {
        topic: p.status_topic.clone(),
        payload: String::from_str("0"),
        qos: STATUS_QOS,
        retained: true,
    }
}

/// Puts the button topic back to "0", so that a press does not stay latched.
pub fn build_button_reset(p: &DeviceProfile) -> (r: BusMessage)
    ensures
        is_button_reset(p, r),
{
    BusMessage {
        topic: p.button_topic.clone(),
        payload: String::from_str("0"),
        qos: BUTTON_QOS,
        retained: false,
    }
}

/// What the transport is given at connect time.
#[derive(Clone, Debug)]
pub struct ConnectionConfig {
    pub broker: String,
    pub client_id: String,
    pub keep_alive_secs: u64,
    pub clean_session: bool,
    pub last_will: BusMessage,
}

/// The connect-time configuration: the offline message is the last will.
pub fn connection_config(p: &DeviceProfile) -> (r: ConnectionConfig)
    ensures
        r.broker@ == p.broker@,
        r.client_id@ == p.client_id@,
        r.keep_alive_secs == KEEP_ALIVE_SECS,
        r.clean_session,
        is_offline_message(p, r.last_will),
{
    ConnectionConfig {
        broker: p.broker.clone(),
        client_id: p.client_id.clone(),
        keep_alive_secs: KEEP_ALIVE_SECS,
        clean_session: true,
        last_will: build_offline_message(p),
    }
}

} // verus!
