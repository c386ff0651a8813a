use vstd::prelude::*;
use vstd::string::StringExecFns;

verus! {

/// A message as handed to the transport: topic, payload, delivery level and
/// whether the broker keeps it for late subscribers.
#[derive(Clone, Debug)]
pub struct BusMessage {
    pub topic: String,
    pub payload: String,
    pub qos: u8,
    pub retained: bool,
}

/// The topics and identity of one deployment.
///
/// `door_topic` is present in the door-control deployment only.
#[derive(Clone, Debug)]
pub struct DeviceProfile {
    pub broker: String,
    pub client_id: String,
    pub status_topic: String,
    pub button_topic: String,
    pub door_topic: Option<String>,
}

/// Whether two texts hold the same characters.
pub fn same_text(a: &str, b: &str) -> (r: bool)
    ensures
        r == (a@ == b@),
{
    let x = a.to_owned();
    let y = b.to_owned();
    x == y
}

impl DeviceProfile {
    /// The deployment with one relay, a status topic and a button topic.
    pub fn relay() -> (r: DeviceProfile)
        ensures
            r.broker@ == "tcp://192.168.1.127:1886"@,
            r.client_id@ == "Pi"@,
            r.status_topic@ == "rasp/status"@,
            r.button_topic@ == "rasp/button"@,
            r.door_topic.is_none(),
    {
        DeviceProfile {
            broker: String::from_str("tcp://192.168.1.127:1886"),
            client_id: String::from_str("Pi"),
            status_topic: String::from_str("rasp/status"),
            button_topic: String::from_str("rasp/button"),
            door_topic: None,
        }
    }

    /// The same deployment under a separate identity and topics, for
    /// development builds.
    pub fn relay_debug() -> (r: DeviceProfile)
        ensures
            r.broker@ == "tcp://192.168.1.127:1886"@,
            r.client_id@ == "Pi_debug"@,
            r.status_topic@ == "rasp_debug/status"@,
            r.button_topic@ == "rasp_debug/button"@,
            r.door_topic.is_none(),
    {
        DeviceProfile {
            broker: String::from_str("tcp://192.168.1.127:1886"),
            client_id: String::from_str("Pi_debug"),
            status_topic: String::from_str("rasp_debug/status"),
            button_topic: String::from_str("rasp_debug/button"),
            door_topic: None,
        }
    }

    /// The door-control deployment: this profile, also listening to the
    /// door's reported position on `topic`.
    pub fn with_door_topic(self, topic: String) -> (r: DeviceProfile)
        ensures
            r.broker == self.broker,
            r.client_id == self.client_id,
            r.status_topic == self.status_topic,
            r.button_topic == self.button_topic,
            r.door_topic == Some(topic),
    {
        DeviceProfile { door_topic: Some(topic), ..self }
    }
}

} // verus!
