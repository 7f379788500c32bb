//! Outbound message construction: which table fields feed the telemetry
//! message, and the exact topic strings of the uplink. Encoding to the wire
//! format and the actual send are the transport collaborator's job.

use vstd::prelude::*;
use vstd::string::*;

use crate::connector::NetConnectorSettings;
use crate::table::ResultTable;

verus! {

/// Telemetry message content, before wire encoding: the device identity and
/// the three published quantities, in thousandths of their unit. The
/// transport adds the server timestamp when it encodes.
pub struct TelemetryRecord {
    pub id_device: String,
    /// AHT20 relative humidity, milli-percent.
    pub humidity_milli: i64,
    /// BMP280 pressure, milli-kilopascal.
    pub pressure_milli: i64,
    /// AHT20 temperature, milli-degrees Celsius.
    pub temperature_milli: i64,
}

/// Fill a telemetry message from a snapshot: humidity and temperature come
/// from the AHT20 fields, pressure from the BMP280 field, and the device
/// identity from the settings.
pub fn build_telemetry(settings: &NetConnectorSettings, snapshot: &ResultTable) -> (message:
    TelemetryRecord)
    ensures
        message.id_device@ == settings.id_device@,
        message.humidity_milli == snapshot.aht20_humidity,
        message.pressure_milli == snapshot.bmp280_pressure,
        message.temperature_milli == snapshot.aht20_temp,
{
    TelemetryRecord {
        id_device: settings.id_device.clone(),
        humidity_milli: snapshot.aht20_humidity,
        pressure_milli: snapshot.bmp280_pressure,
        temperature_milli: snapshot.aht20_temp,
    }
}

/// The topic telemetry is published on: `iotserver/{id_device}/sendtelemetry`.
pub fn telemetry_topic(id_device: &str) -> (topic: String)
    ensures
        topic@ == "iotserver/"@ + id_device@ + "/sendtelemetry"@,
{
    let mut topic = String::new();
    topic.append("iotserver/");
    topic.append(id_device);
    topic.append("/sendtelemetry");
    proof {
        assert(topic@ =~= "iotserver/"@ + id_device@ + "/sendtelemetry"@);
    }
    topic
}

/// The device's own command topic: `iot/{id_device}/receive`.
pub fn device_receive_topic(id_device: &str) -> (topic: String)
    ensures
        topic@ == "iot/"@ + id_device@ + "/receive"@,
{
    let mut topic = String::new();
    topic.append("iot/");
    topic.append(id_device);
    topic.append("/receive");
    proof {
        assert(topic@ =~= "iot/"@ + id_device@ + "/receive"@);
    }
    topic
}

/// The broadcast command topic every device listens on.
pub fn global_receive_topic() -> (topic: String)
    ensures
        topic@ == "iot/global"@,
{
    let topic = String::new();
    topic.concat("iot/global")
}

/// The two inbound subscriptions a fresh session registers, in registration
/// order: the device's own command topic, then the global broadcast topic.
pub fn subscription_topics(id_device: &str) -> (topics: Vec<String>)
    ensures
        topics@.len() == 2,
        topics@[0]@ == "iot/"@ + id_device@ + "/receive"@,
        topics@[1]@ == "iot/global"@,
{
    let mut topics: Vec<String> = Vec::new();
    topics.push(device_receive_topic(id_device));
    topics.push(global_receive_topic());
    topics
}

} // verus!
