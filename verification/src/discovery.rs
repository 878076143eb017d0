//! Home Assistant MQTT discovery: the sensors of each model, and the
//! configuration that announces a sensor.

use vstd::prelude::*;

use crate::model::InverterModel;
use crate::telemetry::{error_state, operating_mode};
use crate::text::{hex, law_hex8_tells_numbers_apart, lemma_hex_len, same_text};

verus! {

/// A sensor that Home Assistant is told of.
#[derive(Debug, Clone, Copy)]
pub struct Sensor {
    pub id: &'static str,
    pub name: &'static str,
    /// Empty for a sensor without a device class.
    pub device_class: &'static str,
    /// Empty for a sensor without a unit.
    pub unit: &'static str,
    /// The key of the sensor's value in the telemetry message.
    pub json_key: &'static str,
}

/// The texts of a [`Sensor`].
#[verifier::ext_equal]
pub struct SensorView {
    pub id: Seq<char>,
    pub name: Seq<char>,
    pub device_class: Seq<char>,
    pub unit: Seq<char>,
    pub json_key: Seq<char>,
}

impl Sensor {
    pub open spec fn view(self) -> SensorView {
        SensorView {
            id: self.id@,
            name: self.name@,
            device_class: self.device_class@,
            unit: self.unit@,
            json_key: self.json_key@,
        }
    }

    fn new(
        id: &'static str,
        name: &'static str,
        device_class: &'static str,
        unit: &'static str,
        json_key: &'static str,
    ) -> (s: Sensor)
        ensures
            s.view() == sensor(id@, name@, device_class@, unit@, json_key@),
    {
        Sensor { id, name, device_class, unit, json_key }
    }
}

pub open spec fn sensor(
    id: Seq<char>,
    name: Seq<char>,
    device_class: Seq<char>,
    unit: Seq<char>,
    json_key: Seq<char>,
) -> SensorView {
    SensorView { id, name, device_class, unit, json_key }
}

/// The name of the voltage sensor. The word is an internal measurement; only on
/// the BDM-400, where that is not confirmed against a reference meter, it keeps
/// the name of the grid voltage.
pub open spec fn voltage_label(model: InverterModel) -> Seq<char> {
    match model {
        InverterModel::Bdm400 => "AC Grid Voltage"@,
        InverterModel::Bdm800 => "Internal Bus Voltage"@,
        InverterModel::Bdm1200Lv => "Internal Voltage"@,
    }
}

/// The sensors of a model. The BDM-1200-LV has those that its payload carries,
/// and the power of each PV input.
pub open spec fn sensors_of(model: InverterModel) -> Seq<SensorView> {
    let ac_power = sensor("ac_power"@, "AC Output Power"@, "power"@, "W"@, "ac_power_w"@);
    let ac_voltage = sensor(
        "ac_voltage"@,
        voltage_label(model),
        "voltage"@,
        "V"@,
        "ac_voltage_v"@,
    );
    let ac_freq = sensor("ac_freq"@, "AC Grid Frequency"@, "frequency"@, "Hz"@, "ac_freq_hz"@);
    let temperature = sensor(
        "temperature"@,
        "DSP Temperature"@,
        "temperature"@,
        "°C"@,
        "temperature_c"@,
    );
    let error_state = sensor("error_state"@, "Error State"@, "enum"@, ""@, "error_state"@);
    match model {
        InverterModel::Bdm1200Lv => seq![
            ac_power,
            ac_voltage,
            ac_freq,
            temperature,
            error_state,
            sensor("pv1_power"@, "PV Input 1 Power"@, "power"@, "W"@, "pv1_power_w"@),
            sensor("pv2_power"@, "PV Input 2 Power"@, "power"@, "W"@, "pv2_power_w"@),
            sensor("pv3_power"@, "PV Input 3 Power"@, "power"@, "W"@, "pv3_power_w"@),
        ],
        _ => seq![
            ac_power,
            ac_voltage,
            ac_freq,
            sensor("dc_voltage"@, "DC PV Voltage"@, "voltage"@, "V"@, "dc_voltage_v"@),
            sensor("dc_current"@, "DC PV Current"@, "current"@, "A"@, "dc_current_a"@),
            sensor(
                "dc_current_ch1"@,
                "DC PV Current CH1"@,
                "current"@,
                "A"@,
                "dc_current_ch1_a"@,
            ),
            sensor(
                "dc_current_ch2"@,
                "DC PV Current CH2"@,
                "current"@,
                "A"@,
                "dc_current_ch2_a"@,
            ),
            sensor("dc_power"@, "DC PV Power"@, "power"@, "W"@, "dc_power_w"@),
            sensor("efficiency"@, "Inverter Efficiency"@, ""@, "%"@, "efficiency_percent"@),
            temperature,
            sensor("daily_energy"@, "Daily Energy"@, "energy"@, "Wh"@, "daily_energy_wh"@),
            sensor(
                "reactive_power"@,
                "Reactive Power"@,
                "reactive_power"@,
                "VAR"@,
                "reactive_power_var"@,
            ),
            error_state,
            sensor("operating_mode"@, "Operating Mode"@, "enum"@, ""@, "operating_mode"@),
        ],
    }
}

/// The texts of a list of sensors.
pub open spec fn sensor_views(sensors: Seq<Sensor>) -> Seq<SensorView> {
    sensors.map_values(|s: Sensor| s.view())
}

/// The sensors that Home Assistant is told of for a model.
pub fn sensors(model: InverterModel) -> (list: Vec<Sensor>)
    ensures
        sensor_views(list@) == sensors_of(model),
{
    let label: &'static str = match model {
        InverterModel::Bdm400 => "AC Grid Voltage",
        InverterModel::Bdm800 => "Internal Bus Voltage",
        InverterModel::Bdm1200Lv => "Internal Voltage",
    };
    let ac_power = Sensor::new("ac_power", "AC Output Power", "power", "W", "ac_power_w");
    let ac_voltage = Sensor::new("ac_voltage", label, "voltage", "V", "ac_voltage_v");
    let ac_freq = Sensor::new("ac_freq", "AC Grid Frequency", "frequency", "Hz", "ac_freq_hz");
    let temperature = Sensor::new(
        "temperature",
        "DSP Temperature",
        "temperature",
        "°C",
        "temperature_c",
    );
    let error_state = Sensor::new("error_state", "Error State", "enum", "", "error_state");
    let list = if model == InverterModel::Bdm1200Lv {
        vec![
            ac_power,
            ac_voltage,
            ac_freq,
            temperature,
            error_state,
            Sensor::new("pv1_power", "PV Input 1 Power", "power", "W", "pv1_power_w"),
            Sensor::new("pv2_power", "PV Input 2 Power", "power", "W", "pv2_power_w"),
            Sensor::new("pv3_power", "PV Input 3 Power", "power", "W", "pv3_power_w"),
        ]
    } else {
        vec![
            ac_power,
            ac_voltage,
            ac_freq,
            Sensor::new("dc_voltage", "DC PV Voltage", "voltage", "V", "dc_voltage_v"),
            Sensor::new("dc_current", "DC PV Current", "current", "A", "dc_current_a"),
            Sensor::new("dc_current_ch1", "DC PV Current CH1", "current", "A", "dc_current_ch1_a"),
            Sensor::new("dc_current_ch2", "DC PV Current CH2", "current", "A", "dc_current_ch2_a"),
            Sensor::new("dc_power", "DC PV Power", "power", "W", "dc_power_w"),
            Sensor::new("efficiency", "Inverter Efficiency", "", "%", "efficiency_percent"),
            temperature,
            Sensor::new("daily_energy", "Daily Energy", "energy", "Wh", "daily_energy_wh"),
            Sensor::new(
                "reactive_power",
                "Reactive Power",
                "reactive_power",
                "VAR",
                "reactive_power_var",
            ),
            error_state,
            Sensor::new("operating_mode", "Operating Mode", "enum", "", "operating_mode"),
        ]
    };
    assert(sensor_views(list@) =~= sensors_of(model));
    list
}

/// The device that a sensor belongs to.
#[derive(Debug)]
pub struct Device {
    pub identifier: String,
    pub name: String,
    pub model: String,
    pub manufacturer: &'static str,
}

/// The configuration that announces a sensor to Home Assistant.
#[derive(Debug)]
pub struct DiscoveryConfig {
    pub name: String,
    pub state_topic: String,
    pub value_template: String,
    pub unique_id: String,
    pub device: Device,
    pub device_class: Option<&'static str>,
    pub unit_of_measurement: Option<&'static str>,
    pub state_class: Option<&'static str>,
    /// The texts that the sensor can show; empty where it shows a number.
    pub options: Vec<&'static str>,
}

/// The texts of a [`DiscoveryConfig`].
#[verifier::ext_equal]
pub struct DiscoveryView {
    pub name: Seq<char>,
    pub state_topic: Seq<char>,
    pub value_template: Seq<char>,
    pub unique_id: Seq<char>,
    pub device_identifier: Seq<char>,
    pub device_name: Seq<char>,
    pub device_model: Seq<char>,
    pub device_manufacturer: Seq<char>,
    pub device_class: Option<Seq<char>>,
    pub unit_of_measurement: Option<Seq<char>>,
    pub state_class: Option<Seq<char>>,
    pub options: Seq<Seq<char>>,
}

/// The text of an optional constant.
pub open spec fn optional_text(text: Option<&'static str>) -> Option<Seq<char>> {
    match text {
        Some(t) => Some(t@),
        None => None,
    }
}

/// The texts of a list of constants.
pub open spec fn texts(list: Seq<&'static str>) -> Seq<Seq<char>> {
    list.map_values(|t: &'static str| t@)
}

impl DiscoveryConfig {
    pub open spec fn view(self) -> DiscoveryView {
        DiscoveryView {
            name: self.name@,
            state_topic: self.state_topic@,
            value_template: self.value_template@,
            unique_id: self.unique_id@,
            device_identifier: self.device.identifier@,
            device_name: self.device.name@,
            device_model: self.device.model@,
            device_manufacturer: self.device.manufacturer@,
            device_class: optional_text(self.device_class),
            unit_of_measurement: optional_text(self.unit_of_measurement),
            state_class: optional_text(self.state_class),
            options: texts(self.options@),
        }
    }
}

/// The topic of an inverter's telemetry.
pub open spec fn telemetry_topic(serial: Seq<char>) -> Seq<char> {
    "nep/telemetry/"@ + serial
}

/// The topic of a sensor's configuration.
pub open spec fn discovery_topic(serial: Seq<char>, id: Seq<char>) -> Seq<char> {
    "homeassistant/sensor/nep_"@ + serial + "/"@ + id + "/config"@
}

/// What Home Assistant may do with the values of a sensor over time.
pub open spec fn state_class_of(id: Seq<char>) -> Option<Seq<char>> {
    if id == "daily_energy"@ {
        Some("total_increasing"@)
    } else if id == "efficiency"@ || id == "error_state"@ || id == "operating_mode"@ {
        None
    } else {
        Some("measurement"@)
    }
}

/// The error states that can be shown.
pub open spec fn error_states() -> Seq<Seq<char>> {
    seq![
        "OK"@,
        "Grid Loss / Islanding"@,
        "Anti-Islanding Reconnection Sync Timer"@,
        "Unknown Error"@,
    ]
}

/// The operating modes that can be shown.
pub open spec fn operating_modes() -> Seq<Seq<char>> {
    seq![
        "Deep Sleep"@,
        "Awake Standby"@,
        "Active Standby"@,
        "Generating"@,
        "Unknown State"@,
    ]
}

/// The texts that a sensor can show.
pub open spec fn options_of(id: Seq<char>) -> Seq<Seq<char>> {
    if id == "error_state"@ {
        error_states()
    } else if id == "operating_mode"@ {
        operating_modes()
    } else {
        Seq::empty()
    }
}

pub open spec fn unless_empty(text: Seq<char>) -> Option<Seq<char>> {
    if text.len() == 0 {
        None
    } else {
        Some(text)
    }
}

/// The configuration of a sensor of the inverter `serial`; `model` is the name
/// of the model to show.
pub open spec fn discovery_of(
    serial: Seq<char>,
    model: Seq<char>,
    s: SensorView,
) -> DiscoveryView {
    DiscoveryView {
        name: "NEP "@ + serial + " "@ + s.name,
        state_topic: telemetry_topic(serial),
        value_template: "{{ value_json."@ + s.json_key + " }}"@,
        unique_id: "nep_"@ + serial + "_"@ + s.id,
        device_identifier: "nep_bdm_"@ + serial,
        device_name: "NEP "@ + model + " ("@ + serial + ")"@,
        device_model: model,
        device_manufacturer: "Northern Electric Power (NEP)"@,
        device_class: unless_empty(s.device_class),
        unit_of_measurement: unless_empty(s.unit),
        state_class: state_class_of(s.id),
        options: options_of(s.id),
    }
}

/// Puts texts together.
fn concat3(a: &str, b: &str, c: &str) -> (text: String)
    ensures
        text@ == a@ + b@ + c@,
{
    let mut out = a.to_owned();
    out.append(b);
    out.append(c);
    out
}

/// The topic of an inverter's telemetry.
pub fn telemetry_topic_text(serial: &str) -> (topic: String)
    ensures
        topic@ == telemetry_topic(serial@),
{
    let mut out = "nep/telemetry/".to_owned();
    out.append(serial);
    out
}

/// The topic of a sensor's configuration.
pub fn discovery_topic_text(serial: &str, id: &str) -> (topic: String)
    ensures
        topic@ == discovery_topic(serial@, id@),
{
    let mut out = concat3("homeassistant/sensor/nep_", serial, "/");
    out.append(id);
    out.append("/config");
    out
}

fn some_unless_empty(text: &'static str) -> (r: Option<&'static str>)
    ensures
        optional_text(r) == unless_empty(text@),
{
    if text.is_empty() {
        None
    } else {
        Some(text)
    }
}

fn state_class(id: &str) -> (r: Option<&'static str>)
    ensures
        optional_text(r) == state_class_of(id@),
{
    if same_text(id, "daily_energy") {
        Some("total_increasing")
    } else if same_text(id, "efficiency") || same_text(id, "error_state") || same_text(
        id,
        "operating_mode",
    ) {
        None
    } else {
        Some("measurement")
    }
}

fn options(id: &str) -> (r: Vec<&'static str>)
    ensures
        texts(r@) == options_of(id@),
{
    let list: Vec<&'static str> = if same_text(id, "error_state") {
        vec![
            "OK",
            "Grid Loss / Islanding",
            "Anti-Islanding Reconnection Sync Timer",
            "Unknown Error",
        ]
    } else if same_text(id, "operating_mode") {
        vec!["Deep Sleep", "Awake Standby", "Active Standby", "Generating", "Unknown State"]
    } else {
        Vec::new()
    };
    assert(texts(list@) =~= options_of(id@));
    list
}

/// The configuration that announces a sensor of the inverter `serial`; `model`
/// is the name of the model to show.
pub fn discovery_config(serial: &str, model: &str, s: &Sensor) -> (config: DiscoveryConfig)
    ensures
        config.view() == discovery_of(serial@, model@, s.view()),
{
    let mut name = concat3("NEP ", serial, " ");
    name.append(s.name);
    let mut unique_id = concat3("nep_", serial, "_");
    unique_id.append(s.id);
    let mut device_name = concat3("NEP ", model, " (");
    device_name.append(serial);
    device_name.append(")");
    let mut identifier = "nep_bdm_".to_owned();
    identifier.append(serial);
    DiscoveryConfig {
        name,
        state_topic: telemetry_topic_text(serial),
        value_template: concat3("{{ value_json.", s.json_key, " }}"),
        unique_id,
        device: Device {
            identifier,
            name: device_name,
            model: model.to_owned(),
            manufacturer: "Northern Electric Power (NEP)",
        },
        device_class: some_unless_empty(s.device_class),
        unit_of_measurement: some_unless_empty(s.unit),
        state_class: state_class(s.id),
        options: options(s.id),
    }
}

/// Every error state of a telemetry is one of the texts that its sensor is
/// announced with.
pub proof fn law_error_state_is_announced(status_code: u16)
    ensures
        options_of("error_state"@).contains(error_state(status_code)),
{
    let list = error_states();
    assert(list[0] == "OK"@);
    assert(list[1] == "Grid Loss / Islanding"@);
    assert(list[2] == "Anti-Islanding Reconnection Sync Timer"@);
    assert(list[3] == "Unknown Error"@);
}

/// Every operating mode of a telemetry is one of the texts that its sensor is
/// announced with.
pub proof fn law_operating_mode_is_announced(model: InverterModel, low_byte: int)
    ensures
        options_of("operating_mode"@).contains(operating_mode(model, low_byte)),
{
    reveal_strlit("operating_mode");
    reveal_strlit("error_state");
    assert("operating_mode"@.len() != "error_state"@.len());
    let list = operating_modes();
    assert(list[0] == "Deep Sleep"@);
    assert(list[1] == "Awake Standby"@);
    assert(list[2] == "Active Standby"@);
    assert(list[3] == "Generating"@);
    assert(list[4] == "Unknown State"@);
}

/// No two sensors of a model share an identifier.
pub proof fn law_sensor_ids_are_distinct(model: InverterModel, i: int, j: int)
    requires
        0 <= i < j < sensors_of(model).len(),
    ensures
        sensors_of(model)[i].id != sensors_of(model)[j].id,
{
    reveal_strlit("ac_power");
    reveal_strlit("ac_voltage");
    reveal_strlit("ac_freq");
    reveal_strlit("dc_voltage");
    reveal_strlit("dc_current");
    reveal_strlit("dc_current_ch1");
    reveal_strlit("dc_current_ch2");
    reveal_strlit("dc_power");
    reveal_strlit("efficiency");
    reveal_strlit("temperature");
    reveal_strlit("daily_energy");
    reveal_strlit("reactive_power");
    reveal_strlit("error_state");
    reveal_strlit("operating_mode");
    reveal_strlit("pv1_power");
    reveal_strlit("pv2_power");
    reveal_strlit("pv3_power");
    let a = sensors_of(model)[i].id;
    let b = sensors_of(model)[j].id;
    if a == b {
        // Two identifiers of one length differ in their first, third, fourth or last character.
        assert(a[0] == b[0] && a[2] == b[2] && a[3] == b[3]);
        assert(a[a.len() - 1] == b[b.len() - 1]);
    }
}

/// The topics of two sensors' configurations are the same only where both the
/// inverters and the sensors are.
pub proof fn law_discovery_topics_are_distinct(
    serial_a: u32,
    id_a: Seq<char>,
    serial_b: u32,
    id_b: Seq<char>,
)
    requires
        discovery_topic(hex(serial_a as nat, 8), id_a) == discovery_topic(
            hex(serial_b as nat, 8),
            id_b,
        ),
    ensures
        serial_a == serial_b,
        id_a == id_b,
{
    let (a, b) = (hex(serial_a as nat, 8), hex(serial_b as nat, 8));
    let prefix = "homeassistant/sensor/nep_"@;
    lemma_hex_len(serial_a as nat, 8);
    lemma_hex_len(serial_b as nat, 8);
    let (ta, tb) = (discovery_topic(a, id_a), discovery_topic(b, id_b));
    let n = prefix.len() as int;
    reveal_strlit("/");
    assert(ta.len() == n + 8 + 1 + id_a.len() + "/config"@.len());
    assert(tb.len() == n + 8 + 1 + id_b.len() + "/config"@.len());
    assert(a =~= ta.subrange(n, n + 8));
    assert(b =~= tb.subrange(n, n + 8));
    assert(id_a =~= ta.subrange(n + 9, n + 9 + id_a.len()));
    assert(id_b =~= tb.subrange(n + 9, n + 9 + id_b.len()));
    law_hex8_tells_numbers_apart(serial_a, serial_b);
}

/// The telemetry of two inverters goes to different topics.
pub proof fn law_telemetry_topics_are_distinct(serial_a: u32, serial_b: u32)
    requires
        telemetry_topic(hex(serial_a as nat, 8)) == telemetry_topic(hex(serial_b as nat, 8)),
    ensures
        serial_a == serial_b,
{
    let (a, b) = (hex(serial_a as nat, 8), hex(serial_b as nat, 8));
    let n = "nep/telemetry/"@.len() as int;
    let (ta, tb) = (telemetry_topic(a), telemetry_topic(b));
    assert(a =~= ta.subrange(n, ta.len() as int));
    assert(b =~= tb.subrange(n, tb.len() as int));
    law_hex8_tells_numbers_apart(serial_a, serial_b);
}

} // verus!
