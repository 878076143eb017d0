//! Home Assistant discovery: what is announced of an inverter, and how that
//! relates to what is reported of it.

use vstd::prelude::*;

use crate::discovery::{
    discovery_config, error_states, operating_modes, sensor_views, sensors, sensors_of, texts,
    DiscoveryConfig, Sensor,
};
use crate::model::InverterModel;
use crate::mqtt::{
    announcement_of, publication_views, publish_ha_discovery, telemetry_report, Content,
    ContentView, Publication, WorkerView,
};
use crate::telemetry::NepTelemetry;
use crate::text::{hex, hex8};

verus! {

/// Whether a sensor with this identifier, name and unit is among those listed.
pub open spec fn announces(
    list: Seq<Sensor>,
    id: Seq<char>,
    name: Seq<char>,
    unit: Seq<char>,
) -> bool {
    exists|i: int|
        0 <= i < list.len() && (#[trigger] list[i]).id@ == id && list[i].name@ == name
            && list[i].unit@ == unit
}

/// Whether a sensor has this unit, the device class that goes with it, and reads
/// the key that is its identifier with this ending.
pub open spec fn measures(
    s: Sensor,
    unit: Seq<char>,
    device_class: Seq<char>,
    ending: Seq<char>,
) -> bool {
    s.unit@ == unit && s.device_class@ == device_class && s.json_key@ == s.id@ + ending
}

/// A sensor reads the key of its own quantity: its identifier, followed by its
/// unit. The unit and the device class go together.
pub proof fn law_sensors_read_their_own_key(kind: InverterModel, list: Vec<Sensor>, i: int)
    requires
        call_ensures(sensors, (kind,), list),
        0 <= i < list@.len(),
    ensures
        ({
            let s = list@[i];
            ||| measures(s, "W"@, "power"@, "_w"@)
            ||| measures(s, "V"@, "voltage"@, "_v"@)
            ||| measures(s, "A"@, "current"@, "_a"@)
            ||| measures(s, "Hz"@, "frequency"@, "_hz"@)
            ||| measures(s, "°C"@, "temperature"@, "_c"@)
            ||| measures(s, "Wh"@, "energy"@, "_wh"@)
            ||| measures(s, "VAR"@, "reactive_power"@, "_var"@)
            ||| measures(s, "%"@, ""@, "_percent"@)
            ||| measures(s, ""@, "enum"@, ""@)
        }),
{
    lemma_key_endings();
    let s = list@[i];
    assert(sensor_views(list@) == sensors_of(kind));
    assert(sensor_views(list@).len() == list@.len());
    assert(s.view() == sensors_of(kind)[i]) by {
        assert(sensor_views(list@)[i] == list@[i].view());
    }
    let n = if kind == InverterModel::Bdm1200Lv {
        8int
    } else {
        14
    };
    assert(sensors_of(kind).len() == n);
    if i == 0 {
        assert(measures(s, "W"@, "power"@, "_w"@));
    } else if i == 1 {
        assert(measures(s, "V"@, "voltage"@, "_v"@));
    } else if i == 2 {
        assert(measures(s, "Hz"@, "frequency"@, "_hz"@));
    } else if kind == InverterModel::Bdm1200Lv {
        if i == 3 {
            assert(measures(s, "°C"@, "temperature"@, "_c"@));
        } else if i == 4 {
            assert(measures(s, ""@, "enum"@, ""@));
        } else {
            assert(measures(s, "W"@, "power"@, "_w"@));
        }
    } else if i == 3 {
        assert(measures(s, "V"@, "voltage"@, "_v"@));
    } else if i <= 6 {
        assert(measures(s, "A"@, "current"@, "_a"@));
    } else if i == 7 {
        assert(measures(s, "W"@, "power"@, "_w"@));
    } else if i == 8 {
        assert(measures(s, "%"@, ""@, "_percent"@));
    } else if i == 9 {
        assert(measures(s, "°C"@, "temperature"@, "_c"@));
    } else if i == 10 {
        assert(measures(s, "Wh"@, "energy"@, "_wh"@));
    } else if i == 11 {
        assert(measures(s, "VAR"@, "reactive_power"@, "_var"@));
    } else {
        assert(measures(s, ""@, "enum"@, ""@));
    }
}

/// The keys are the identifiers with their endings.
proof fn lemma_key_endings()
    ensures
        "ac_power_w"@ == "ac_power"@ + "_w"@,
        "ac_voltage_v"@ == "ac_voltage"@ + "_v"@,
        "ac_freq_hz"@ == "ac_freq"@ + "_hz"@,
        "dc_voltage_v"@ == "dc_voltage"@ + "_v"@,
        "dc_current_a"@ == "dc_current"@ + "_a"@,
        "dc_current_ch1_a"@ == "dc_current_ch1"@ + "_a"@,
        "dc_current_ch2_a"@ == "dc_current_ch2"@ + "_a"@,
        "dc_power_w"@ == "dc_power"@ + "_w"@,
        "efficiency_percent"@ == "efficiency"@ + "_percent"@,
        "temperature_c"@ == "temperature"@ + "_c"@,
        "daily_energy_wh"@ == "daily_energy"@ + "_wh"@,
        "reactive_power_var"@ == "reactive_power"@ + "_var"@,
        "pv1_power_w"@ == "pv1_power"@ + "_w"@,
        "pv2_power_w"@ == "pv2_power"@ + "_w"@,
        "pv3_power_w"@ == "pv3_power"@ + "_w"@,
        "error_state"@ == "error_state"@ + ""@,
        "operating_mode"@ == "operating_mode"@ + ""@,
{
    reveal_strlit("");
    reveal_strlit("_w");
    reveal_strlit("_v");
    reveal_strlit("_a");
    reveal_strlit("_hz");
    reveal_strlit("_c");
    reveal_strlit("_wh");
    reveal_strlit("_var");
    reveal_strlit("_percent");
    reveal_strlit("ac_power");
    reveal_strlit("ac_power_w");
    assert("ac_power_w"@ =~= "ac_power"@ + "_w"@);
    reveal_strlit("ac_voltage");
    reveal_strlit("ac_voltage_v");
    assert("ac_voltage_v"@ =~= "ac_voltage"@ + "_v"@);
    reveal_strlit("ac_freq");
    reveal_strlit("ac_freq_hz");
    assert("ac_freq_hz"@ =~= "ac_freq"@ + "_hz"@);
    reveal_strlit("dc_voltage");
    reveal_strlit("dc_voltage_v");
    assert("dc_voltage_v"@ =~= "dc_voltage"@ + "_v"@);
    reveal_strlit("dc_current");
    reveal_strlit("dc_current_a");
    assert("dc_current_a"@ =~= "dc_current"@ + "_a"@);
    reveal_strlit("dc_current_ch1");
    reveal_strlit("dc_current_ch1_a");
    assert("dc_current_ch1_a"@ =~= "dc_current_ch1"@ + "_a"@);
    reveal_strlit("dc_current_ch2");
    reveal_strlit("dc_current_ch2_a");
    assert("dc_current_ch2_a"@ =~= "dc_current_ch2"@ + "_a"@);
    reveal_strlit("dc_power");
    reveal_strlit("dc_power_w");
    assert("dc_power_w"@ =~= "dc_power"@ + "_w"@);
    reveal_strlit("efficiency");
    reveal_strlit("efficiency_percent");
    assert("efficiency_percent"@ =~= "efficiency"@ + "_percent"@);
    reveal_strlit("temperature");
    reveal_strlit("temperature_c");
    assert("temperature_c"@ =~= "temperature"@ + "_c"@);
    reveal_strlit("daily_energy");
    reveal_strlit("daily_energy_wh");
    assert("daily_energy_wh"@ =~= "daily_energy"@ + "_wh"@);
    reveal_strlit("reactive_power");
    reveal_strlit("reactive_power_var");
    assert("reactive_power_var"@ =~= "reactive_power"@ + "_var"@);
    reveal_strlit("pv1_power");
    reveal_strlit("pv1_power_w");
    assert("pv1_power_w"@ =~= "pv1_power"@ + "_w"@);
    reveal_strlit("pv2_power");
    reveal_strlit("pv2_power_w");
    assert("pv2_power_w"@ =~= "pv2_power"@ + "_w"@);
    reveal_strlit("pv3_power");
    reveal_strlit("pv3_power_w");
    assert("pv3_power_w"@ =~= "pv3_power"@ + "_w"@);
    assert("error_state"@ =~= "error_state"@ + ""@);
    assert("operating_mode"@ =~= "operating_mode"@ + ""@);
}

/// Which sensors there are, under which names and units: on the BDM-400 and the
/// BDM-800 all but the PV inputs; on the BDM-1200-LV the PV inputs, and of the
/// others those that its payload carries. The voltage is named for what it is.
pub proof fn law_sensors_of_each_model(kind: InverterModel, list: Vec<Sensor>)
    requires
        call_ensures(sensors, (kind,), list),
    ensures
        ({
            let s = list@;
            &&& announces(s, "ac_power"@, "AC Output Power"@, "W"@)
            &&& announces(s, "ac_freq"@, "AC Grid Frequency"@, "Hz"@)
            &&& announces(s, "temperature"@, "DSP Temperature"@, "°C"@)
            &&& announces(s, "error_state"@, "Error State"@, ""@)
            &&& kind == InverterModel::Bdm400 ==> announces(
                s,
                "ac_voltage"@,
                "AC Grid Voltage"@,
                "V"@,
            )
            &&& kind == InverterModel::Bdm800 ==> announces(
                s,
                "ac_voltage"@,
                "Internal Bus Voltage"@,
                "V"@,
            )
            &&& kind == InverterModel::Bdm1200Lv ==> {
                &&& s.len() == 8
                &&& announces(s, "ac_voltage"@, "Internal Voltage"@, "V"@)
                &&& announces(s, "pv1_power"@, "PV Input 1 Power"@, "W"@)
                &&& announces(s, "pv2_power"@, "PV Input 2 Power"@, "W"@)
                &&& announces(s, "pv3_power"@, "PV Input 3 Power"@, "W"@)
            }
            &&& kind != InverterModel::Bdm1200Lv ==> {
                &&& s.len() == 14
                &&& announces(s, "dc_voltage"@, "DC PV Voltage"@, "V"@)
                &&& announces(s, "dc_current"@, "DC PV Current"@, "A"@)
                &&& announces(s, "dc_current_ch1"@, "DC PV Current CH1"@, "A"@)
                &&& announces(s, "dc_current_ch2"@, "DC PV Current CH2"@, "A"@)
                &&& announces(s, "dc_power"@, "DC PV Power"@, "W"@)
                &&& announces(s, "efficiency"@, "Inverter Efficiency"@, "%"@)
                &&& announces(s, "daily_energy"@, "Daily Energy"@, "Wh"@)
                &&& announces(s, "reactive_power"@, "Reactive Power"@, "VAR"@)
                &&& announces(s, "operating_mode"@, "Operating Mode"@, ""@)
            }
        }),
{
    let s = list@;
    let views = sensors_of(kind);
    assert(sensor_views(s) == views);
    assert(views.len() == sensor_views(s).len() == s.len());
    assert forall|i: int| 0 <= i < s.len() implies (#[trigger] s[i]).view() == views[i] by {
        assert(sensor_views(s)[i] == s[i].view());
    }
    assert(s[0].id@ == "ac_power"@ && s[1].id@ == "ac_voltage"@ && s[2].id@ == "ac_freq"@);
    if kind == InverterModel::Bdm1200Lv {
        assert(s[3].id@ == "temperature"@ && s[4].id@ == "error_state"@);
        assert(s[5].id@ == "pv1_power"@ && s[6].id@ == "pv2_power"@ && s[7].id@ == "pv3_power"@);
    } else {
        assert(s[3].id@ == "dc_voltage"@ && s[4].id@ == "dc_current"@);
        assert(s[5].id@ == "dc_current_ch1"@ && s[6].id@ == "dc_current_ch2"@);
        assert(s[7].id@ == "dc_power"@ && s[8].id@ == "efficiency"@);
        assert(s[9].id@ == "temperature"@ && s[10].id@ == "daily_energy"@);
        assert(s[11].id@ == "reactive_power"@ && s[12].id@ == "error_state"@);
        assert(s[13].id@ == "operating_mode"@);
    }
}

/// Whether a configuration announces a sensor of the inverter `serial`, with
/// `model` as the name of its model.
pub open spec fn configures(
    d: DiscoveryConfig,
    serial: Seq<char>,
    model: Seq<char>,
    s: Sensor,
) -> bool {
    &&& d.name@ == "NEP "@ + serial + " "@ + s.name@
    &&& d.state_topic@ == "nep/telemetry/"@ + serial
    &&& d.value_template@ == "{{ value_json."@ + s.json_key@ + " }}"@
    &&& d.unique_id@ == "nep_"@ + serial + "_"@ + s.id@
    &&& d.device.identifier@ == "nep_bdm_"@ + serial
    &&& d.device.name@ == "NEP "@ + model + " ("@ + serial + ")"@
    &&& d.device.model@ == model
    &&& d.device.manufacturer@ == "Northern Electric Power (NEP)"@
    &&& match d.device_class {
        Some(text) => text@ == s.device_class@ && text@.len() > 0,
        None => s.device_class@.len() == 0,
    }
    &&& match d.unit_of_measurement {
        Some(text) => text@ == s.unit@ && text@.len() > 0,
        None => s.unit@.len() == 0,
    }
    &&& s.id@ == "daily_energy"@ ==> (d.state_class matches Some(c) && c@ == "total_increasing"@)
    &&& s.id@ == "efficiency"@ || s.id@ == "error_state"@ || s.id@ == "operating_mode"@
        ==> d.state_class is None
    &&& s.id@ != "daily_energy"@ && s.id@ != "efficiency"@ && s.id@ != "error_state"@ && s.id@
        != "operating_mode"@ ==> (d.state_class matches Some(c) && c@ == "measurement"@)
}

/// The configuration of a sensor names the inverter by its serial number
/// wherever it stands for the inverter, and the model only as its model.
pub proof fn law_config_names_the_inverter(
    serial: &str,
    model: &str,
    s: Sensor,
    d: DiscoveryConfig,
)
    requires
        call_ensures(discovery_config, (serial, model, &s), d),
    ensures
        configures(d, serial@, model@, s),
{
    lemma_configures(d, serial@, model@, s);
}

proof fn lemma_configures(d: DiscoveryConfig, serial: Seq<char>, model: Seq<char>, s: Sensor)
    requires
        d.view() == crate::discovery::discovery_of(serial, model, s.view()),
    ensures
        configures(d, serial, model, s),
{
    let v = d.view();
    assert(v.device_class == crate::discovery::unless_empty(s.device_class@));
    assert(v.unit_of_measurement == crate::discovery::unless_empty(s.unit@));
    assert(v.state_class == crate::discovery::state_class_of(s.id@));
    reveal_strlit("daily_energy");
    reveal_strlit("efficiency");
    reveal_strlit("error_state");
    reveal_strlit("operating_mode");
    assert("daily_energy"@.len() == 12);
    assert("efficiency"@.len() == 10);
    assert("error_state"@.len() == 11);
    assert("operating_mode"@.len() == 14);
}

/// A sensor of states is announced with the states that can be shown and no
/// others; a sensor of numbers with none.
pub proof fn law_options_are_the_states(serial: &str, model: &str, s: Sensor, d: DiscoveryConfig)
    requires
        call_ensures(discovery_config, (serial, model, &s), d),
    ensures
        ({
            let o = texts(d.options@);
            &&& s.id@ == "error_state"@ ==> o.len() == 4 && o.contains("OK"@) && o.contains(
                "Grid Loss / Islanding"@,
            ) && o.contains("Anti-Islanding Reconnection Sync Timer"@) && o.contains(
                "Unknown Error"@,
            )
            &&& s.id@ == "operating_mode"@ ==> o.len() == 5 && o.contains("Deep Sleep"@)
                && o.contains("Awake Standby"@) && o.contains("Active Standby"@) && o.contains(
                "Generating"@,
            ) && o.contains("Unknown State"@)
            &&& s.id@ != "error_state"@ && s.id@ != "operating_mode"@ ==> o.len() == 0
        }),
{
    reveal_strlit("error_state");
    reveal_strlit("operating_mode");
    assert("error_state"@.len() != "operating_mode"@.len());
    assert(d.view().options == texts(d.options@));
    let e = error_states();
    assert(e[0] == "OK"@ && e[1] == "Grid Loss / Islanding"@);
    assert(e[2] == "Anti-Islanding Reconnection Sync Timer"@ && e[3] == "Unknown Error"@);
    let m = operating_modes();
    assert(m[0] == "Deep Sleep"@ && m[1] == "Awake Standby"@ && m[2] == "Active Standby"@);
    assert(m[3] == "Generating"@ && m[4] == "Unknown State"@);
}

/// An inverter is announced by one retained message for each sensor of its
/// model, to be delivered at least once: to the topic of the inverter and the
/// sensor, with the configuration of that sensor.
pub proof fn law_announcement_configures_each_sensor(
    serial: &str,
    model: &str,
    kind: InverterModel,
    list: Vec<Publication>,
    s: Vec<Sensor>,
    i: int,
)
    requires
        call_ensures(publish_ha_discovery, (serial, model, kind), list),
        call_ensures(sensors, (kind,), s),
        0 <= i < list@.len(),
    ensures
        list@.len() == s@.len(),
        list@[i].topic@ == "homeassistant/sensor/nep_"@ + serial@ + "/"@ + s@[i].id@ + "/config"@,
        list@[i].qos == 1,
        list@[i].retain,
        list@[i].content matches Content::Discovery(d) && configures(d, serial@, model@, s@[i]),
{
    let expected = announcement_of(serial@, model@, kind);
    assert(publication_views(list@) == expected);
    assert(publication_views(list@).len() == list@.len());
    assert(sensor_views(s@) == sensors_of(kind));
    assert(sensor_views(s@).len() == s@.len());
    assert(publication_views(list@)[i] == list@[i].view());
    assert(sensor_views(s@)[i] == s@[i].view());
    match list@[i].content {
        Content::Discovery(d) => {
            lemma_configures(d, serial@, model@, s@[i]);
        },
        _ => {},
    }
}

/// What an inverter's sensors are announced to read is what is reported of it:
/// every announcement names the topic of the report as the one to listen on.
pub proof fn law_announcements_point_to_the_report(
    t: NepTelemetry,
    serial: String,
    model: &str,
    list: Vec<Publication>,
    report: Publication,
    text: &str,
    i: int,
)
    requires
        call_ensures(hex8, (t.serial_number,), serial),
        text@ == serial@,
        call_ensures(publish_ha_discovery, (text, model, t.model), list),
        call_ensures(telemetry_report, (&t,), report),
        0 <= i < list@.len(),
    ensures
        list@[i].content matches Content::Discovery(d) && {
            &&& d.state_topic@ == report.topic@
            &&& d.device.model@ == model@
            &&& exists|id: Seq<char>| d.unique_id@ == #[trigger] ("nep_"@ + serial@ + "_"@ + id)
        },
{
    let expected = announcement_of(text@, model@, t.model);
    assert(publication_views(list@) == expected);
    assert(publication_views(list@)[i] == list@[i].view());
    assert(report.view() == crate::mqtt::report_of(t));
    match list@[i].content {
        Content::Discovery(d) => {
            let id = sensors_of(t.model)[i].id;
            assert(d.unique_id@ == "nep_"@ + serial@ + "_"@ + id);
        },
        _ => {},
    }
}

/// In the round of a telemetry the worker publishes its report last, and before
/// it, where the inverter is new, one announcement for each sensor of its model:
/// each names the topic of that report as the one to listen on, the inverter's
/// serial number in its own topic and identifiers, and the configured model.
pub proof fn law_round_announces_what_it_reports(w: WorkerView, t: NepTelemetry, i: int)
    requires
        0 <= i < w.on_telemetry(t).outbox.len(),
    ensures
        ({
            let outbox = w.on_telemetry(t).outbox;
            let serial = hex(t.serial_number as nat, 8);
            let n = outbox.len() - 1;
            &&& w.discovered.contains(t.serial_number) ==> n == 0
            &&& !w.discovered.contains(t.serial_number) ==> n == sensors_of(t.model).len()
            &&& outbox[n].topic == "nep/telemetry/"@ + serial
            &&& outbox[n].content is Telemetry && outbox[n].qos == 1 && !outbox[n].retain
            &&& i < n ==> {
                let id = sensors_of(t.model)[i].id;
                &&& outbox[i].topic == "homeassistant/sensor/nep_"@ + serial + "/"@ + id
                    + "/config"@
                &&& outbox[i].qos == 1 && outbox[i].retain
                &&& outbox[i].content matches ContentView::Discovery(d) && {
                    &&& d.state_topic == outbox[n].topic
                    &&& d.unique_id == "nep_"@ + serial + "_"@ + id
                    &&& d.device_identifier == "nep_bdm_"@ + serial
                    &&& d.device_name == "NEP "@ + w.model + " ("@ + serial + ")"@
                    &&& d.device_model == w.model
                }
            }
        }),
{
    let known = w.discovered.contains(t.serial_number);
    crate::mqtt::law_every_round_reports(w.model, known, t);
    if !known {
        let outbox = w.on_telemetry(t).outbox;
        let announcement = announcement_of(hex(t.serial_number as nat, 8), w.model, t.model);
        assert(outbox =~= announcement.push(crate::mqtt::report_of(t)));
    }
}

} // verus!
