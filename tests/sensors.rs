use acumen::hwmodule::hwmon::{DeviceDir, HWMon, SensorFile};
use acumen::hwmodule::{HWModule, Module, ModuleKind};
use acumen::reading::{chars_of, parse_reading, trim_text};
use acumen::sensor::{Sensor, SensorType};

fn file(path: &str, name: &str, contents: Option<&str>) -> SensorFile {
    SensorFile {
        path: path.to_string(),
        file_name: name.to_string(),
        contents: contents.map(|c| c.to_string()),
    }
}

#[test]
fn classification_matches_table() {
    let cases = [
        ("temp3_input", SensorType::Temperature),
        ("fan1_input", SensorType::Fan),
        ("in2_input", SensorType::Voltage),
        ("curr1_input", SensorType::Current),
        ("power0_input", SensorType::Power),
        ("energy1_input", SensorType::Energy),
        ("humidity1_input", SensorType::Humidity),
        ("chip_input", SensorType::Chip),
        ("widget9_input", SensorType::Unknown),
    ];
    for (name, kind) in cases {
        assert_eq!(HWMon::parse_sensor_type(name), kind, "{}", name);
        assert_eq!(HWMon::parse_sensor_type(name), kind, "{} twice", name);
    }
}

#[test]
fn classification_is_case_sensitive_and_exact() {
    assert_eq!(HWMon::parse_sensor_type("Temp1_input"), SensorType::Unknown);
    assert_eq!(HWMon::parse_sensor_type("tempx1_input"), SensorType::Unknown);
    assert_eq!(HWMon::parse_sensor_type(""), SensorType::Unknown);
    assert_eq!(HWMon::parse_sensor_type("temp"), SensorType::Temperature);
    assert_eq!(HWMon::parse_sensor_type("fan12"), SensorType::Fan);
    assert_eq!(HWMon::parse_sensor_type("in_0_input"), SensorType::Unknown);
}

#[test]
fn classification_of_names_without_digits() {
    assert_eq!(HWMon::parse_sensor_type("fan_x_input"), SensorType::Unknown);
    assert_eq!(HWMon::parse_sensor_type("chip_foo_input"), SensorType::Unknown);
    assert_eq!(HWMon::parse_sensor_type("chip_input"), SensorType::Chip);
    assert_eq!(HWMon::parse_sensor_type("chip"), SensorType::Chip);
    assert_eq!(HWMon::parse_sensor_type("chip_inputs"), SensorType::Unknown);
    assert_eq!(HWMon::parse_sensor_type("_input"), SensorType::Unknown);
}

#[test]
fn reading_tolerates_surrounding_whitespace() {
    assert_eq!(parse_reading(" 42000\n"), 42000);
    assert_eq!(parse_reading("\t12 \r\n"), 12);
    assert_eq!(parse_reading("\x0c7\x0c"), 7);
    assert_eq!(parse_reading("0"), 0);
}

#[test]
fn reading_signs() {
    assert_eq!(parse_reading("-5"), -5);
    assert_eq!(parse_reading("+7"), 7);
    assert_eq!(parse_reading("-2147483648"), i32::MIN);
    assert_eq!(parse_reading("2147483647"), i32::MAX);
}

#[test]
fn reading_defaults_to_zero() {
    assert_eq!(parse_reading("not-a-number"), 0);
    assert_eq!(parse_reading(""), 0);
    assert_eq!(parse_reading("   "), 0);
    assert_eq!(parse_reading("-"), 0);
    assert_eq!(parse_reading("+"), 0);
    assert_eq!(parse_reading("1 2"), 0);
    assert_eq!(parse_reading("12a"), 0);
    assert_eq!(parse_reading("2147483648"), 0);
    assert_eq!(parse_reading("-2147483649"), 0);
    assert_eq!(parse_reading("99999999999999999999"), 0);
    assert_eq!(parse_reading("\x0b5"), 0);
}

#[test]
fn read_sensor_failed_read_is_zero() {
    assert_eq!(HWMon::read_sensor(&None), 0);
    assert_eq!(HWMon::read_sensor(&Some("  31000 ".to_string())), 31000);
}

#[test]
fn trim_text_strips_ascii_whitespace() {
    assert_eq!(trim_text("  cpu\n"), "cpu");
    assert_eq!(trim_text("nvme"), "nvme");
    assert_eq!(trim_text(" \t\r\n"), "");
    assert_eq!(trim_text(" a b "), "a b");
}

#[test]
fn chars_of_keeps_every_character() {
    assert_eq!(chars_of("aé1"), vec!['a', 'é', '1']);
    assert!(chars_of("").is_empty());
}

#[test]
fn sensor_new_and_id() {
    let a = Sensor::new("temp1_input".to_string(), SensorType::Temperature, 5);
    let b = Sensor::new("temp1_input".to_string(), SensorType::Temperature, 5);
    assert_eq!(a.name, "temp1_input");
    assert_eq!(a.value(), 5);
    assert_eq!(a.sensor_type(), SensorType::Temperature);
    let ia = a.id();
    assert_eq!(ia.len(), 36);
    for (i, c) in ia.chars().enumerate() {
        if [8, 13, 18, 23].contains(&i) {
            assert_eq!(c, '-');
        } else {
            assert!(c.is_ascii_digit() || ('a'..='f').contains(&c), "{}", ia);
        }
    }
    assert_eq!(ia.chars().nth(14), Some('4'));
    assert!(matches!(ia.chars().nth(19), Some('8' | '9' | 'a' | 'b')));
    assert_eq!(a.id(), ia);
    assert_ne!(ia, b.id());
}

#[test]
fn sensor_set_value_keeps_identity() {
    let mut s = Sensor::new("fan1_input".to_string(), SensorType::Fan, 1);
    let id = s.id();
    s.set_value(900);
    assert_eq!(s.value, 900);
    assert_eq!(s.id(), id);
    assert_eq!(s.name(), "fan1_input");
}

#[test]
fn end_to_end_two_devices() {
    let devices = vec![
        DeviceDir {
            path: "/sys/class/hwmon/hwmon0".to_string(),
            name_contents: Some("cpu\n".to_string()),
            sensor_files: vec![file(
                "/sys/class/hwmon/hwmon0/temp1_input",
                "temp1_input",
                Some(" 42000\n"),
            )],
        },
        DeviceDir {
            path: "/sys/class/hwmon/hwmon1".to_string(),
            name_contents: Some("gpu\n".to_string()),
            sensor_files: vec![file(
                "/sys/class/hwmon/hwmon1/temp1_input",
                "temp1_input",
                Some("not-a-number"),
            )],
        },
    ];
    let found = HWMon::init(devices);
    assert_eq!(found.len(), 2);
    assert_eq!(found[0].name(), "cpu");
    assert_eq!(found[1].name(), "gpu");
    for m in &found {
        let sensors = m.sensors();
        assert_eq!(sensors.len(), 1);
        assert!(sensors[0].sensor_type == SensorType::Temperature);
    }
    let mut modules = HWModule::init(found.into_iter().map(ModuleKind::HWMon).collect());
    modules[0].refresh_sensors(&vec![Some(" 42000\n".to_string())]);
    modules[1].refresh_sensors(&vec![Some("not-a-number".to_string())]);
    assert_eq!(modules[0].sensors()[0].value, 42000);
    assert_eq!(modules[1].sensors()[0].value, 0);
    assert_eq!(modules[0].sources(), vec!["/sys/class/hwmon/hwmon0/temp1_input".to_string()]);
}

#[test]
fn discovery_unreadable_name_and_files() {
    let devices = vec![DeviceDir {
        path: "/d".to_string(),
        name_contents: None,
        sensor_files: vec![
            file("/d/in0_input", "in0_input", None),
            file("/d/fan1_input", "fan1_input", Some("1200")),
        ],
    }];
    let found = HWMon::init(devices);
    assert_eq!(found.len(), 1);
    assert_eq!(found[0].name(), "");
    let sensors = found[0].sensors();
    assert_eq!(sensors.len(), 2);
    assert_eq!(sensors[0].name, "in0_input");
    assert!(sensors[0].sensor_type == SensorType::Voltage);
    assert_eq!(sensors[0].value, 0);
    assert_eq!(sensors[1].value, 1200);
    assert_eq!(found[0].sources(), vec!["/d/in0_input".to_string(), "/d/fan1_input".to_string()]);
}

#[test]
fn discovery_of_nothing() {
    assert!(HWMon::init(vec![]).is_empty());
}

#[test]
fn refresh_twice_from_unchanged_files_is_idempotent() {
    let mut found = HWMon::init(vec![DeviceDir {
        path: "/d".to_string(),
        name_contents: Some("cpu".to_string()),
        sensor_files: vec![
            file("/d/temp1_input", "temp1_input", Some("100")),
            file("/d/temp2_input", "temp2_input", Some("200")),
        ],
    }]);
    let m = &mut found[0];
    let ids: Vec<String> = m.sensors().iter().map(|s| s.id()).collect();
    let readings = vec![Some("100".to_string()), Some("200".to_string())];
    m.refresh_sensors(&readings);
    let once: Vec<(String, i32)> = m.sensors().iter().map(|s| (s.id(), s.value)).collect();
    m.refresh_sensors(&readings);
    let twice: Vec<(String, i32)> = m.sensors().iter().map(|s| (s.id(), s.value)).collect();
    assert_eq!(once, twice);
    assert_eq!(once, vec![(ids[0].clone(), 100), (ids[1].clone(), 200)]);
}

#[test]
fn refresh_with_wrong_count_changes_nothing() {
    let mut found = HWMon::init(vec![DeviceDir {
        path: "/d".to_string(),
        name_contents: Some("cpu".to_string()),
        sensor_files: vec![file("/d/temp1_input", "temp1_input", Some("100"))],
    }]);
    found[0].refresh_sensors(&vec![Some("5".to_string()), Some("6".to_string())]);
    assert_eq!(found[0].sensors()[0].value, 100);
}

#[test]
fn set_name_renames() {
    let mut found = HWMon::init(vec![DeviceDir {
        path: "/d".to_string(),
        name_contents: Some("cpu".to_string()),
        sensor_files: vec![],
    }]);
    found[0].set_name("soc".to_string());
    assert_eq!(found[0].name(), "soc");
}
