use std::time::Duration;

use acumen::app::{module_column_percent, Action, App, AppOptions, Effect};
use acumen::event_stream::{Event, KeyCode, KeyEvent, KeyEventKind, MouseEvent, TerminalEvent};
use acumen::hwmodule::hwmon::{DeviceDir, HWMon, SensorFile};
use acumen::hwmodule::{HWModule, ModuleKind};
use acumen::view_state::{Area, ViewState};

fn key(c: char, kind: KeyEventKind) -> Event {
    Event::Crossterm(TerminalEvent::Key(KeyEvent { code: KeyCode::Char(c), kind }))
}

fn device(path: &str, name: &str, files: &[(&str, &str)]) -> DeviceDir {
    DeviceDir {
        path: path.to_string(),
        name_contents: Some(name.to_string()),
        sensor_files: files
            .iter()
            .map(|(f, c)| SensorFile {
                path: format!("{}/{}", path, f),
                file_name: f.to_string(),
                contents: Some(c.to_string()),
            })
            .collect(),
    }
}

fn modules(devices: Vec<DeviceDir>) -> Vec<HWModule> {
    HWModule::init(HWMon::init(devices).into_iter().map(ModuleKind::HWMon).collect())
}

fn values(app: &App) -> Vec<Vec<i32>> {
    app.modules()
        .iter()
        .map(|m| m.sensors().iter().map(|s| s.value).collect())
        .collect()
}

#[test]
fn new_app_defaults() {
    let mut app = App::new(None);
    assert_eq!(app.sensor_refresh_interval(), Duration::from_millis(1000));
    assert!(!app.is_exiting());
    assert!(!app.is_refreshing());
    assert!(app.modules().is_empty());
    assert_eq!(app.area(), Area { x: 0, y: 0, width: 0, height: 0 });
    assert_eq!(app.next_action(), None);
}

#[test]
fn options_set_interval_last_wins() {
    let app = App::new(Some(vec![
        AppOptions::SensorRefreshInterval(Duration::from_millis(250)),
        AppOptions::SensorRefreshInterval(Duration::from_millis(500)),
    ]));
    assert_eq!(app.sensor_refresh_interval(), Duration::from_millis(500));
    let app = App::new(Some(vec![]));
    assert_eq!(app.sensor_refresh_interval(), Duration::from_millis(1000));
}

#[test]
fn event_mapping() {
    let app = App::new(None);
    assert_eq!(app.handle_event(&Event::SensorRefresh), Some(Action::RefreshSensors));
    assert_eq!(app.handle_event(&key('q', KeyEventKind::Press)), Some(Action::Quit));
    assert_eq!(app.handle_event(&key('q', KeyEventKind::Release)), None);
    assert_eq!(app.handle_event(&key('q', KeyEventKind::Repeat)), None);
    assert_eq!(app.handle_event(&key('x', KeyEventKind::Press)), None);
    assert_eq!(
        app.handle_event(&Event::Crossterm(TerminalEvent::Key(KeyEvent {
            code: KeyCode::Other,
            kind: KeyEventKind::Press
        }))),
        None
    );
    assert_eq!(
        app.handle_event(&Event::Crossterm(TerminalEvent::Resize(80, 24))),
        Some(Action::Render)
    );
    assert_eq!(
        app.handle_event(&Event::Crossterm(TerminalEvent::FocusGained)),
        Some(Action::Render)
    );
    assert_eq!(app.handle_event(&Event::Crossterm(TerminalEvent::FocusLost)), None);
    assert_eq!(
        app.handle_event(&Event::Crossterm(TerminalEvent::Mouse(MouseEvent { column: 1, row: 2 }))),
        None
    );
    assert_eq!(
        app.handle_event(&Event::Crossterm(TerminalEvent::Paste("q".to_string()))),
        None
    );
    for e in [
        Event::Init,
        Event::Quit,
        Event::Error,
        Event::Closed,
        Event::Tick,
        Event::KeyRefresh,
        Event::Render,
    ] {
        assert_eq!(app.handle_event(&e), None);
    }
}

#[test]
fn init_queues_first_redraw() {
    let mut app = App::new(None);
    let area = Area { x: 0, y: 0, width: 120, height: 40 };
    app.init(area, modules(vec![device("/h0", "cpu", &[("temp1_input", "1")])]));
    assert_eq!(app.area(), area);
    assert_eq!(app.modules().len(), 1);
    assert_eq!(app.next_action(), Some(Action::Render));
    assert_eq!(app.handle_action(Action::Render), Effect::Draw);
    assert_eq!(app.next_action(), None);
}

#[test]
fn quit_waits_for_queued_refresh() {
    let mut app = App::new(None);
    app.init_modules(modules(vec![device("/h0", "cpu", &[("temp1_input", "1")])]));
    app.push_event(&Event::SensorRefresh);
    app.push_event(&key('q', KeyEventKind::Press));

    assert_eq!(app.next_action(), Some(Action::RefreshSensors));
    assert_eq!(app.handle_action(Action::RefreshSensors), Effect::Refresh);
    assert!(!app.is_exiting());
    // While the round is in flight nothing else is handed out.
    assert_eq!(app.next_action(), None);
    let sources = app.refresh_sources();
    assert_eq!(sources, vec![vec!["/h0/temp1_input".to_string()]]);
    app.refresh_modules(vec![Some(vec![Some("77".to_string())])]);
    assert_eq!(values(&app), vec![vec![77]]);
    assert!(!app.is_exiting());

    assert_eq!(app.next_action(), Some(Action::Quit));
    assert_eq!(app.handle_action(Action::Quit), Effect::Nothing);
    assert!(app.is_exiting());
    // The redraw queued by the refresh still runs: nothing queued is dropped.
    assert_eq!(app.next_action(), Some(Action::Render));
    assert_eq!(app.next_action(), None);
}

#[test]
fn no_second_round_while_one_is_in_flight() {
    let mut app = App::new(None);
    app.init_modules(modules(vec![device("/h0", "cpu", &[("temp1_input", "1")])]));
    app.push_action(Action::RefreshSensors);
    assert_eq!(app.next_action(), Some(Action::RefreshSensors));
    assert_eq!(app.handle_action(Action::RefreshSensors), Effect::Refresh);
    app.push_event(&Event::SensorRefresh);
    assert!(app.is_refreshing());
    assert_eq!(app.next_action(), None);
    assert_eq!(app.next_action(), None);
    app.refresh_modules(vec![Some(vec![Some("2".to_string())])]);
    assert!(!app.is_refreshing());
    assert_eq!(app.next_action(), Some(Action::RefreshSensors));
    assert_eq!(app.next_action(), Some(Action::Render));
    assert_eq!(app.next_action(), None);
}

#[test]
fn failed_instance_is_isolated() {
    let mut app = App::new(None);
    app.init_modules(modules(vec![
        device("/h0", "cpu", &[("temp1_input", "1"), ("temp2_input", "2")]),
        device("/h1", "gpu", &[("temp1_input", "3")]),
        device("/h2", "nvme", &[("temp1_input", "4")]),
    ]));
    app.push_action(Action::RefreshSensors);
    assert_eq!(app.next_action(), Some(Action::RefreshSensors));
    assert_eq!(app.handle_action(Action::RefreshSensors), Effect::Refresh);
    app.refresh_modules(vec![
        Some(vec![Some("10".to_string()), None]),
        None,
        Some(vec![Some("40".to_string())]),
    ]);
    assert_eq!(values(&app), vec![vec![10, 0], vec![3], vec![40]]);
    let names: Vec<&str> = app.modules().iter().map(|m| m.name()).collect();
    assert_eq!(names, vec!["cpu", "gpu", "nvme"]);
}

#[test]
fn round_with_missing_results_keeps_the_rest() {
    let mut app = App::new(None);
    app.init_modules(modules(vec![
        device("/h0", "cpu", &[("temp1_input", "1")]),
        device("/h1", "gpu", &[("temp1_input", "3")]),
    ]));
    app.push_action(Action::RefreshSensors);
    app.next_action();
    app.handle_action(Action::RefreshSensors);
    app.refresh_modules(vec![Some(vec![Some("9".to_string())])]);
    assert_eq!(values(&app), vec![vec![9], vec![3]]);
}

#[test]
fn refresh_of_empty_module_set() {
    let mut app = App::new(None);
    app.push_action(Action::RefreshSensors);
    assert_eq!(app.next_action(), Some(Action::RefreshSensors));
    assert_eq!(app.handle_action(Action::RefreshSensors), Effect::Refresh);
    assert!(app.refresh_sources().is_empty());
    app.refresh_modules(vec![]);
    assert!(app.modules().is_empty());
    assert_eq!(app.next_action(), Some(Action::Render));
}

#[test]
fn exit_stops() {
    let mut app = App::new(None);
    app.exit();
    assert!(app.is_exiting());
}

#[test]
fn column_percent() {
    assert_eq!(module_column_percent(0), 100);
    assert_eq!(module_column_percent(1), 100);
    assert_eq!(module_column_percent(3), 33);
    assert_eq!(module_column_percent(101), 0);
}

#[test]
fn layout_sets_module_areas() {
    let mut app = App::new(None);
    app.init_modules(modules(vec![
        device("/h0", "cpu", &[]),
        device("/h1", "gpu", &[]),
    ]));
    let a = Area { x: 1, y: 1, width: 10, height: 5 };
    app.layout_modules(&vec![a]);
    assert_eq!(app.modules()[0].area(), a);
    assert_eq!(app.modules()[1].area(), Area { x: 0, y: 0, width: 0, height: 0 });
    let mut ms = modules(vec![device("/h9", "x", &[])]);
    ms[0].view_state().set_area(a);
    assert_eq!(ms[0].area(), a);
}

#[test]
fn view_state_area() {
    let a = Area { x: 2, y: 3, width: 4, height: 5 };
    let mut v = ViewState::new();
    assert_eq!(v.area(), Area { x: 0, y: 0, width: 0, height: 0 });
    v.set_area(a);
    assert_eq!(v.area(), a);
    let w = ViewState::new().with_area(a);
    assert_eq!(w.area(), a);
}
