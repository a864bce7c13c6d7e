use octane::adb::{after_probe, connection_start, AdbError, ConnectionStep};
use octane::async_state::{AsyncResult, LoadState};
use octane::fps_counter::FpsCounter;
use octane::logs::{LogLevel, LogStore};
use octane::model::{Effect, Model, Msg};
use octane::plural;
use octane::session::SessionConfig;
use octane::settings::CurrentPage;
use std::time::Duration;

#[test]
fn plural_picks_form() {
    assert_eq!(plural(1usize, "device", "devices"), "device");
    assert_eq!(plural(0usize, "device", "devices"), "devices");
    assert_eq!(plural(2usize, "device", "devices"), "devices");
}

#[test]
fn log_store_drops_oldest() {
    let mut logs = LogStore::new(2);
    logs.info("a".to_string());
    logs.error("b".to_string());
    logs.success("c".to_string());
    let texts: Vec<(String, LogLevel)> = logs.entries().iter().map(|e| (e.message.clone(), e.level)).collect();
    assert_eq!(texts, vec![("b".to_string(), LogLevel::Error), ("c".to_string(), LogLevel::Success)]);
    logs.trace(None);
    assert_eq!(logs.len(), 2);
    logs.clear();
    assert_eq!(logs.len(), 0);
}

#[test]
fn adb_error_titles() {
    assert_eq!(AdbError::ChannelClosed.title(), "System Error");
    assert_eq!(AdbError::Adb("x".to_string()).title(), "ADB Error");
    assert_eq!(AdbError::Join("p".to_string()).title(), "Crash Report");
    assert_eq!(AdbError::Join("p".to_string()).message(), "Task failed: p");
    assert_eq!(AdbError::ChannelClosed.message(), "Internal service disconnected");
}

#[test]
fn connection_steps() {
    assert_eq!(connection_start(true), ConnectionStep::UseExisting);
    assert_eq!(connection_start(false), ConnectionStep::CreateAndProbe);
    assert_eq!(after_probe(false, false), ConnectionStep::RestartAndProbe);
    assert_eq!(after_probe(true, false), ConnectionStep::Fail);
    assert_eq!(after_probe(false, true), ConnectionStep::UseNew);
}

#[test]
fn fps_counter_window_and_capacity() {
    let mut c = FpsCounter::new(3, Duration::from_nanos(100));
    c.tick_at(10);
    c.tick_at(20);
    c.tick_at(30);
    c.tick_at(40);
    assert_eq!(c.frames().iter().copied().collect::<Vec<u64>>(), vec![20, 30, 40]);
    c.tick_at(135);
    assert_eq!(c.frames().iter().copied().collect::<Vec<u64>>(), vec![40, 135]);
    c.tick_at(1000);
    assert_eq!(c.frames().iter().copied().collect::<Vec<u64>>(), vec![1000]);
    let t = c.tick();
    assert!(c.frames().len() >= 1);
    assert_eq!(*c.frames().back().unwrap(), t);
}

#[test]
fn model_loads_devices() {
    let mut m: Model<&str> = Model::new();
    let effects = m.update(Msg::RequestAdbDevices);
    let ticket = match effects.as_slice() {
        [Effect::FetchAdbDevices { ticket }] => *ticket,
        _ => panic!("expected a fetch"),
    };
    let effects = m.update(Msg::AdbDevicesLoaded(AsyncResult { ticket, result: Ok(vec!["a", "b"]) }));
    assert!(matches!(effects.as_slice(), [Effect::Render]));
    assert!(matches!(m.adb_devices.view(), LoadState::Loaded(v) if v.len() == 2));
    let last = m.logs.entries().back().unwrap();
    assert!(last.message.starts_with("ADB devices loaded in "));
    assert!(last.message.ends_with(" (2 devices)"));
    assert_eq!(last.level, LogLevel::Success);
}

#[test]
fn model_sessions_and_navigation() {
    let mut m: Model<u8> = Model::new();
    m.update(Msg::Navigate(CurrentPage::Settings));
    assert_eq!(m.current_page, CurrentPage::Settings);
    assert_eq!(m.logs.entries().back().unwrap().message, "Navigating to page \"settings\"");
    let config = SessionConfig { device_id: "dev1".to_string(), control: None, audio: None, video: None };
    let streams = config.streams();
    let effects = m.update(Msg::RequestStartSession(config));
    assert!(matches!(effects.as_slice(), [Effect::StartSession { .. }]));
    m.update(Msg::SessionStarted { device_id: "dev1".to_string(), streams });
    assert_eq!(m.logs.entries().back().unwrap().message, "Session \"dev1\" started: ");
    let effects = m.update(Msg::RequestStopSession("dev1".to_string()));
    assert!(matches!(effects.as_slice(), [Effect::StopSession { device_id }, Effect::Render] if device_id == "dev1"));
    let effects = m.update(Msg::RequestStopSession("other".to_string()));
    assert!(matches!(effects.as_slice(), [Effect::Render]));
    m.update(Msg::SessionStopped { device_id: "dev1".to_string(), error: Some("lost".to_string()) });
    assert_eq!(m.logs.entries().back().unwrap().message, "Session \"dev1\" stopped with error: lost");
    assert_eq!(m.sessions.len(), 0);
    m.update(Msg::SessionStopped { device_id: "dev1".to_string(), error: None });
    assert_eq!(m.logs.entries().back().unwrap().message, "Session \"dev1\" ended.");
    m.update(Msg::ClearLogs);
    assert_eq!(m.logs.len(), 0);
    assert_eq!(Msg::<u8>::ClearLogs.name(), "ClearLogs");
}

#[test]
fn model_drops_stale_device_list() {
    let mut m: Model<&str> = Model::new();
    let first = match m.update(Msg::RequestAdbDevices).as_slice() {
        [Effect::FetchAdbDevices { ticket }] => *ticket,
        _ => panic!("expected a fetch"),
    };
    m.update(Msg::RequestAdbDevices);
    let logs_before = m.logs.len();
    m.update(Msg::AdbDevicesLoaded(AsyncResult { ticket: first, result: Ok(vec!["old"]) }));
    assert!(m.adb_devices.is_loading());
    assert_eq!(m.logs.len(), logs_before);
}

#[test]
fn model_reports_failed_device_list() {
    let mut m: Model<&str> = Model::new();
    let ticket = match m.update(Msg::RequestAdbDevices).as_slice() {
        [Effect::FetchAdbDevices { ticket }] => *ticket,
        _ => panic!("expected a fetch"),
    };
    m.update(Msg::AdbDevicesLoaded(AsyncResult { ticket, result: Err(AdbError::ChannelClosed) }));
    let last = m.logs.entries().back().unwrap();
    assert_eq!(last.level, LogLevel::Error);
    assert!(last.message.starts_with("ADB devices loaded after "));
    assert!(last.message.ends_with(" (Error: Internal service disconnected)"));
}
