use voice_changer::audio::device::{
    choose_capture_device, choose_capture_rate, choose_virtual_device, input_device_list,
    is_virtual_device_name, name_or, no_virtual_device_message, CaptureChoice, CaptureError,
};
use voice_changer::audio::device_watcher::device_changes;
use voice_changer::audio::engine::{
    ConversionFailure, EngineControl, EngineError, EngineState, MonitorAction,
};
use voice_changer::audio::chunker::{CaptureStep, SpeechChunker};
use voice_changer::commands::audio::{device_dtos, engine_status};

fn s(x: &str) -> String {
    x.to_string()
}

#[test]
fn engine_starts_idle_and_runs_through_a_session() {
    let mut e = EngineControl::new();
    assert_eq!(e.current_state(), EngineState::Idle);
    assert!(!e.monitor_active());
    assert_eq!(e.virtual_mic_name(), None);

    e.begin_start();
    assert_eq!(e.current_state(), EngineState::Initializing);
    e.virtual_mic_started(s("BlackHole 2ch"));
    e.finish_start();
    assert_eq!(e.current_state(), EngineState::Ready);
    assert_eq!(e.virtual_mic_name(), Some("BlackHole 2ch"));

    assert!(e.set_processing(true));
    assert_eq!(e.current_state(), EngineState::Processing);
    assert!(e.processing_enabled());
    assert!(e.set_processing(false));
    assert_eq!(e.current_state(), EngineState::Ready);

    e.stop();
    assert_eq!(e.current_state(), EngineState::Idle);
    assert_eq!(e.virtual_mic_name(), None);
}

#[test]
fn processing_switch_before_start_drains_nothing() {
    let mut e = EngineControl::new();
    assert!(!e.set_processing(true));
    assert_eq!(e.current_state(), EngineState::Processing);
}

#[test]
fn monitor_needs_a_started_engine() {
    let mut e = EngineControl::new();
    assert_eq!(e.set_monitor(true), Err(EngineError::NotStarted));
    assert!(e.monitor_enabled());
    assert_eq!(EngineError::NotStarted.message(), "Engine not started");

    e.begin_start();
    assert_eq!(e.set_monitor(true), Ok(MonitorAction::Start));
    e.monitor_started();
    assert!(e.monitor_active());
    assert_eq!(e.set_monitor(true), Ok(MonitorAction::Keep));
    assert_eq!(e.set_monitor(false), Ok(MonitorAction::Stop));
    assert!(!e.monitor_active());
    assert!(!e.monitor_enabled());
}

#[test]
fn stop_drops_monitor() {
    let mut e = EngineControl::new();
    e.begin_start();
    assert_eq!(e.set_monitor(true), Ok(MonitorAction::Start));
    e.monitor_started();
    e.stop();
    assert!(!e.monitor_active());
    assert_eq!(e.set_monitor(true), Err(EngineError::NotStarted));
}

#[test]
fn conversion_failures_degrade_unless_rate_limited() {
    let mut e = EngineControl::new();
    e.begin_start();
    e.finish_start();
    e.set_processing(true);
    assert_eq!(
        e.on_conversion_failure("HTTP status client error (429 Too Many Requests)"),
        ConversionFailure::RateLimited
    );
    assert_eq!(e.current_state(), EngineState::Processing);
    assert!(e.processing_enabled());
    assert_eq!(e.on_conversion_failure("connection refused"), ConversionFailure::Degraded);
    assert_eq!(e.current_state(), EngineState::Degraded);
    // Fallback to the original voice: captured audio now bypasses the converter.
    assert!(!e.processing_enabled());
    let mut c: SpeechChunker<i32> = SpeechChunker::new(100);
    assert!(matches!(c.capture(&[1; 20], e.processing_enabled(), false), CaptureStep::Bypass));
}

#[test]
fn state_labels_match_debug_format() {
    assert_eq!(EngineState::Idle.label(), "Idle");
    assert_eq!(EngineState::Degraded.label(), "Degraded");
    let err = EngineState::Error(s("no \"mic\""));
    assert_eq!(err.label(), format!("{:?}", err));
    assert_eq!(err.snapshot(), err);
}

#[test]
fn engine_status_reports_state_mic_and_monitor() {
    let mut e = EngineControl::new();
    e.begin_start();
    e.virtual_mic_started(s("Loopback Audio"));
    e.finish_start();
    let st = engine_status(&e);
    assert_eq!(st.state, "Ready");
    assert_eq!(st.virtual_mic_name, Some(s("Loopback Audio")));
    assert!(!st.monitor_active);
}

#[test]
fn virtual_names_are_recognised_ignoring_case() {
    assert!(is_virtual_device_name("BlackHole 2ch"));
    assert!(is_virtual_device_name("LOOPBACK Audio"));
    assert!(is_virtual_device_name("Voice.ai Virtual Microphone"));
    assert!(is_virtual_device_name("Microsoft Teams Audio Device"));
    assert!(is_virtual_device_name("NoMachine Microphone"));
    assert!(!is_virtual_device_name("MacBook Pro Microphone"));
}

#[test]
fn input_list_hides_virtual_devices_and_marks_default() {
    let names = vec![s("MacBook Mic"), s("BlackHole 2ch"), s("USB Loopback"), s("Studio")];
    let default = s("Studio");
    let devices = input_device_list(&names, Some(&default));
    assert_eq!(devices.len(), 2);
    assert_eq!(devices[0].id, "MacBook Mic");
    assert_eq!(devices[0].name, "MacBook Mic");
    assert!(!devices[0].is_default);
    assert_eq!(devices[1].id, "Studio");
    assert!(devices[1].is_default);

    let dtos = device_dtos(devices);
    assert_eq!(dtos.len(), 2);
    assert_eq!(dtos[1].name, "Studio");
    assert!(dtos[1].is_default);
}

#[test]
fn capture_device_by_name() {
    let names = vec![None, Some(s("Mic A")), Some(s("Mic B")), Some(s("Mic B"))];
    assert_eq!(
        choose_capture_device(Some("Mic B"), &names, Some(Some(s("Mic A")))).unwrap(),
        CaptureChoice::Listed(2)
    );
    match choose_capture_device(Some("Mic C"), &names, None) {
        Err(e @ CaptureError::DeviceNotFound(_)) => assert_eq!(e.message(), "Device not found: Mic C"),
        other => panic!("unexpected {:?}", other),
    }
}

#[test]
fn capture_default_avoids_virtual_device() {
    let names = vec![Some(s("BlackHole 2ch")), None, Some(s("USB Mic"))];
    assert_eq!(
        choose_capture_device(None, &names, Some(Some(s("BlackHole 2ch")))).unwrap(),
        CaptureChoice::Listed(2)
    );
    assert_eq!(
        choose_capture_device(None, &names, Some(Some(s("USB Mic")))).unwrap(),
        CaptureChoice::Default
    );
    let only_virtual = vec![Some(s("Loopback"))];
    assert_eq!(
        choose_capture_device(None, &only_virtual, Some(Some(s("Loopback")))).unwrap(),
        CaptureChoice::Default
    );
    match choose_capture_device(None, &names, None) {
        Err(e @ CaptureError::NoDefaultDevice) => assert_eq!(e.message(), "No default input device"),
        other => panic!("unexpected {:?}", other),
    }
}

#[test]
fn capture_rate_prefers_48k() {
    let ranges = vec![(8_000, 16_000), (44_100, 96_000)];
    assert_eq!(choose_capture_rate(Some(&ranges), 44_100), 48_000);
    let low = vec![(8_000, 16_000)];
    assert_eq!(choose_capture_rate(Some(&low), 16_000), 16_000);
    assert_eq!(choose_capture_rate(None, 44_100), 44_100);
}

#[test]
fn virtual_mic_device_choice() {
    let names = vec![Some(s("Speakers")), Some(s("Loopback Audio")), Some(s("BlackHole 16ch"))];
    // Priority: BlackHole 2ch (absent), BlackHole 16ch (device 2).
    assert_eq!(choose_virtual_device(&names, None), Some(2));
    // Exact name first, then a name containing the preference.
    assert_eq!(choose_virtual_device(&names, Some("Loopback Audio")), Some(1));
    assert_eq!(choose_virtual_device(&names, Some("Speak")), Some(0));
    assert_eq!(choose_virtual_device(&names, Some("JACK")), None);
    let plain = vec![Some(s("Speakers")), None];
    assert_eq!(choose_virtual_device(&plain, None), None);
}

#[test]
fn virtual_mic_missing_message_lists_outputs() {
    let msg = no_virtual_device_message(&vec![s("Speakers"), s("HDMI")]);
    assert_eq!(
        msg,
        "No virtual audio device found.\nInstall one of:\n• BlackHole 2ch: brew install blackhole-2ch\n• Loopback: https://rogueamoeba.com/loopback/\n\nAvailable output devices: Speakers, HDMI"
    );
    assert_eq!(name_or(None, "unknown"), "unknown");
    assert_eq!(name_or(Some(s("Mic")), "unknown"), "Mic");
}

#[test]
fn device_watch_reports_added_and_removed() {
    let known = vec![s("a"), s("b")];
    let current = vec![s("b"), s("c"), s("c")];
    let change = device_changes(&known, &current).unwrap();
    assert_eq!(change.added, vec![s("c")]);
    assert_eq!(change.removed, vec![s("a")]);
    assert!(device_changes(&vec![s("x"), s("y")], &vec![s("y"), s("x"), s("x")]).is_none());
}

#[test]
fn switching_conversion_off_drops_converted_audio_of_the_session() {
    let mut e = EngineControl::new();
    e.begin_start();
    assert_eq!(e.conversion_session(), 0);
    e.set_processing(true);
    let session = e.conversion_session();
    assert!(e.accept_converted(session));
    assert!(!e.accept_converted(session + 1));

    // Off: nothing converted plays, and the session has moved on.
    assert!(e.set_processing(false));
    assert!(!e.accept_converted(session));
    assert!(!e.accept_converted(e.conversion_session()));
    assert_ne!(e.conversion_session(), session);

    // On again: only audio captured from now on plays.
    e.set_processing(true);
    assert!(!e.accept_converted(session));
    assert!(e.accept_converted(e.conversion_session()));

    // A failed conversion falls back to bypass and ends the session too.
    let before = e.conversion_session();
    assert_eq!(e.on_conversion_failure("connection reset"), ConversionFailure::Degraded);
    assert!(!e.accept_converted(before));
    assert_ne!(e.conversion_session(), before);

    // A rate limit keeps the session.
    e.set_processing(true);
    let current = e.conversion_session();
    assert_eq!(e.on_conversion_failure("HTTP 429"), ConversionFailure::RateLimited);
    assert!(e.accept_converted(current));
}
