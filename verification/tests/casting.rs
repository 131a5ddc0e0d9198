use madamiru::dlna::{
    dlna_step, DlnaAction, DlnaDevice, DlnaError, DlnaMessage, DlnaState, DISCOVERY_TIMEOUT_SECS,
    RENDERER_TIMEOUT_SECS,
};
use madamiru::path::StrictPath;

fn tv() -> DlnaDevice {
    DlnaDevice::discovered("TV".to_string(), "http://tv/desc.xml".to_string())
}

#[test]
fn scanning_starts_discovery() {
    let (state, action) = dlna_step(DlnaState::default(), DlnaMessage::ScanDevices);
    assert!(matches!(state, DlnaState::Scanning));
    assert!(matches!(action, DlnaAction::Discover { timeout_secs: 5 }));
    assert_eq!(5, DISCOVERY_TIMEOUT_SECS);
}

#[test]
fn found_devices_are_offered() {
    let (state, action) = dlna_step(DlnaState::Scanning, DlnaMessage::DevicesFound(vec![tv()]));
    assert!(state.same_as(&DlnaState::DevicesReady(vec![tv()])));
    assert!(matches!(action, DlnaAction::ChooseDevice));
}

#[test]
fn finding_no_device_is_an_error() {
    let (state, action) = dlna_step(DlnaState::Scanning, DlnaMessage::DevicesFound(vec![]));
    assert!(state.same_as(&DlnaState::Error(DlnaError::NoDevicesFound)));
    assert!(matches!(action, DlnaAction::Nothing));
}

#[test]
fn failed_scan_is_a_discovery_error() {
    let (state, _) = dlna_step(DlnaState::Scanning, DlnaMessage::ScanError("timeout".to_string()));
    assert!(state.same_as(&DlnaState::Error(DlnaError::Discovery("timeout".to_string()))));
    assert!(!state.same_as(&DlnaState::Error(DlnaError::Discovery("other".to_string()))));
}

#[test]
fn casting_connects_and_serves_the_file() {
    let path = StrictPath::new("/media/movie.mp4".to_string());
    let (state, action) = dlna_step(
        DlnaState::DevicesReady(vec![tv()]),
        DlnaMessage::CastMedia { path: path.clone(), device: tv() },
    );
    assert!(state.same_as(&DlnaState::Connecting(tv())));
    match action {
        DlnaAction::Cast { path: p, location, timeout_secs } => {
            assert_eq!(path, p);
            assert_eq!("http://tv/desc.xml", location);
            assert_eq!(RENDERER_TIMEOUT_SECS, timeout_secs);
        }
        _ => panic!("expected a cast"),
    }
}

#[test]
fn controls_keep_the_state_and_stop_cast_idles() {
    let (state, action) = dlna_step(DlnaState::Connecting(tv()), DlnaMessage::Seek(30));
    assert!(state.same_as(&DlnaState::Connecting(tv())));
    assert!(matches!(action, DlnaAction::Nothing));
    let (state, _) = dlna_step(state, DlnaMessage::SetVolume(40));
    assert!(state.same_as(&DlnaState::Connecting(tv())));
    let (state, _) = dlna_step(state, DlnaMessage::StopCast);
    assert!(matches!(state, DlnaState::Idle));
    let (state, _) = dlna_step(DlnaState::Idle, DlnaMessage::SelectDevice(tv()));
    assert!(state.same_as(&DlnaState::Connecting(tv())));
}

#[test]
fn states_compare_by_content() {
    let playing = |url: &str| DlnaState::Playing {
        device: tv(),
        media_url: url.to_string(),
        position: 3,
        is_paused: false,
    };
    assert!(playing("http://me/a").same_as(&playing("http://me/a")));
    assert!(!playing("http://me/a").same_as(&playing("http://me/b")));
    assert!(!DlnaState::Idle.same_as(&DlnaState::Scanning));
    let other = DlnaDevice::discovered("Radio".to_string(), "http://radio".to_string());
    assert!(!DlnaState::DevicesReady(vec![tv()]).same_as(&DlnaState::DevicesReady(vec![other.clone()])));
    assert!(!DlnaState::DevicesReady(vec![tv()]).same_as(&DlnaState::DevicesReady(vec![tv(), other])));
    assert!(tv().same_as(&tv().copy()));
}

#[test]
fn finished_tasks_report_back() {
    match madamiru::dlna::discovery_reported(Ok(vec![tv()])) {
        DlnaMessage::DevicesFound(d) => assert_eq!(1, d.len()),
        _ => panic!("expected devices"),
    }
    match madamiru::dlna::discovery_reported(Err(DlnaError::Discovery("x".to_string()))) {
        DlnaMessage::ScanError(why) => assert_eq!("设备发现失败: x", why),
        _ => panic!("expected an error"),
    }
    assert!(madamiru::dlna::cast_reported(Ok(())).is_none());
    match madamiru::dlna::cast_reported(Err(DlnaError::Server("down".to_string()))) {
        Some(DlnaMessage::ScanError(why)) => assert_eq!("媒体服务器错误: down", why),
        _ => panic!("expected an error"),
    }
}
