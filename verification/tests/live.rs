use home_services::live::ChangeNotification;
use home_services::live::WatchSetup;
use home_services::live::frame_for_notification;
use home_services::live::update_event_data;
use home_services::live::watch_setup_response;

#[test]
fn update_frame_carries_the_fixed_marker() {
    assert_eq!(update_event_data(), "update");
}

#[test]
fn every_notification_maps_to_the_same_frame() {
    let n = ChangeNotification;
    assert_eq!(frame_for_notification(&n), "update");
}

#[test]
fn ready_setup_opens_the_stream() {
    let r = watch_setup_response("{{context}}: {{e}}", &WatchSetup::Ready);
    assert!(r.is_none());
}

#[test]
fn failed_init_terminates_with_error_page() {
    let r = watch_setup_response(
        "{{context}}: {{e}}",
        &WatchSetup::InitFailed { cause: "boom".to_string() },
    );
    let p = r.unwrap();
    assert_eq!(p.status, 500);
    assert_eq!(p.body, "setting up inotify: boom");
}

#[test]
fn failed_watch_attach_names_its_step() {
    let r = watch_setup_response(
        "{{context}}: {{e}}",
        &WatchSetup::WatchFailed { cause: "gone".to_string() },
    );
    let p = r.unwrap();
    assert_eq!(p.status, 500);
    assert_eq!(p.body, "setting up inotify for cfg path: gone");
}

#[test]
fn failed_stream_open_names_its_step() {
    let r = watch_setup_response(
        "{{context}}: {{e}}",
        &WatchSetup::StreamFailed { cause: "bad".to_string() },
    );
    let p = r.unwrap();
    assert_eq!(p.status, 500);
    assert_eq!(p.body, "watcher into event stream: bad");
}
