use mymonitor::stream::{keep_reading, on_feed_event, on_forward_outcome, ClientFrame, FeedEvent, ForwardOutcome, SessionStep};
use mymonitor::ui::layout::{cpu_panel_rows, cpu_rows_shown, short_device_id};

#[test]
fn feed_events_drive_the_session() {
    assert_eq!(on_feed_event(FeedEvent::Snapshot), SessionStep::Forward);
    assert_eq!(on_feed_event(FeedEvent::Lagged(3)), SessionStep::Wait);
    assert_eq!(on_feed_event(FeedEvent::Closed), SessionStep::Stop);
}

#[test]
fn send_failure_ends_the_session() {
    assert_eq!(on_forward_outcome(ForwardOutcome::Sent), SessionStep::Wait);
    assert_eq!(on_forward_outcome(ForwardOutcome::EncodeFailed), SessionStep::Wait);
    assert_eq!(on_forward_outcome(ForwardOutcome::SendFailed), SessionStep::Stop);
}

#[test]
fn close_or_error_stops_reading() {
    assert!(keep_reading(ClientFrame::Other));
    assert!(!keep_reading(ClientFrame::Close));
    assert!(!keep_reading(ClientFrame::Error));
}

#[test]
fn cpu_panel_height_adds_total_row_and_borders() {
    assert_eq!(cpu_panel_rows(4), 7);
    assert_eq!(cpu_panel_rows(65533), u16::MAX);
    assert_eq!(cpu_panel_rows(65536 + 2), 5);
}

#[test]
fn cpu_rows_fit_the_panel() {
    assert_eq!(cpu_rows_shown(4, 10), 5);
    assert_eq!(cpu_rows_shown(8, 3), 3);
    assert_eq!(cpu_rows_shown(0, 0), 0);
}

#[test]
fn long_device_id_is_shortened() {
    assert_eq!(short_device_id(&"0123456789abcdef".to_string()), "0123456789ab...");
    assert_eq!(short_device_id(&"0123456789ab".to_string()), "0123456789ab");
    assert_eq!(short_device_id(&"ééééééé".to_string()), "éééééé...");
}
