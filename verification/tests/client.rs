use dark_remote::client::{refused_message, status_message, touch_command, ConnectionEvent, Touch};
use dark_remote::config::{RemoteCommand, TrackpadButton};

#[test]
fn an_opened_connection_is_announced() {
    assert_eq!(status_message(Some(ConnectionEvent::Opened)), Some("Connection opened".to_owned()));
}

#[test]
fn a_message_of_the_host_is_announced() {
    assert_eq!(status_message(Some(ConnectionEvent::Message)), Some("Received a message".to_owned()));
}

#[test]
fn an_error_is_shown_with_what_the_connection_said() {
    assert_eq!(
        status_message(Some(ConnectionEvent::Error("timed out".to_owned()))),
        Some("Connection error: timed out".to_owned())
    );
    assert_eq!(
        status_message(Some(ConnectionEvent::Error(String::new()))),
        Some("Connection error: ".to_owned())
    );
}

#[test]
fn a_closed_connection_leaves_the_line_as_it_is() {
    assert_eq!(status_message(Some(ConnectionEvent::Closed)), None);
}

#[test]
fn nothing_new_leaves_the_line_as_it_is() {
    assert_eq!(status_message(None), None);
}

#[test]
fn a_refused_connection_is_shown_with_its_reason() {
    assert_eq!(refused_message("no route to host"), "Failed to connect: no route to host");
    assert_eq!(refused_message(""), "Failed to connect: ");
}

#[test]
fn a_tap_clicks_the_left_button() {
    assert_eq!(touch_command(Touch::Tap), RemoteCommand::TrackpadClick { button: TrackpadButton::Left });
}

#[test]
fn a_long_press_clicks_the_right_button() {
    assert_eq!(
        touch_command(Touch::LongPress),
        RemoteCommand::TrackpadClick { button: TrackpadButton::Right }
    );
}
