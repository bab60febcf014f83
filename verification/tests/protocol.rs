use steelseries_screen::display::{Dimensions, SteelSeriesLCDType};
use steelseries_screen::protocol::{
    device_type, frame_key, push_decimal, Endpoint, SessionState, CONTENT_TYPE, DEFAULT_EVENT,
    HEARTBEAT_INTERVAL_SECS, MODE, ZONE,
};

fn decimal(n: u32) -> String {
    let mut text = String::new();
    push_decimal(&mut text, n);
    text
}

#[test]
fn protocol_constants() {
    assert_eq!(CONTENT_TYPE, "application/json");
    assert_eq!(DEFAULT_EVENT, "UPDATE");
    assert_eq!(ZONE, "one");
    assert_eq!(MODE, "screen");
    assert_eq!(HEARTBEAT_INTERVAL_SECS, 10);
}

#[test]
fn decimal_has_no_leading_zeros() {
    assert_eq!(decimal(0), "0");
    assert_eq!(decimal(7), "7");
    assert_eq!(decimal(9), "9");
    assert_eq!(decimal(10), "10");
    assert_eq!(decimal(36), "36");
    assert_eq!(decimal(100), "100");
    assert_eq!(decimal(128), "128");
    assert_eq!(decimal(1_000_000), "1000000");
    assert_eq!(decimal(u32::MAX), "4294967295");
}

#[test]
fn decimal_agrees_with_std_formatting() {
    for n in (0..5000u32).chain([65_535, 65_536, 99_999, 100_000, 123_456_789]) {
        assert_eq!(decimal(n), format!("{}", n));
    }
}

#[test]
fn push_decimal_appends() {
    let mut text = String::from("w=");
    push_decimal(&mut text, 128);
    push_decimal(&mut text, 40);
    assert_eq!(text, "w=12840");
}

#[test]
fn device_types_of_the_four_panels() {
    assert_eq!(device_type(SteelSeriesLCDType::Apex.dimensions()), "screened-128x40");
    assert_eq!(device_type(SteelSeriesLCDType::Arctis.dimensions()), "screened-128x48");
    assert_eq!(device_type(SteelSeriesLCDType::GameDAC.dimensions()), "screened-128x52");
    assert_eq!(device_type(SteelSeriesLCDType::Rival7x0.dimensions()), "screened-128x36");
}

#[test]
fn frame_keys_of_the_four_panels() {
    assert_eq!(frame_key(SteelSeriesLCDType::Apex.dimensions()), "image-data-128x40");
    assert_eq!(frame_key(SteelSeriesLCDType::Arctis.dimensions()), "image-data-128x48");
    assert_eq!(frame_key(SteelSeriesLCDType::GameDAC.dimensions()), "image-data-128x52");
    assert_eq!(frame_key(SteelSeriesLCDType::Rival7x0.dimensions()), "image-data-128x36");
}

#[test]
fn names_of_other_dimensions() {
    assert_eq!(device_type(Dimensions { width: 8, height: 1 }), "screened-8x1");
    assert_eq!(frame_key(Dimensions { width: 1000, height: 0 }), "image-data-1000x0");
}

#[test]
fn paths_of_the_four_requests() {
    assert_eq!(Endpoint::GameMetadata.path(), "/game_metadata");
    assert_eq!(Endpoint::BindGameEvent.path(), "/bind_game_event");
    assert_eq!(Endpoint::GameEvent.path(), "/game_event");
    assert_eq!(Endpoint::GameHeartbeat.path(), "/game_heartbeat");
}

#[test]
fn urls_are_plain_http_at_the_address() {
    assert_eq!(
        Endpoint::GameMetadata.url("127.0.0.1:51248"),
        "http://127.0.0.1:51248/game_metadata"
    );
    assert_eq!(
        Endpoint::BindGameEvent.url("127.0.0.1:51248"),
        "http://127.0.0.1:51248/bind_game_event"
    );
    assert_eq!(Endpoint::GameEvent.url("localhost:80"), "http://localhost:80/game_event");
    assert_eq!(Endpoint::GameHeartbeat.url(""), "http:///game_heartbeat");
}

const ENDPOINTS: [Endpoint; 4] = [
    Endpoint::GameMetadata,
    Endpoint::BindGameEvent,
    Endpoint::GameEvent,
    Endpoint::GameHeartbeat,
];

const STATES: [SessionState; 3] =
    [SessionState::Unregistered, SessionState::Registered, SessionState::Bound];

#[test]
fn register_then_bind_leads_to_bound() {
    let state = SessionState::Unregistered;
    assert!(state.expects(Endpoint::GameMetadata));
    let state = state.after(Endpoint::GameMetadata);
    assert_eq!(state, SessionState::Registered);
    assert!(state.expects(Endpoint::BindGameEvent));
    let state = state.after(Endpoint::BindGameEvent);
    assert_eq!(state, SessionState::Bound);
    assert!(state.expects(Endpoint::GameEvent));
    assert!(state.expects(Endpoint::GameHeartbeat));
}

#[test]
fn bound_is_kept_by_every_request() {
    for endpoint in ENDPOINTS {
        assert!(SessionState::Bound.expects(endpoint));
        assert_eq!(SessionState::Bound.after(endpoint), SessionState::Bound);
    }
}

#[test]
fn requests_out_of_order_are_not_expected() {
    assert!(!SessionState::Unregistered.expects(Endpoint::BindGameEvent));
    assert!(!SessionState::Unregistered.expects(Endpoint::GameEvent));
    assert!(!SessionState::Unregistered.expects(Endpoint::GameHeartbeat));
    assert!(!SessionState::Registered.expects(Endpoint::GameEvent));
    assert!(!SessionState::Registered.expects(Endpoint::GameHeartbeat));
    assert!(SessionState::Registered.expects(Endpoint::GameMetadata));
    assert!(SessionState::Registered.expects(Endpoint::BindGameEvent));
}

#[test]
fn requests_out_of_order_leave_the_state() {
    assert_eq!(
        SessionState::Unregistered.after(Endpoint::BindGameEvent),
        SessionState::Unregistered
    );
    assert_eq!(SessionState::Unregistered.after(Endpoint::GameEvent), SessionState::Unregistered);
    assert_eq!(SessionState::Registered.after(Endpoint::GameMetadata), SessionState::Registered);
    assert_eq!(SessionState::Registered.after(Endpoint::GameEvent), SessionState::Registered);
    assert_eq!(SessionState::Registered.after(Endpoint::GameHeartbeat), SessionState::Registered);
}

#[test]
fn what_was_expected_stays_expected() {
    for state in STATES {
        for sent in ENDPOINTS {
            for endpoint in ENDPOINTS {
                if state.expects(endpoint) {
                    assert!(state.after(sent).expects(endpoint));
                }
            }
        }
    }
}
