use buildlight::color::Color;
use buildlight::command::{
    change_led_color, render_state_body, CONTENT_TYPE, DEVICE_URL, FULL_BRIGHTNESS,
    REQUEST_METHOD,
};
use buildlight::outcome::{set_led_color, Outcome, WledResponse, WledState};
use buildlight::text::{append_decimal, same_text};
use buildlight::webhook::{receive, BuildStatus, Reception};

fn answer(on: bool) -> Result<WledResponse, String> {
    Ok(WledResponse { state: WledState { on } })
}

#[test]
fn red_and_green_have_their_channels() {
    assert_eq!(Color::Red.rgb(), (255, 0, 0));
    assert_eq!(Color::Green.rgb(), (0, 255, 0));
    assert_eq!(Color::Blue.rgb(), (0, 0, 255));
}

#[test]
fn unknown_names_are_blue() {
    assert_eq!(Color::from_name("red"), Color::Red);
    assert_eq!(Color::from_name("green"), Color::Green);
    for name in ["blue", "", "purple", "Red", "GREEN", "red ", "gree"] {
        assert_eq!(Color::from_name(name), Color::Blue);
        assert_eq!(Color::from_name(name).rgb(), (0, 0, 255));
    }
}

#[test]
fn names_round_trip() {
    assert_eq!(Color::Red.name(), "red");
    assert_eq!(Color::Green.name(), "green");
    assert_eq!(Color::Blue.name(), "blue");
    for color in [Color::Red, Color::Green, Color::Blue] {
        assert_eq!(Color::from_name(color.name()), color);
    }
}

#[test]
fn every_command_is_a_post_of_json_to_the_device() {
    assert_eq!(REQUEST_METHOD, "POST");
    assert_eq!(DEVICE_URL, "http://192.168.10.50/json/state");
    assert_eq!(CONTENT_TYPE, "application/json");
    for name in ["red", "green", "blue", "", "purple"] {
        let request = change_led_color(name);
        assert_eq!(request.method, "POST");
        assert_eq!(request.url, "http://192.168.10.50/json/state");
        assert_eq!(request.content_type, "application/json");
    }
}

#[test]
fn green_command_is_exact() {
    let request = change_led_color("green");
    assert_eq!(request.method, "POST");
    assert_eq!(request.url, "http://192.168.10.50/json/state");
    assert_eq!(request.content_type, "application/json");
    assert_eq!(request.body, "{\"on\": true, \"bri\": 255, \"seg\": {\"col\": [[0,255,0]]}}");
}

#[test]
fn red_command_is_exact() {
    let request = change_led_color("red");
    assert_eq!(request.url, "http://192.168.10.50/json/state");
    assert_eq!(request.content_type, "application/json");
    assert_eq!(request.body, "{\"on\": true, \"bri\": 255, \"seg\": {\"col\": [[255,0,0]]}}");
}

#[test]
fn other_names_command_blue() {
    for name in ["blue", "purple", ""] {
        let request = change_led_color(name);
        assert_eq!(request.url, "http://192.168.10.50/json/state");
        assert_eq!(request.body, "{\"on\": true, \"bri\": 255, \"seg\": {\"col\": [[0,0,255]]}}");
    }
}

#[test]
fn command_body_is_json_with_the_expected_fields() {
    let request = change_led_color("green");
    let value: serde_json::Value = serde_json::from_str(&request.body).unwrap();
    assert_eq!(value["on"].as_bool(), Some(true));
    assert_eq!(value["bri"].as_u64(), Some(255));
    let channels = value["seg"]["col"][0].as_array().unwrap();
    assert_eq!(channels.len(), 3);
    assert_eq!(channels[0].as_u64(), Some(0));
    assert_eq!(channels[1].as_u64(), Some(255));
    assert_eq!(channels[2].as_u64(), Some(0));
    assert_eq!(value["seg"]["col"].as_array().unwrap().len(), 1);
}

#[test]
fn body_writes_every_channel_in_decimal() {
    assert_eq!(FULL_BRIGHTNESS, 255);
    assert_eq!(
        render_state_body((7, 42, 100)),
        "{\"on\": true, \"bri\": 255, \"seg\": {\"col\": [[7,42,100]]}}"
    );
    assert_eq!(
        render_state_body((10, 99, 101)),
        "{\"on\": true, \"bri\": 255, \"seg\": {\"col\": [[10,99,101]]}}"
    );
    assert_eq!(
        render_state_body((0, 0, 0)),
        "{\"on\": true, \"bri\": 255, \"seg\": {\"col\": [[0,0,0]]}}"
    );
}

#[test]
fn decimal_of_every_byte() {
    for n in 0..=255u8 {
        let mut out = String::from("n=");
        append_decimal(&mut out, n);
        assert_eq!(out, format!("n={}", n));
    }
}

#[test]
fn decimal_edges() {
    for (n, text) in [(0u8, "0"), (9, "9"), (10, "10"), (99, "99"), (100, "100"), (109, "109"),
        (200, "200"), (255, "255")]
    {
        let mut out = String::new();
        append_decimal(&mut out, n);
        assert_eq!(out, text);
    }
}

#[test]
fn same_text_compares_characters() {
    assert!(same_text("", ""));
    assert!(same_text("Success", "Success"));
    assert!(!same_text("Success", "success"));
    assert!(!same_text("Success", "Succes"));
    assert!(!same_text("a", ""));
}

#[test]
fn device_on_reports_success() {
    let report = set_led_color("green", answer(true));
    assert_eq!(report.outcome, Outcome::Applied);
    assert_eq!(report.line, "LED color set to green successfully");
}

#[test]
fn device_off_reports_soft_failure() {
    let report = set_led_color("red", answer(false));
    assert_eq!(report.outcome, Outcome::NotApplied);
    assert_eq!(report.line, "Failed to set LED color to red");
}

#[test]
fn failed_call_reports_hard_failure() {
    let report = set_led_color("green", Err("connection refused".to_string()));
    assert_eq!(report.outcome, Outcome::CallFailed);
    assert_eq!(report.line, "Failed to call WLED API, error: connection refused");
    let undecodable = set_led_color("red", Err(String::new()));
    assert_eq!(undecodable.outcome, Outcome::CallFailed);
    assert_eq!(undecodable.line, "Failed to call WLED API, error: ");
}

#[test]
fn report_names_the_colour_it_was_given() {
    assert_eq!(set_led_color("blue", answer(true)).line, "LED color set to blue successfully");
    assert_eq!(set_led_color("", answer(false)).line, "Failed to set LED color to ");
}

#[test]
fn success_notification_end_to_end() {
    let body = "{\"build_id\": \"abc123\", \"status\": \"Success\"}";
    let value: serde_json::Value = serde_json::from_str(body).unwrap();
    let decoded = BuildStatus {
        build_id: value["build_id"].as_str().unwrap().to_string(),
        status: value["status"].as_str().unwrap().to_string(),
    };
    let reception = receive(body.len() as u64, Some(decoded));
    assert_eq!(reception.status_code(), 200);
    let handling = match reception {
        Reception::Handled(handling) => handling,
        Reception::Rejected(_) => panic!("the notification was rejected"),
    };
    assert_eq!(handling.reply(), "Received");
    let color = handling.command.unwrap();
    assert_eq!(color, Color::Green);
    let request = change_led_color(color.name());
    assert_eq!(request.method, "POST");
    assert_eq!(request.url, "http://192.168.10.50/json/state");
    assert_eq!(request.content_type, "application/json");
    assert_eq!(request.body, "{\"on\": true, \"bri\": 255, \"seg\": {\"col\": [[0,255,0]]}}");
}

#[test]
fn acknowledgment_does_not_wait_for_the_device() {
    let decoded = BuildStatus { build_id: "abc123".to_string(), status: "Failure".to_string() };
    let reception = receive(44, Some(decoded));
    let report = set_led_color("red", Err("timed out".to_string()));
    assert_eq!(report.outcome, Outcome::CallFailed);
    assert_eq!(reception.status_code(), 200);
    match reception {
        Reception::Handled(handling) => assert_eq!(handling.reply(), "Received"),
        Reception::Rejected(_) => panic!("the notification was rejected"),
    }
}

fn decode_answer(text: &str) -> Result<WledResponse, String> {
    let value: serde_json::Value =
        serde_json::from_str(text).map_err(|error| error.to_string())?;
    match value["state"]["on"].as_bool() {
        Some(on) => Ok(WledResponse { state: WledState { on } }),
        None => Err("missing field".to_string()),
    }
}

#[test]
fn answer_with_light_on_is_success() {
    let report = set_led_color("green", decode_answer("{\"state\": {\"on\": true}}"));
    assert_eq!(report.outcome, Outcome::Applied);
    assert_eq!(report.line, "LED color set to green successfully");
}

#[test]
fn answer_with_light_off_is_soft_failure() {
    let report = set_led_color("green", decode_answer("{\"state\": {\"on\": false}}"));
    assert_eq!(report.outcome, Outcome::NotApplied);
    assert_eq!(report.line, "Failed to set LED color to green");
}

#[test]
fn answer_that_is_not_json_is_hard_failure() {
    let report = set_led_color("green", decode_answer("<html>busy</html>"));
    assert_eq!(report.outcome, Outcome::CallFailed);
    assert!(report.line.starts_with("Failed to call WLED API, error: "));
    assert!(report.line.len() > "Failed to call WLED API, error: ".len());
}

#[test]
fn answer_without_the_flag_is_hard_failure() {
    let report = set_led_color("red", decode_answer("{\"state\": {}}"));
    assert_eq!(report.outcome, Outcome::CallFailed);
    assert_eq!(report.line, "Failed to call WLED API, error: missing field");
}
