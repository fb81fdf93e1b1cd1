use netcli_core::ParseError;
use netcli_core::parse_json;
use netcli_core::parse_records;

#[test]
fn parse_empty_platform_returns_invalid_input() {
    let err = parse_records("", "show_version", "some output").unwrap_err();
    assert_eq!(err, ParseError::InvalidInput("platform"));
}

#[test]
fn parse_empty_command_key_returns_invalid_input() {
    let err = parse_records("cisco_ios", "", "some output").unwrap_err();
    assert_eq!(err, ParseError::InvalidInput("command_key"));
}

#[test]
fn parse_empty_output_text_returns_invalid_input() {
    let err = parse_records("cisco_ios", "show_version", "").unwrap_err();
    assert_eq!(err, ParseError::InvalidInput("output_text"));
}

#[test]
fn valid_inputs_return_empty_records_stub() {
    let records = parse_records("cisco_ios", "show_version", "some output").unwrap();
    assert!(records.is_empty());
}

#[test]
fn json_success_envelope_shape() {
    let json_str = parse_json("cisco_ios", "show_version", "some output");
    let v: serde_json::Value = serde_json::from_str(&json_str).unwrap();
    assert_eq!(v["ok"], true);
    assert_eq!(v["platform"], "cisco_ios");
    assert_eq!(v["commandKey"], "show_version");
    assert!(v["records"].is_array());
}

#[test]
fn json_error_envelope_shape() {
    let json_str = parse_json("", "show_version", "some output");
    let v: serde_json::Value = serde_json::from_str(&json_str).unwrap();
    assert_eq!(v["ok"], false);
    assert!(v["error"]["code"].is_string());
    assert!(v["error"]["message"].is_string());
}
