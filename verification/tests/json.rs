use boppo::json::{device_json, device_list_json, info_json, info_lines, member_lines};
use boppo::notice::DeviceRow;

fn parsed(text: &str) -> serde_json::Value {
    serde_json::from_str(text).unwrap()
}

#[test]
fn the_device_list_is_a_document() {
    let rows = vec![
        DeviceRow { serial: "B1".to_owned(), nickname: Some("Den".to_owned()), is_default: true },
        DeviceRow { serial: "B2".to_owned(), nickname: None, is_default: false },
    ];
    assert_eq!(
        device_list_json(&rows).unwrap(),
        "[\n  {\n    \"default\": true,\n    \"nickname\": \"Den\",\n    \"serial\": \"B1\"\n  },\n  \
         {\n    \"default\": false,\n    \"nickname\": null,\n    \"serial\": \"B2\"\n  }\n]"
    );
}

#[test]
fn an_empty_device_list_is_an_empty_array() {
    assert_eq!(device_list_json(&Vec::new()).unwrap(), "[]");
}

#[test]
fn a_device_is_a_document() {
    assert_eq!(
        device_json("B1", "p\"w", &Some("Den".to_owned()), false).unwrap(),
        "{\n  \"default\": false,\n  \"nickname\": \"Den\",\n  \"password\": \"p\\\"w\",\n  \
         \"serial\": \"B1\"\n}"
    );
    assert_eq!(
        device_json("B2", "pw", &None, true).unwrap(),
        "{\n  \"default\": true,\n  \"nickname\": null,\n  \"password\": \"pw\",\n  \
         \"serial\": \"B2\"\n}"
    );
}

#[test]
fn information_is_reported_member_by_member() {
    let info = parsed(
        "{\"version\": \"1.2\", \"battery\": 87, \"wifi\": {\"ssid\": \"x\"}, \"tags\": [1, \"a\"], \
         \"on\": true, \"none\": null, \"quoted\": \"say \\\"hi\\\"\"}",
    );
    assert_eq!(
        info_lines(&info),
        [
            "battery: 87",
            "none: null",
            "on: true",
            "quoted: say \"hi\"",
            "tags: [1,\"a\"]",
            "version: 1.2",
            "wifi: {\"ssid\":\"x\"}",
        ]
    );
}

#[test]
fn keys_are_in_the_order_of_their_code_points() {
    assert_eq!(
        info_lines(&parsed("{\"b\": 1, \"ab\": 2, \"a\": 3, \"B\": 4, \"é\": 5, \"\": 6}")),
        [": 6", "B: 4", "a: 3", "ab: 2", "b: 1", "é: 5"]
    );
}

#[test]
fn an_empty_object_is_reported_by_no_line() {
    assert!(info_lines(&parsed("{}")).is_empty());
}

#[test]
fn other_information_is_reported_as_it_is() {
    assert_eq!(info_lines(&parsed("[1, 2]")), ["[1,2]"]);
    assert_eq!(info_lines(&parsed("\"up\"")), ["\"up\""]);
    assert_eq!(info_lines(&parsed("null")), ["null"]);
}

#[test]
fn information_is_a_document() {
    assert_eq!(
        info_json(&parsed("{\"b\": [1], \"a\": \"x\"}")).unwrap(),
        "{\n  \"a\": \"x\",\n  \"b\": [\n    1\n  ]\n}"
    );
}

#[test]
fn a_member_is_its_key_and_its_value() {
    let members = vec![("k".to_owned(), "v".to_owned()), ("".to_owned(), "".to_owned())];
    assert_eq!(member_lines(&members), ["k: v", ": "]);
}
