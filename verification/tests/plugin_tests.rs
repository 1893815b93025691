use plugin_kit::event::{handle_event, respond_to_event, event_response_json, EventData,
    EventPayload, EventResponse, Notification, UIUpdate};
use plugin_kit::manifest::{create_metadata, get_manifest, get_metadata};
use plugin_kit::relay::{http_get, http_post, relay_outcome, RelayRequest};
use plugin_kit::text::push_quoted;
use plugin_kit::ui::{build_ui, get_ui, ui_element_json, ui_response_json, SelectOption,
    UIElement, UIResponse};

const LOGO: &str = "data:image/svg+xml;base64,PHN2ZyB3aWR0aD0iMjQiIGhlaWdodD0iMjQiIHZpZXdCb3g9IjAgMCAyNCAyNCIgZmlsbD0ibm9uZSIgeG1sbnM9Imh0dHA6Ly93d3cudzMub3JnLzIwMDAvc3ZnIj4KPHBhdGggZD0iTTEyIDJMMTMuMDkgOC4yNkwyMCA9TDEzLjA5IDE1Ljc0TDEyIDIyTDEwLjkxIDE1Ljc0TDQgOUwxMC45MSA4LjI2TDEyIDJaIiBmaWxsPSIjRkY2NTAwIi8+Cjwvc3ZnPgo=";

fn expected_metadata_text() -> String {
    format!(
        "{{\"name\":\"Example Plugin\",\"version\":\"1.0.0\",\"description\":\"A sample plugin demonstrating UI capabilities\",\"author\":\"Plugin Developer\",\"logo\":\"{}\",\"license\":\"MIT\",\"homepage\":\"https://example.com\",\"repository\":\"https://github.com/example/plugin\",\"keywords\":[\"example\",\"ui\",\"demo\"],\"api_version\":\"1.0\"}}",
        LOGO
    )
}

#[test]
fn metadata_exact_text() {
    assert_eq!(get_metadata(), expected_metadata_text());
}

#[test]
fn metadata_deterministic() {
    assert_eq!(get_metadata(), get_metadata());
    assert_eq!(get_manifest(), get_manifest());
}

#[test]
fn metadata_fields() {
    let m = create_metadata();
    assert_eq!(m.name, "Example Plugin");
    assert_eq!(m.version, "1.0.0");
    assert_eq!(m.author, "Plugin Developer");
    assert_eq!(m.license.as_deref(), Some("MIT"));
    assert_eq!(m.keywords, vec!["example", "ui", "demo"]);
    assert_eq!(m.api_version, "1.0");
}

#[test]
fn manifest_exact_text() {
    let expected = format!(
        "{{\"metadata\":{},\"capabilities\":[\"ui\",\"events\",\"state_management\"],\"ui_available\":true,\"event_handlers\":[\"handle_click\",\"handle_input_change\",\"handle_select_change\"]}}",
        expected_metadata_text()
    );
    assert_eq!(get_manifest(), expected);
}

#[test]
fn manifest_parses_as_json() {
    let v: serde_json::Value = serde_json::from_str(&get_manifest()).unwrap();
    assert_eq!(v["ui_available"], serde_json::Value::Bool(true));
    assert_eq!(v["metadata"]["name"].as_str(), Some("Example Plugin"));
    assert_eq!(v["event_handlers"].as_array().unwrap().len(), 3);
    assert_eq!(v["capabilities"][2].as_str(), Some("state_management"));
}

#[test]
fn ui_exact_text() {
    let expected = "{\"type\":\"container\",\"id\":\"root\",\"direction\":\"column\",\"style\":null,\"children\":[{\"type\":\"text\",\"id\":\"welcome\",\"value\":\"Welcome to the Example Plugin!\",\"style\":null},{\"type\":\"input\",\"id\":\"input\",\"placeholder\":\"Type something...\",\"value\":null,\"input_type\":\"text\",\"onChange\":\"handle_input_change\",\"style\":null},{\"type\":\"select\",\"id\":\"mode\",\"options\":[{\"value\":\"light\",\"label\":\"Light Mode\"},{\"value\":\"dark\",\"label\":\"Dark Mode\"}],\"selected\":\"light\",\"onChange\":\"handle_select_change\",\"style\":null},{\"type\":\"button\",\"id\":\"click\",\"label\":\"Click Me\",\"onClick\":\"handle_click\",\"disabled\":null,\"style\":null}]}";
    assert_eq!(get_ui(), expected);
}

#[test]
fn ui_parses_as_json() {
    let v: serde_json::Value = serde_json::from_str(&get_ui()).unwrap();
    assert_eq!(v["type"].as_str(), Some("container"));
    let children = v["children"].as_array().unwrap();
    assert_eq!(children.len(), 4);
    assert_eq!(children[0]["id"].as_str(), Some("welcome"));
    assert_eq!(children[2]["options"][1]["value"].as_str(), Some("dark"));
    assert_eq!(children[3]["onClick"].as_str(), Some("handle_click"));
}

#[test]
fn ui_tree_shape() {
    let e = build_ui();
    match e {
        UIElement::Container { id, direction, style, children } => {
            assert_eq!(id.as_deref(), Some("root"));
            assert_eq!(direction, "column");
            assert!(style.is_none());
            assert_eq!(children.len(), 4);
        }
        _ => panic!("expected a container"),
    }
}

#[test]
fn wasm_element_text() {
    let e = UIElement::WasmUI { mount_script: String::from("boot()") };
    assert_eq!(ui_element_json(&e), "{\"type\":\"wasm\",\"mount_script\":\"boot()\"}");
}

#[test]
fn element_with_style_emitted_verbatim() {
    let e = UIElement::Text {
        id: String::from("t"),
        value: String::from("v"),
        style: Some(String::from("{\"color\":\"red\"}")),
    };
    assert_eq!(
        ui_element_json(&e),
        "{\"type\":\"text\",\"id\":\"t\",\"value\":\"v\",\"style\":{\"color\":\"red\"}}"
    );
}

#[test]
fn ui_response_text_shape() {
    let r = UIResponse {
        ui: UIElement::Text { id: String::from("t"), value: String::from("v"), style: None },
        state: None,
    };
    assert_eq!(
        ui_response_json(&r),
        "{\"ui\":{\"type\":\"text\",\"id\":\"t\",\"value\":\"v\",\"style\":null},\"state\":null}"
    );
}

#[test]
fn nested_select_options() {
    let e = UIElement::Select {
        id: String::from("s"),
        options: vec![
            SelectOption { value: String::from("a"), label: String::from("A") },
        ],
        selected: None,
        on_change: None,
        style: None,
    };
    assert_eq!(
        ui_element_json(&e),
        "{\"type\":\"select\",\"id\":\"s\",\"options\":[{\"value\":\"a\",\"label\":\"A\"}],\"selected\":null,\"onChange\":null,\"style\":null}"
    );
}

#[test]
fn click_event_response() {
    let out = handle_event("{\"id\":\"handle_click\",\"event_type\":\"click\"}");
    let v: serde_json::Value = serde_json::from_str(&out).unwrap();
    let updates = v["updates"].as_array().unwrap();
    assert_eq!(updates.len(), 1);
    assert_eq!(updates[0]["target_id"].as_str(), Some("welcome"));
    assert_eq!(updates[0]["update_type"].as_str(), Some("replace"));
    assert_eq!(
        updates[0]["data"]["value"].as_str(),
        Some("Button clicked! Thank you for trying the plugin.")
    );
    let notes = v["notifications"].as_array().unwrap();
    assert_eq!(notes.len(), 1);
    assert_eq!(notes[0]["level"].as_str(), Some("success"));
    assert_eq!(notes[0]["message"].as_str(), Some("Button clicked successfully!"));
    assert_eq!(notes[0]["duration"].as_u64(), Some(3000));
    assert_eq!(v["state"]["last_event"].as_str(), Some("handle_click"));
    assert_eq!(v["state"]["event_count"].as_u64(), Some(1));
}

#[test]
fn select_change_event_response() {
    let out = handle_event(
        "{\"id\":\"handle_select_change\",\"event_type\":\"change\",\"data\":{\"value\":\"dark\"}}",
    );
    let v: serde_json::Value = serde_json::from_str(&out).unwrap();
    let updates = v["updates"].as_array().unwrap();
    assert_eq!(updates.len(), 1);
    assert_eq!(updates[0]["data"]["value"].as_str(), Some("Mode changed to: dark"));
    let notes = v["notifications"].as_array().unwrap();
    assert_eq!(notes.len(), 1);
    assert_eq!(notes[0]["level"].as_str(), Some("info"));
    assert_eq!(notes[0]["message"].as_str(), Some("Switched to dark mode"));
    assert_eq!(notes[0]["duration"].as_u64(), Some(2000));
}

#[test]
fn input_change_event_response() {
    let out = handle_event(
        "{\"id\":\"handle_input_change\",\"event_type\":\"change\",\"data\":{\"value\":\"hi\"}}",
    );
    let v: serde_json::Value = serde_json::from_str(&out).unwrap();
    let updates = v["updates"].as_array().unwrap();
    assert_eq!(updates.len(), 1);
    assert_eq!(updates[0]["data"]["value"].as_str(), Some("You typed: hi"));
    assert!(v["notifications"].is_null());
}

#[test]
fn input_change_without_value() {
    let out = handle_event("{\"id\":\"handle_input_change\",\"event_type\":\"change\"}");
    let v: serde_json::Value = serde_json::from_str(&out).unwrap();
    assert_eq!(v["updates"].as_array().unwrap().len(), 0);
    assert!(v["notifications"].is_null());
    assert_eq!(v["state"]["last_event"].as_str(), Some("handle_input_change"));
}

#[test]
fn unknown_event_response() {
    let out = handle_event("{\"id\":\"unknown\",\"event_type\":\"x\"}");
    let v: serde_json::Value = serde_json::from_str(&out).unwrap();
    assert_eq!(v["updates"].as_array().unwrap().len(), 0);
    let notes = v["notifications"].as_array().unwrap();
    assert_eq!(notes.len(), 1);
    assert_eq!(notes[0]["level"].as_str(), Some("warning"));
    assert_eq!(notes[0]["message"].as_str(), Some("Unknown event: unknown"));
    assert_eq!(v["state"]["last_event"].as_str(), Some("unknown"));
}

#[test]
fn malformed_event_response() {
    for bad in ["this is not json", "", "[1,2,3]", "{\"id\":5,\"event_type\":\"x\"}",
        "{\"event_type\":\"x\"}", "{\"id\":\"a\"}", "null"]
    {
        let out = handle_event(bad);
        let v: serde_json::Value = serde_json::from_str(&out).unwrap();
        assert_eq!(v["updates"].as_array().unwrap().len(), 0, "input: {bad}");
        assert!(v["state"].is_null(), "input: {bad}");
        let notes = v["notifications"].as_array().unwrap();
        assert_eq!(notes.len(), 1, "input: {bad}");
        assert_eq!(notes[0]["level"].as_str(), Some("error"), "input: {bad}");
        assert_eq!(notes[0]["message"].as_str(), Some("Failed to parse event"), "input: {bad}");
        assert_eq!(notes[0]["duration"].as_u64(), Some(3000), "input: {bad}");
    }
}

#[test]
fn event_value_with_escapes_round_trips() {
    let payload = EventPayload {
        id: String::from("handle_input_change"),
        event_type: String::from("change"),
        data: Some(EventData { value: Some(String::from("a\"b\\c\nd\u{1}e")) }),
    };
    let out = event_response_json(&respond_to_event(&payload));
    let v: serde_json::Value = serde_json::from_str(&out).unwrap();
    assert_eq!(
        v["updates"][0]["data"]["value"].as_str(),
        Some("You typed: a\"b\\c\nd\u{1}e")
    );
}

#[test]
fn handle_event_escapes_through_parser() {
    let input = serde_json::to_string(&serde_json::from_str::<serde_json::Value>(
        "{\"id\":\"handle_input_change\",\"event_type\":\"t\",\"data\":{\"value\":\"x \\\"y\\\" \\\\z\"}}",
    )
    .unwrap())
    .unwrap();
    let out = handle_event(&input);
    let v: serde_json::Value = serde_json::from_str(&out).unwrap();
    assert_eq!(v["updates"][0]["data"]["value"].as_str(), Some("You typed: x \"y\" \\z"));
}

#[test]
fn quoted_escapes_control_characters() {
    let mut s = String::new();
    push_quoted(&mut s, "\u{1}\t\r\n\u{8}\u{c}\u{1f}");
    assert_eq!(s, "\"\\u0001\\t\\r\\n\\b\\f\\u001f\"");
}

#[test]
fn response_with_several_updates_and_notes() {
    let r = EventResponse {
        updates: vec![
            UIUpdate {
                target_id: String::from("a"),
                update_type: String::from("replace"),
                data: String::from("{\"value\":\"1\"}"),
            },
            UIUpdate {
                target_id: String::from("b"),
                update_type: String::from("append"),
                data: String::from("{\"value\":\"2\"}"),
            },
        ],
        state: None,
        notifications: Some(vec![
            Notification {
                level: String::from("info"),
                message: String::from("one"),
                duration: Some(10),
            },
            Notification {
                level: String::from("warning"),
                message: String::from("two"),
                duration: None,
            },
        ]),
    };
    assert_eq!(
        event_response_json(&r),
        "{\"updates\":[{\"target_id\":\"a\",\"update_type\":\"replace\",\"data\":{\"value\":\"1\"}},{\"target_id\":\"b\",\"update_type\":\"append\",\"data\":{\"value\":\"2\"}}],\"state\":null,\"notifications\":[{\"level\":\"info\",\"message\":\"one\",\"duration\":10},{\"level\":\"warning\",\"message\":\"two\",\"duration\":null}]}"
    );
}

#[test]
fn relay_forwards_get_unchanged() {
    let req = RelayRequest {
        method: Some(String::from("GET")),
        url: String::from("https://example.com/data"),
        headers: vec![(String::from("accept"), String::from("application/json"))],
    };
    let call = http_get(req);
    assert_eq!(call.method.as_deref(), Some("GET"));
    assert_eq!(call.url, "https://example.com/data");
    assert_eq!(call.headers.len(), 1);
    assert_eq!(call.headers[0].0, "accept");
    assert_eq!(call.headers[0].1, "application/json");
    assert!(call.body.is_none());
}

#[test]
fn relay_forwards_post_unchanged() {
    let req = RelayRequest {
        method: None,
        url: String::from("https://example.com/submit"),
        headers: vec![],
    };
    let call = http_post(req, String::from("payload"));
    assert!(call.method.is_none());
    assert_eq!(call.url, "https://example.com/submit");
    assert_eq!(call.body.as_deref(), Some("payload"));
}

#[test]
fn relay_outcome_classifies_offsets() {
    assert_eq!(relay_outcome(0), Err(1));
    assert_eq!(relay_outcome(7), Ok(7));
    assert_eq!(relay_outcome(u64::MAX), Ok(u64::MAX));
}
