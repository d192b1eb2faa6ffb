use dark_remote::config::{RemoteCommand, TrackpadButton};
use dark_remote::wire::{decode, encode};
use serde_json::Value;

fn object(key: &str, value: Value) -> Value {
    let mut map = serde_json::Map::new();
    map.insert(key.to_string(), value);
    Value::Object(map)
}

fn deltas(x: i32, y: i32) -> Value {
    let mut map = serde_json::Map::new();
    map.insert("delta_x".to_string(), Value::from(x));
    map.insert("delta_y".to_string(), Value::from(y));
    Value::Object(map)
}

fn as_json(command: RemoteCommand) -> Value {
    match command {
        RemoteCommand::TrackpadMove { delta_x, delta_y } => object("TrackpadMove", deltas(delta_x, delta_y)),
        RemoteCommand::TrackpadScroll { delta_x, delta_y } => object("TrackpadScroll", deltas(delta_x, delta_y)),
        RemoteCommand::TrackpadClick { button } => {
            let name = match button {
                TrackpadButton::Left => "Left",
                TrackpadButton::Right => "Right",
                TrackpadButton::Middle => "Middle",
            };
            object("TrackpadClick", object("button", Value::from(name)))
        }
        RemoteCommand::CecActiveSource { physical_address } => {
            let digits: Vec<Value> = physical_address.iter().map(|d| Value::from(*d)).collect();
            object("CecActiveSource", object("physical_address", Value::Array(digits)))
        }
        RemoteCommand::CecImageViewOn => Value::from("CecImageViewOn"),
        RemoteCommand::CecActiveSourceSelf => Value::from("CecActiveSourceSelf"),
        RemoteCommand::CecStandby => Value::from("CecStandby"),
        RemoteCommand::MpdPlayPause => Value::from("MpdPlayPause"),
        RemoteCommand::MpdNext => Value::from("MpdNext"),
        RemoteCommand::MpdPrevious => Value::from("MpdPrevious"),
    }
}

/// Reads a command from JSON as a reader does that goes by the names of the
/// tag and the fields: a string or a one-key object for the tag, an object in
/// any order or an array for the fields.
fn read(text: &str) -> Result<RemoteCommand, String> {
    let value: Value = serde_json::from_str(text).map_err(|error| error.to_string())?;
    let (tag, content) = match &value {
        Value::String(tag) => (tag.as_str(), None),
        Value::Object(map) if map.len() == 1 => {
            let (tag, content) = map.iter().next().expect("one entry");
            (tag.as_str(), Some(content))
        }
        _ => return Err("expected a string or an object with one key".to_string()),
    };
    let field = |index: usize, name: &str| -> Result<&Value, String> {
        match content {
            Some(Value::Object(fields)) => fields.get(name).ok_or(format!("missing field `{name}`")),
            Some(Value::Array(items)) => items.get(index).ok_or(format!("invalid length {}", items.len())),
            _ => Err("expected the fields of the command".to_string()),
        }
    };
    let delta = |index: usize, name: &str| -> Result<i32, String> {
        let number = field(index, name)?.as_i64().ok_or("expected an integer".to_string())?;
        i32::try_from(number).map_err(|error| error.to_string())
    };
    let unit = |command: RemoteCommand| match content {
        None | Some(Value::Null) => Ok(command),
        Some(_) => Err("expected no fields".to_string()),
    };
    match tag {
        "TrackpadMove" => Ok(RemoteCommand::TrackpadMove { delta_x: delta(0, "delta_x")?, delta_y: delta(1, "delta_y")? }),
        "TrackpadScroll" => {
            Ok(RemoteCommand::TrackpadScroll { delta_x: delta(0, "delta_x")?, delta_y: delta(1, "delta_y")? })
        }
        "TrackpadClick" => match field(0, "button")?.as_str() {
            Some("Left") => Ok(RemoteCommand::TrackpadClick { button: TrackpadButton::Left }),
            Some("Right") => Ok(RemoteCommand::TrackpadClick { button: TrackpadButton::Right }),
            Some("Middle") => Ok(RemoteCommand::TrackpadClick { button: TrackpadButton::Middle }),
            _ => Err("unknown button".to_string()),
        },
        "CecActiveSource" => {
            let digits = field(0, "physical_address")?.as_array().ok_or("expected an array".to_string())?;
            let digits: Option<Vec<u8>> =
                digits.iter().map(|digit| digit.as_u64().and_then(|d| u8::try_from(d).ok())).collect();
            let digits: [u8; 4] = digits
                .ok_or("expected bytes".to_string())?
                .try_into()
                .map_err(|_| "expected four digits".to_string())?;
            Ok(RemoteCommand::CecActiveSource { physical_address: digits })
        }
        "CecImageViewOn" => unit(RemoteCommand::CecImageViewOn),
        "CecActiveSourceSelf" => unit(RemoteCommand::CecActiveSourceSelf),
        "CecStandby" => unit(RemoteCommand::CecStandby),
        "MpdPlayPause" => unit(RemoteCommand::MpdPlayPause),
        "MpdNext" => unit(RemoteCommand::MpdNext),
        "MpdPrevious" => unit(RemoteCommand::MpdPrevious),
        other => Err(format!("unknown variant `{other}`")),
    }
}

fn commands() -> Vec<RemoteCommand> {
    vec![
        RemoteCommand::TrackpadMove { delta_x: 0, delta_y: 0 },
        RemoteCommand::TrackpadMove { delta_x: -5, delta_y: 3 },
        RemoteCommand::TrackpadMove { delta_x: i32::MIN, delta_y: i32::MAX },
        RemoteCommand::TrackpadScroll { delta_x: 120, delta_y: -120 },
        RemoteCommand::TrackpadScroll { delta_x: i32::MAX, delta_y: i32::MIN },
        RemoteCommand::TrackpadClick { button: TrackpadButton::Left },
        RemoteCommand::TrackpadClick { button: TrackpadButton::Right },
        RemoteCommand::TrackpadClick { button: TrackpadButton::Middle },
        RemoteCommand::CecImageViewOn,
        RemoteCommand::CecActiveSourceSelf,
        RemoteCommand::CecActiveSource { physical_address: [1, 0, 0, 0] },
        RemoteCommand::CecActiveSource { physical_address: [10, 200, 255, 7] },
        RemoteCommand::CecStandby,
        RemoteCommand::MpdPlayPause,
        RemoteCommand::MpdNext,
        RemoteCommand::MpdPrevious,
    ]
}

#[test]
fn the_text_of_a_command_is_json_with_its_tag_and_fields() {
    for command in commands() {
        let text = encode(command);
        let parsed: Value = serde_json::from_str(&text).expect("the text is JSON");
        assert_eq!(parsed, as_json(command), "{text}");
    }
}

#[test]
fn the_text_of_a_command_is_the_compact_json_of_its_tag_and_fields() {
    for command in commands() {
        let compact = serde_json::to_string(&as_json(command)).expect("a value can be written");
        assert_eq!(encode(command), compact);
    }
}

#[test]
fn compact_json_of_a_command_is_decoded() {
    for command in commands() {
        let compact = serde_json::to_string(&as_json(command)).expect("a value can be written");
        assert_eq!(decode(&compact, read(&compact)), Ok(command), "{compact}");
    }
}

#[test]
fn a_field_reads_back_through_json() {
    let text = encode(RemoteCommand::TrackpadMove { delta_x: -2147483648, delta_y: 17 });
    let parsed: Value = serde_json::from_str(&text).expect("the text is JSON");
    assert_eq!(parsed["TrackpadMove"]["delta_x"].as_i64(), Some(-2147483648));
    assert_eq!(parsed["TrackpadMove"]["delta_y"].as_i64(), Some(17));
    let text = encode(RemoteCommand::CecActiveSource { physical_address: [4, 3, 2, 1] });
    let parsed: Value = serde_json::from_str(&text).expect("the text is JSON");
    let digits = parsed["CecActiveSource"]["physical_address"].as_array().expect("an array");
    let digits: Vec<u64> = digits.iter().map(|d| d.as_u64().expect("a number")).collect();
    assert_eq!(digits, vec![4, 3, 2, 1]);
}

#[test]
fn a_reader_of_json_reads_what_encode_wrote_as_the_same_command() {
    for command in commands() {
        let text = encode(command);
        assert_eq!(read(&text), Ok(command), "{text}");
        assert_eq!(decode(&text, read(&text)), Ok(command), "{text}");
    }
}

#[test]
fn other_spellings_of_the_same_json_are_decoded() {
    let motion = RemoteCommand::TrackpadMove { delta_x: 1, delta_y: 2 };
    let spellings = [
        (" \"CecStandby\"", RemoteCommand::CecStandby),
        ("\"CecStandby\" ", RemoteCommand::CecStandby),
        ("\t\"CecStandby\"\r\n", RemoteCommand::CecStandby),
        ("{\"CecStandby\":null}", RemoteCommand::CecStandby),
        ("\"Mpd\\u004eext\"", RemoteCommand::MpdNext),
        ("{ \"TrackpadMove\":{\"delta_x\":1,\"delta_y\":2}}", motion),
        ("{\"TrackpadMove\": {\"delta_x\":1,\"delta_y\":2}}", motion),
        ("{\"TrackpadMove\":{\"delta_x\": 1,\"delta_y\":2}}", motion),
        ("{\"TrackpadMove\":{\"delta_x\":1, \"delta_y\":2}}", motion),
        ("{\"TrackpadMove\":{\"delta_x\":1,\"delta_y\":2} }", motion),
        ("{\"TrackpadMove\":{\"delta_y\":2,\"delta_x\":1}}", motion),
        ("{\"TrackpadMove\":{\"delta_x\":1,\"delta_y\":2,\"delta_z\":3}}", motion),
        ("{\"TrackpadMove\":[1,2]}", motion),
        (
            "{\"CecActiveSource\":{\"physical_address\":[1, 2, 3, 4]}}",
            RemoteCommand::CecActiveSource { physical_address: [1, 2, 3, 4] },
        ),
        (
            "{\n  \"TrackpadClick\": {\n    \"button\": \"Right\"\n  }\n}",
            RemoteCommand::TrackpadClick { button: TrackpadButton::Right },
        ),
    ];
    for (text, command) in spellings {
        assert_eq!(decode(text, read(text)), Ok(command), "{text:?}");
    }
}

#[test]
fn what_no_reader_of_json_reads_is_refused_with_its_reason() {
    for text in ["", "garbage", "{", "\"VolumeUp\"", "{\"TrackpadMove\":{\"delta_x\":1}}", "\"CecStandby\" x"] {
        let refusal = read(text);
        let reason = refusal.clone().expect_err("no command");
        assert_eq!(decode(text, refusal).map_err(|error| error.reason), Err(reason), "{text:?}");
    }
}
