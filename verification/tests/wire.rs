use dark_remote::config::{RemoteCommand, TrackpadButton};
use dark_remote::wire::{decode, encode, DecodeError};

fn samples() -> Vec<RemoteCommand> {
    let mut all = vec![
        RemoteCommand::CecImageViewOn,
        RemoteCommand::CecActiveSourceSelf,
        RemoteCommand::CecStandby,
        RemoteCommand::MpdPlayPause,
        RemoteCommand::MpdNext,
        RemoteCommand::MpdPrevious,
        RemoteCommand::TrackpadClick { button: TrackpadButton::Left },
        RemoteCommand::TrackpadClick { button: TrackpadButton::Right },
        RemoteCommand::TrackpadClick { button: TrackpadButton::Middle },
        RemoteCommand::CecActiveSource { physical_address: [0, 0, 0, 0] },
        RemoteCommand::CecActiveSource { physical_address: [1, 2, 3, 4] },
        RemoteCommand::CecActiveSource { physical_address: [15, 9, 10, 100] },
        RemoteCommand::CecActiveSource { physical_address: [255, 255, 255, 255] },
    ];
    let edges = [i32::MIN, i32::MIN + 1, -1_000_000, -10, -9, -1, 0, 1, 9, 10, 99, 100, 12345, i32::MAX - 1, i32::MAX];
    for x in edges {
        for y in edges {
            all.push(RemoteCommand::TrackpadMove { delta_x: x, delta_y: y });
            all.push(RemoteCommand::TrackpadScroll { delta_x: y, delta_y: x });
        }
    }
    all
}

fn refusal() -> Result<RemoteCommand, String> {
    Err("no command".to_string())
}

fn passed_on() -> Result<RemoteCommand, DecodeError> {
    Err(DecodeError { reason: "no command".to_string() })
}

#[test]
fn decode_gives_back_what_encode_was_given() {
    for command in samples() {
        let text = encode(command);
        assert_eq!(decode(&text, Ok(command)), Ok(command), "{text}");
    }
}

#[test]
fn what_encode_wrote_is_read_whatever_the_reader_says() {
    for command in samples() {
        let text = encode(command);
        assert_eq!(decode(&text, refusal()), Ok(command), "{text}");
        assert_eq!(decode(&text, Ok(RemoteCommand::MpdNext)), Ok(command), "{text}");
        assert_eq!(decode(&text, Ok(RemoteCommand::CecStandby)), Ok(command), "{text}");
    }
}

#[test]
fn of_any_other_text_the_reader_is_followed() {
    let standby = RemoteCommand::CecStandby;
    let motion = RemoteCommand::TrackpadMove { delta_x: 1, delta_y: 2 };
    assert_eq!(decode(" \"CecStandby\"", Ok(standby)), Ok(standby));
    assert_eq!(decode("\"CecStandby\"   ", Ok(standby)), Ok(standby));
    assert_eq!(decode("{\"CecStandby\":null}", Ok(standby)), Ok(standby));
    assert_eq!(decode("{\"TrackpadMove\": {\"delta_x\":1,\"delta_y\":2}}", Ok(motion)), Ok(motion));
    assert_eq!(decode("{\"TrackpadMove\":{\"delta_y\":2,\"delta_x\":1}}", Ok(motion)), Ok(motion));
    assert_eq!(decode("{\"TrackpadMove\":[1,2]}", Ok(motion)), Ok(motion));
    assert_eq!(decode(" \"CecStandby\"", refusal()), passed_on());
    assert_eq!(
        decode("{\"TrackpadMove\":[1]}", Err("invalid length 1".to_string())),
        Err(DecodeError { reason: "invalid length 1".to_string() })
    );
}

#[test]
fn encode_writes_the_documented_text() {
    assert_eq!(
        encode(RemoteCommand::TrackpadMove { delta_x: -5, delta_y: 3 }),
        "{\"TrackpadMove\":{\"delta_x\":-5,\"delta_y\":3}}"
    );
    assert_eq!(
        encode(RemoteCommand::TrackpadScroll { delta_x: 0, delta_y: 5 }),
        "{\"TrackpadScroll\":{\"delta_x\":0,\"delta_y\":5}}"
    );
    assert_eq!(
        encode(RemoteCommand::TrackpadClick { button: TrackpadButton::Left }),
        "{\"TrackpadClick\":{\"button\":\"Left\"}}"
    );
    assert_eq!(
        encode(RemoteCommand::TrackpadClick { button: TrackpadButton::Right }),
        "{\"TrackpadClick\":{\"button\":\"Right\"}}"
    );
    assert_eq!(
        encode(RemoteCommand::TrackpadClick { button: TrackpadButton::Middle }),
        "{\"TrackpadClick\":{\"button\":\"Middle\"}}"
    );
    assert_eq!(
        encode(RemoteCommand::CecActiveSource { physical_address: [1, 2, 3, 4] }),
        "{\"CecActiveSource\":{\"physical_address\":[1,2,3,4]}}"
    );
    assert_eq!(
        encode(RemoteCommand::CecActiveSource { physical_address: [255, 0, 16, 9] }),
        "{\"CecActiveSource\":{\"physical_address\":[255,0,16,9]}}"
    );
    assert_eq!(encode(RemoteCommand::CecImageViewOn), "\"CecImageViewOn\"");
    assert_eq!(encode(RemoteCommand::CecActiveSourceSelf), "\"CecActiveSourceSelf\"");
    assert_eq!(encode(RemoteCommand::CecStandby), "\"CecStandby\"");
    assert_eq!(encode(RemoteCommand::MpdPlayPause), "\"MpdPlayPause\"");
    assert_eq!(encode(RemoteCommand::MpdNext), "\"MpdNext\"");
    assert_eq!(encode(RemoteCommand::MpdPrevious), "\"MpdPrevious\"");
}

#[test]
fn encode_writes_the_extremes_of_a_delta() {
    assert_eq!(
        encode(RemoteCommand::TrackpadMove { delta_x: i32::MIN, delta_y: i32::MAX }),
        "{\"TrackpadMove\":{\"delta_x\":-2147483648,\"delta_y\":2147483647}}"
    );
}

#[test]
fn decode_reads_the_documented_text() {
    assert_eq!(
        decode("{\"TrackpadMove\":{\"delta_x\":-5,\"delta_y\":3}}", refusal()),
        Ok(RemoteCommand::TrackpadMove { delta_x: -5, delta_y: 3 })
    );
    assert_eq!(
        decode("{\"TrackpadScroll\":{\"delta_x\":-2147483648,\"delta_y\":2147483647}}", refusal()),
        Ok(RemoteCommand::TrackpadScroll { delta_x: i32::MIN, delta_y: i32::MAX })
    );
    assert_eq!(
        decode("{\"TrackpadClick\":{\"button\":\"Middle\"}}", refusal()),
        Ok(RemoteCommand::TrackpadClick { button: TrackpadButton::Middle })
    );
    assert_eq!(
        decode("{\"CecActiveSource\":{\"physical_address\":[1,2,3,4]}}", refusal()),
        Ok(RemoteCommand::CecActiveSource { physical_address: [1, 2, 3, 4] })
    );
    assert_eq!(decode("\"MpdNext\"", refusal()), Ok(RemoteCommand::MpdNext));
}

#[test]
fn decode_does_not_check_the_range_of_an_address_digit() {
    assert_eq!(
        decode("{\"CecActiveSource\":{\"physical_address\":[16,200,255,0]}}", refusal()),
        Ok(RemoteCommand::CecActiveSource { physical_address: [16, 200, 255, 0] })
    );
}

#[test]
fn decode_passes_on_the_refusal_of_the_reader() {
    let refused = [
        "",
        " ",
        "garbage",
        "{}",
        "[]",
        "null",
        "42",
        "\"",
        "\"\"",
        "\"VolumeUp\"",
        "\"cecstandby\"",
        "\"CecStandby",
        "CecStandby",
        "\"CecStandby\"\"",
        "\"TrackpadMove\"",
        "{\"VolumeUp\":{\"amount\":1}}",
        "{\"TrackpadMove\":{}}",
        "{\"TrackpadMove\":{\"delta_x\":1}}",
        "{\"TrackpadMove\":{\"delta_x\":1,\"delta_y\":}}",
        "{\"TrackpadMove\":{\"delta_x\":,\"delta_y\":2}}",
        "{\"TrackpadMove\":{\"delta_x\":1,\"delta_y\":2}",
        "{\"TrackpadMove\":{\"delta_x\":1,\"delta_y\":2}}}",
        "{\"TrackpadMove\":{\"delta_x\":1,\"delta_z\":2}}",
        "{\"TrackpadMove\":{\"delta_x\":1;\"delta_y\":2}}",
        "{\"TrackpadMove\":{\"delta_x\":x,\"delta_y\":2}}",
        "{\"TrackpadMove\":{\"delta_x\":\"1\",\"delta_y\":2}}",
        "{\"TrackpadMove\":{\"delta_x\":1.5,\"delta_y\":2}}",
        "{\"TrackpadMove\":{\"delta_x\":1e2,\"delta_y\":2}}",
        "{\"TrackpadMove\":{\"delta_x\":+1,\"delta_y\":2}}",
        "{\"TrackpadMove\":{\"delta_x\":--1,\"delta_y\":2}}",
        "{\"TrackpadMove\":{\"delta_x\":-,\"delta_y\":2}}",
        "{\"TrackpadClick\":{\"button\":\"Left\"}",
        "{\"TrackpadClick\":{\"button\":\"left\"}}",
        "{\"TrackpadClick\":{\"button\":\"Lef\"}}",
        "{\"TrackpadClick\":{\"button\":\"Leftmost\"}}",
        "{\"TrackpadClick\":{\"button\":\"Back\"}}",
        "{\"TrackpadClick\":{\"button\":\"\"}}",
        "{\"TrackpadClick\":{\"button\":Left}}",
        "{\"TrackpadClick\":{\"button\":0}}",
        "{\"CecActiveSource\":{\"physical_address\":[]}}",
        "{\"CecActiveSource\":{\"physical_address\":[1,2,3]}}",
        "{\"CecActiveSource\":{\"physical_address\":[1,2,3,4,5]}}",
        "{\"CecActiveSource\":{\"physical_address\":[1,2,3,-4]}}",
        "{\"CecActiveSource\":{\"physical_address\":[1,2,3,4]}",
        "{\"CecActiveSource\":{\"physical_address\":[1;2;3;4]}}",
        "{\"CecActiveSource\":{\"physical_address\":1}}",
        "{\"CecStandby\"}",
        "{\"MpdNext\":{}}",
        "\u{feff}\"CecStandby\"",
        "\"CecStandby\"\u{0}",
        "\"MpdN\u{e9}xt\"",
    ];
    for text in refused {
        assert_eq!(decode(text, refusal()), passed_on(), "{text:?}");
    }
}

#[test]
fn a_number_outside_its_field_was_not_written_by_encode() {
    let refused = [
        "{\"TrackpadMove\":{\"delta_x\":2147483648,\"delta_y\":0}}",
        "{\"TrackpadMove\":{\"delta_x\":0,\"delta_y\":-2147483649}}",
        "{\"TrackpadMove\":{\"delta_x\":99999999999999999999999999,\"delta_y\":0}}",
        "{\"TrackpadScroll\":{\"delta_x\":0,\"delta_y\":4294967296}}",
        "{\"CecActiveSource\":{\"physical_address\":[256,0,0,0]}}",
        "{\"CecActiveSource\":{\"physical_address\":[0,0,0,1000]}}",
    ];
    for text in refused {
        assert_eq!(decode(text, refusal()), passed_on(), "{text:?}");
    }
}

#[test]
fn another_spelling_of_a_number_was_not_written_by_encode() {
    let refused = [
        "{\"TrackpadMove\":{\"delta_x\":-0,\"delta_y\":0}}",
        "{\"TrackpadMove\":{\"delta_x\":01,\"delta_y\":0}}",
        "{\"TrackpadMove\":{\"delta_x\":0,\"delta_y\":007}}",
        "{\"TrackpadMove\":{\"delta_x\":-01,\"delta_y\":0}}",
        "{\"CecActiveSource\":{\"physical_address\":[01,2,3,4]}}",
        "{\"CecActiveSource\":{\"physical_address\":[1,2,3,04]}}",
    ];
    for text in refused {
        assert_eq!(decode(text, refusal()), passed_on(), "{text:?}");
    }
}

#[test]
fn decode_tells_a_motion_from_a_scroll() {
    let motion = decode("{\"TrackpadMove\":{\"delta_x\":1,\"delta_y\":2}}", refusal());
    let scroll = decode("{\"TrackpadScroll\":{\"delta_x\":1,\"delta_y\":2}}", refusal());
    assert_eq!(motion, Ok(RemoteCommand::TrackpadMove { delta_x: 1, delta_y: 2 }));
    assert_eq!(scroll, Ok(RemoteCommand::TrackpadScroll { delta_x: 1, delta_y: 2 }));
    assert_ne!(motion, scroll);
}

#[test]
fn no_two_commands_share_a_text() {
    let all = samples();
    for (i, first) in all.iter().enumerate() {
        for second in all.iter().skip(i + 1) {
            if first != second {
                assert_ne!(encode(*first), encode(*second));
            }
        }
    }
}

#[test]
fn decode_takes_a_long_frame_without_harm() {
    let long = "9".repeat(200_000);
    let text = format!("{{\"TrackpadMove\":{{\"delta_x\":{long},\"delta_y\":0}}}}");
    assert_eq!(decode(&text, refusal()), passed_on());
    let padded = format!("\"CecStandby\"{}", " ".repeat(200_000));
    assert_eq!(decode(&padded, Ok(RemoteCommand::CecStandby)), Ok(RemoteCommand::CecStandby));
}
