use rot360::{get_keyboards, keyboards_among, Backend, Error, InputDevice};

fn device(kind: Option<&str>, identifier: &str) -> InputDevice {
    InputDevice { kind: kind.map(|kind| kind.to_string()), identifier: identifier.to_string() }
}

const LISTING: &str = r#"[
  {
    "identifier": "1:1:AT_Translated_Set_2_keyboard",
    "name": "AT Translated Set 2 keyboard",
    "vendor": 1,
    "product": 1,
    "type": "keyboard",
    "xkb_active_layout_name": "English (US)",
    "libinput": { "send_events": "enabled" }
  },
  {
    "identifier": "1267:12608:ELAN0672:00_04F3:3140_Touchpad",
    "name": "ELAN0672:00 04F3:3140 Touchpad",
    "type": "touchpad"
  },
  {
    "identifier": "0:3:Sleep_Button",
    "name": "Sleep Button",
    "type": "keyboard"
  },
  {
    "identifier": "1386:18830:Wacom_Pen_and_multitouch_sensor_Finger",
    "type": "touch"
  }
]"#;

#[test]
fn keyboards_are_picked_out_of_the_listing() {
    assert_eq!(
        get_keyboards(&Backend::Sway, LISTING),
        Ok(vec![
            "\"1:1:AT_Translated_Set_2_keyboard\"".to_string(),
            "\"0:3:Sleep_Button\"".to_string(),
        ])
    );
}

#[test]
fn identifiers_are_written_as_json() {
    let listing = r#"[{"type":"keyboard","identifier":"a \"quoted\" name\\"},
                      {"type":"keyboard","identifier":42},
                      {"type":"keyboard","identifier":null},
                      {"type":"keyboard"},
                      {"type":"keyboard","identifier":["x",{"y":true}]}]"#;
    assert_eq!(
        get_keyboards(&Backend::Sway, listing),
        Ok(vec![
            r#""a \"quoted\" name\\""#.to_string(),
            "42".to_string(),
            "null".to_string(),
            "null".to_string(),
            r#"["x",{"y":true}]"#.to_string(),
        ])
    );
}

#[test]
fn listing_without_keyboards_gives_none() {
    assert_eq!(get_keyboards(&Backend::Sway, "[]"), Ok(Vec::new()));
    assert_eq!(
        get_keyboards(&Backend::Sway, r#"[{"type":"pointer","identifier":"p"}]"#),
        Ok(Vec::new())
    );
    assert_eq!(
        get_keyboards(&Backend::Sway, r#"[{"type":"Keyboard","identifier":"k"}]"#),
        Ok(Vec::new())
    );
}

#[test]
fn listing_that_is_no_json_array_is_a_failure() {
    for listing in ["", "not json", "{}", "[", "[1,]", r#"{"type":"keyboard"}"#, "[] trailing"] {
        assert_eq!(
            get_keyboards(&Backend::Sway, listing),
            Err(Error::ExternalCommandFailure),
            "listing {:?}",
            listing
        );
    }
}

#[test]
fn device_without_a_textual_type_is_a_failure() {
    for listing in [
        r#"[{"identifier":"k"}]"#,
        r#"[{"type":7,"identifier":"k"}]"#,
        r#"[{"type":null,"identifier":"k"}]"#,
        r#"[{"type":"keyboard","identifier":"k"},{"identifier":"l"}]"#,
        r#"[{"type":"keyboard","identifier":"k"}, 5]"#,
        r#"[[]]"#,
    ] {
        assert_eq!(
            get_keyboards(&Backend::Sway, listing),
            Err(Error::ExternalCommandFailure),
            "listing {:?}",
            listing
        );
    }
}

#[test]
fn windowing_system_has_no_keyboards_to_toggle() {
    assert_eq!(get_keyboards(&Backend::Xorg, LISTING), Ok(Vec::new()));
    assert_eq!(get_keyboards(&Backend::Xorg, "not json"), Ok(Vec::new()));
    assert_eq!(get_keyboards(&Backend::Xorg, ""), Ok(Vec::new()));
}

#[test]
fn keyboards_among_devices_keep_their_order() {
    let devices = vec![
        device(Some("keyboard"), "first"),
        device(Some("pointer"), "mouse"),
        device(Some("keyboard"), "second"),
        device(Some("touch"), "screen"),
        device(Some("keyboard"), "first"),
    ];
    assert_eq!(
        keyboards_among(&devices),
        Some(vec!["first".to_string(), "second".to_string(), "first".to_string()])
    );
}

#[test]
fn keyboards_among_no_devices_are_none() {
    assert_eq!(keyboards_among(&Vec::new()), Some(Vec::new()));
    assert_eq!(keyboards_among(&vec![device(Some("tablet_tool"), "pen")]), Some(Vec::new()));
    assert_eq!(keyboards_among(&vec![device(Some("keyboards"), "k")]), Some(Vec::new()));
    assert_eq!(keyboards_among(&vec![device(Some(""), "k")]), Some(Vec::new()));
}

#[test]
fn keyboards_among_untyped_devices_are_refused() {
    assert_eq!(keyboards_among(&vec![device(None, "k")]), None);
    assert_eq!(
        keyboards_among(&vec![device(Some("keyboard"), "k"), device(None, "l")]),
        None
    );
    assert_eq!(
        keyboards_among(&vec![device(None, "l"), device(Some("keyboard"), "k")]),
        None
    );
}
