use rs_keymap_parser::special_inputs::SpecialInput;

#[test]
fn test_mousewheel_parsing() {
    assert_eq!(SpecialInput::from_key_code(248), SpecialInput::Mousewheel);
    assert_eq!(SpecialInput::from_key_code(120), SpecialInput::Mousewheel);
    assert_eq!(SpecialInput::from_key_code(249), SpecialInput::CtrlMousewheel);
    assert_eq!(SpecialInput::from_key_code(250), SpecialInput::AltMousewheel);
}

#[test]
fn test_horizontal_wheel_parsing() {
    assert_eq!(SpecialInput::from_key_code(216), SpecialInput::HorizWheel);
    assert_eq!(SpecialInput::from_key_code(218), SpecialInput::AltHorizWheel);
    assert_eq!(SpecialInput::from_key_code(217), SpecialInput::CtrlHorizWheel);
}

#[test]
fn test_round_trip() {
    let inputs = vec![
        SpecialInput::Mousewheel,
        SpecialInput::AltHorizWheel,
        SpecialInput::CtrlMultiZoom,
        SpecialInput::MultiVert,
    ];

    for input in inputs {
        let key_code = input.to_key_code();
        let parsed = SpecialInput::from_key_code(key_code);
        assert_eq!(input, parsed);
    }
}

const OLDER_CODES: [u16; 14] = [24, 25, 40, 56, 72, 73, 74, 88, 90, 120, 121, 122, 123, 125];

#[test]
fn every_code_reads_and_writes_back() {
    for code in 0..=u16::MAX {
        let input = SpecialInput::from_key_code(code);
        if OLDER_CODES.contains(&code) {
            assert_eq!(input.to_key_code(), code + 128);
        } else {
            assert_eq!(input.to_key_code(), code);
        }
        assert_eq!(SpecialInput::from_key_code(input.to_key_code()), input);
    }
}

#[test]
fn codes_outside_the_table_are_kept() {
    assert_eq!(SpecialInput::from_key_code(0), SpecialInput::Unknown(0));
    assert_eq!(SpecialInput::from_key_code(231), SpecialInput::Unknown(231));
    assert_eq!(SpecialInput::from_key_code(232), SpecialInput::MediaKey(232));
    assert_eq!(SpecialInput::from_key_code(233), SpecialInput::Unknown(233));
    assert_eq!(SpecialInput::from_key_code(487), SpecialInput::Unknown(487));
    assert_eq!(SpecialInput::from_key_code(488), SpecialInput::MediaKey(488));
    assert_eq!(SpecialInput::from_key_code(12520), SpecialInput::MediaKey(12520));
    assert_eq!(SpecialInput::MediaKey(5).to_key_code(), 5);
    assert_eq!(SpecialInput::Unknown(700).to_key_code(), 700);
}

#[test]
fn special_input_names() {
    assert_eq!(SpecialInput::Mousewheel.to_string(), "Mousewheel");
    assert_eq!(SpecialInput::CtrlAltShiftMousewheel.to_string(), "Ctrl+Alt+Shift+Mousewheel");
    assert_eq!(SpecialInput::AltHorizWheel.to_string(), "Alt+HorizWheel");
    assert_eq!(SpecialInput::CtrlAltShiftMultiZoom.to_string(), "Ctrl+Alt+Shift+MultiZoom");
    assert_eq!(SpecialInput::CtrlMultiRotate.to_string(), "Ctrl+MultiRotate");
    assert_eq!(SpecialInput::MultiHorz.to_string(), "MultiHorz");
    assert_eq!(SpecialInput::MediaKey(232).to_string(), "MediaKey(232)");
    assert_eq!(SpecialInput::Unknown(7).to_string(), "Unknown(7)");
    assert_eq!(SpecialInput::Unknown(0).to_string(), "Unknown(0)");
    assert_eq!(SpecialInput::MediaKey(65535).to_string(), "MediaKey(65535)");
}

#[test]
fn known_inputs_have_their_codes() {
    let table = [
        (SpecialInput::Mousewheel, 248),
        (SpecialInput::CtrlMousewheel, 249),
        (SpecialInput::AltMousewheel, 250),
        (SpecialInput::CtrlAltMousewheel, 251),
        (SpecialInput::ShiftMousewheel, 252),
        (SpecialInput::CtrlShiftMousewheel, 253),
        (SpecialInput::AltShiftMousewheel, 254),
        (SpecialInput::CtrlAltShiftMousewheel, 255),
        (SpecialInput::HorizWheel, 216),
        (SpecialInput::CtrlHorizWheel, 217),
        (SpecialInput::AltHorizWheel, 218),
        (SpecialInput::CtrlAltHorizWheel, 219),
        (SpecialInput::ShiftHorizWheel, 220),
        (SpecialInput::CtrlShiftHorizWheel, 221),
        (SpecialInput::AltShiftHorizWheel, 222),
        (SpecialInput::CtrlAltShiftHorizWheel, 223),
        (SpecialInput::MultiZoom, 200),
        (SpecialInput::CtrlMultiZoom, 201),
        (SpecialInput::AltMultiZoom, 202),
        (SpecialInput::CtrlAltShiftMultiZoom, 207),
        (SpecialInput::MultiRotate, 152),
        (SpecialInput::CtrlMultiRotate, 153),
        (SpecialInput::MultiHorz, 168),
        (SpecialInput::MultiVert, 184),
    ];
    for (input, code) in table {
        assert_eq!(input.to_key_code(), code);
        assert_eq!(SpecialInput::from_key_code(code), input);
    }
}
