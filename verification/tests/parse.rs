use rs_keymap_parser::parse::{keymap_lines, parse_keymap_lines, KeyBinding};
use rs_keymap_parser::parse_line;

#[test]
fn parse_line_with_override() {
    let line =
        "KEY 1 85 40760 4    # Main (alt-4) : U : OVERRIDE DEFAULT : Edit: Dynamic split items...";
    let kb = parse_line(line).expect("should parse successfully");

    assert_eq!(kb.device, 1);
    assert_eq!(kb.key_code, 85);
    assert_eq!(kb.command_id, 40760);
    assert_eq!(kb.flags, 4);

    assert_eq!(kb.context, "Main (alt-4)");
    assert_eq!(kb.shortcut, "U");
    assert!(kb.override_default);
    assert_eq!(kb.description, "Edit: Dynamic split items...");
}

#[test]
fn parse_line_without_override() {
    let line = "KEY 37 71 40771 4  # Main (alt-4) : Shift+Control+G : Track: Toggle all track grouping enabled";
    let kb = parse_line(line).expect("should parse successfully");

    assert_eq!(kb.device, 37);
    assert_eq!(kb.key_code, 71);
    assert_eq!(kb.command_id, 40771);
    assert_eq!(kb.flags, 4);

    assert_eq!(kb.context, "Main (alt-4)");
    assert_eq!(kb.shortcut, "Shift+Control+G");
    assert!(!kb.override_default);
    assert_eq!(kb.description, "Track: Toggle all track grouping enabled");
}

#[test]
fn parse_line_empty_shortcut() {
    let line = "KEY 255 12520 1013 0  # Main :  : Transport: Record";
    let kb = parse_line(line).expect("should parse successfully");

    assert_eq!(kb.device, 255);
    assert_eq!(kb.key_code, 12520);
    assert_eq!(kb.command_id, 1013);
    assert_eq!(kb.flags, 0);

    assert_eq!(kb.context, "Main");
    assert_eq!(kb.shortcut, "");
    assert!(!kb.override_default);
    assert_eq!(kb.description, "Transport: Record");
}

#[test]
fn parse_line_fails_on_malformed() {
    let bad = "NOT_A_KEY_LINE";
    assert!(parse_line(bad).is_none());
}

#[test]
fn round_trip_parse_and_serialize() {
    let lines = [
        "KEY 1 85 40760 4    # Main (alt-4) : U : OVERRIDE DEFAULT : Edit: Dynamic split items...",
        "KEY 37 71 40771 4  # Main (alt-4) : Shift+Control+G : Track: Toggle all track grouping enabled",
        "KEY 255 12520 1013 0  # Main :  : Transport: Record",
    ];

    let parsed: Vec<KeyBinding> =
        lines.iter().map(|&l| parse_line(l).expect("parse_line failed")).collect();

    let serialized: Vec<String> = parsed.iter().map(KeyBinding::to_line).collect();

    let reparsed: Vec<KeyBinding> =
        serialized.iter().map(|l| parse_line(l).expect("reparse failed")).collect();

    assert_eq!(parsed, reparsed);
}

fn sample_bindings() -> Vec<KeyBinding> {
    vec![
        KeyBinding {
            device: 1,
            key_code: 85,
            command_id: 40760,
            flags: 4,
            context: "Main (alt-4)".into(),
            shortcut: "U".into(),
            override_default: true,
            description: "Edit: Dynamic split items...".into(),
        },
        KeyBinding {
            device: 37,
            key_code: 71,
            command_id: 40771,
            flags: 4,
            context: "Main (alt-4)".into(),
            shortcut: "T".into(),
            override_default: false,
            description: "Track: Toggle all track grouping enabled".into(),
        },
        KeyBinding {
            device: 255,
            key_code: 12520,
            command_id: 1013,
            flags: 0,
            context: "Main".into(),
            shortcut: "A".into(),
            override_default: false,
            description: "Transport: Record".into(),
        },
    ]
}

#[test]
fn test_write_from_struct() {
    let bindings = sample_bindings();
    let generated = keymap_lines(&bindings);
    let expected = vec![
        "KEY 1 85 40760 4 # Main (alt-4) : U : OVERRIDE DEFAULT : Edit: Dynamic split items...",
        "KEY 37 71 40771 4 # Main (alt-4) : T : Track: Toggle all track grouping enabled",
        "KEY 255 12520 1013 0 # Main : A : Transport: Record",
    ];
    assert_eq!(generated, expected, "Generated keymap did not match expected");
}

#[test]
fn binding_lines_are_read_in_order_and_others_left_out() {
    let lines: Vec<String> = vec![
        "# a comment".to_string(),
        "KEY 1 85 40760 4 # Main (alt-4) : U : OVERRIDE DEFAULT : Edit: Dynamic split items..."
            .to_string(),
        "".to_string(),
        "KEY 1 82 1013 0".to_string(),
        "KEY 37 71 40771 4 # Main (alt-4) : T : Track: Toggle all track grouping enabled"
            .to_string(),
        "SCR 4 0 x \"y\" z".to_string(),
        "KEY 255 12520 1013 0 # Main : A : Transport: Record".to_string(),
    ];
    assert_eq!(parse_keymap_lines(&lines), sample_bindings());
    assert_eq!(parse_keymap_lines(&Vec::new()), Vec::new());
}

#[test]
fn binding_line_needs_numbers_that_fit() {
    assert!(parse_line("KEY 1 85 4294967295 4 # Main : U : x").is_some());
    assert!(parse_line("KEY 1 85 4294967296 4 # Main : U : x").is_none());
    assert!(parse_line("KEY 99999999999 85 1 4 # Main : U : x").is_none());
    assert!(parse_line("KEY 1 85 _SWS 4 # Main : U : x").is_none());
    assert!(parse_line("KEY 1 85 1 4 # Main : U").is_none());
    assert!(parse_line("KEY 1 85 1 4").is_none());
    assert!(parse_line(" KEY 1 85 1 4 # Main : U : x").is_none());
}

#[test]
fn binding_from_groups() {
    let some = |s: &str| Some(s.to_string());
    let groups = vec![
        some("whole"),
        some("1"),
        some("+2"),
        some("3"),
        some("4"),
        some("  ctx "),
        some(""),
        None,
        some(" d "),
    ];
    let b = KeyBinding::from_captures(&groups).unwrap();
    assert_eq!(b.device, 1);
    assert_eq!(b.key_code, 2);
    assert_eq!(b.command_id, 3);
    assert_eq!(b.flags, 4);
    assert_eq!(b.context, "ctx");
    assert_eq!(b.shortcut, "");
    assert!(!b.override_default);
    assert_eq!(b.description, "d");

    let mut marked = groups.clone();
    marked[7] = some("OVERRIDE DEFAULT");
    assert!(KeyBinding::from_captures(&marked).unwrap().override_default);

    let mut short = groups.clone();
    short.pop();
    assert_eq!(KeyBinding::from_captures(&short), None);

    for i in [1, 2, 3, 4, 5, 6, 8] {
        let mut absent = groups.clone();
        absent[i] = None;
        assert_eq!(KeyBinding::from_captures(&absent), None);
    }
    let mut bad = groups.clone();
    bad[3] = some("x");
    assert_eq!(KeyBinding::from_captures(&bad), None);
}
