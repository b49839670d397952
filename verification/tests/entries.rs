use rs_keymap_parser::action_list::{
    escape_field, ActionEntry, ActionFlags, Comment, KeyEntry, KeyInputType, ParseError,
    ReaperEntry, ScriptEntry, TerminationBehavior,
};
use rs_keymap_parser::keycodes::KeyCode;
use rs_keymap_parser::modifiers::Modifiers;
use rs_keymap_parser::sections::ReaperActionSection;
use rs_keymap_parser::special_inputs::SpecialInput;

fn script(command: &str, description: &str, path: &str) -> ReaperEntry {
    ReaperEntry::Script(ScriptEntry {
        termination_behavior: TerminationBehavior::TerminateExisting,
        section: ReaperActionSection::MidiEditor,
        command_id: command.to_string(),
        description: description.to_string(),
        path: path.to_string(),
    })
}

fn action(flags: u32, command: &str, description: &str, ids: &[&str]) -> ReaperEntry {
    ReaperEntry::Action(ActionEntry {
        action_flags: ActionFlags::from_bits_truncate(flags),
        section: ReaperActionSection::MainAlt3,
        command_id: command.to_string(),
        description: description.to_string(),
        action_ids: ids.iter().map(|s| s.to_string()).collect(),
    })
}

fn error_of(line: &str) -> ParseError {
    match ReaperEntry::from_line(line) {
        Ok(e) => panic!("{:?} was read as {:?}", line, e),
        Err(e) => e,
    }
}

#[test]
fn quoting_disambiguation() {
    let a = ReaperEntry::from_line(
        r#"SCR 4 0 "_Script: Test" "Some description" /path/to/x.lua"#,
    )
    .unwrap();
    assert_eq!(
        a,
        ReaperEntry::Script(ScriptEntry {
            termination_behavior: TerminationBehavior::Prompt,
            section: ReaperActionSection::Main,
            command_id: "_Script: Test".to_string(),
            description: "Some description".to_string(),
            path: "/path/to/x.lua".to_string(),
        })
    );
    let b = ReaperEntry::from_line(r#"SCR 4 0 _Script_Test "My Test" "/path with spaces/x.lua""#)
        .unwrap();
    assert_eq!(
        b,
        ReaperEntry::Script(ScriptEntry {
            termination_behavior: TerminationBehavior::Prompt,
            section: ReaperActionSection::Main,
            command_id: "_Script_Test".to_string(),
            description: "My Test".to_string(),
            path: "/path with spaces/x.lua".to_string(),
        })
    );
}

#[test]
fn rejected_lines_have_distinct_errors() {
    match error_of("INVALID_TAG 1 2 3") {
        ParseError::InvalidTag(t) => assert_eq!(t, "INVALID_TAG"),
        other => panic!("unexpected {:?}", other),
    }
    match error_of("KEY") {
        ParseError::MissingField { tag, field } => {
            assert_eq!(tag, "KEY");
            assert_eq!(field, "modifiers");
        }
        other => panic!("unexpected {:?}", other),
    }
    match error_of("KEY abc 65 40044 0") {
        ParseError::InvalidNumber { tag, field, err } => {
            assert_eq!(tag, "KEY");
            assert_eq!(field, "modifiers");
            assert_eq!(err, "invalid digit found in string");
        }
        other => panic!("unexpected {:?}", other),
    }
    match error_of("SCR 999 0 test desc path") {
        ParseError::InvalidTermination(n) => assert_eq!(n, 999),
        other => panic!("unexpected {:?}", other),
    }
}

fn missing(line: &str, want_tag: &str, want_field: &str) {
    match error_of(line) {
        ParseError::MissingField { tag, field } => {
            assert_eq!((tag, field), (want_tag, want_field), "for {:?}", line);
        }
        other => panic!("unexpected {:?} for {:?}", other, line),
    }
}

fn bad_number(line: &str, want_tag: &str, want_field: &str, want_err: &str) {
    match error_of(line) {
        ParseError::InvalidNumber { tag, field, err } => {
            assert_eq!((tag, field, err.as_str()), (want_tag, want_field, want_err), "{:?}", line);
        }
        other => panic!("unexpected {:?} for {:?}", other, line),
    }
}

#[test]
fn each_missing_field_is_named() {
    missing("", "<line>", "tag");
    missing("   \t ", "<line>", "tag");
    missing("# only a comment", "<line>", "tag");
    missing("  # KEY 1 65 40044 0", "<line>", "tag");
    missing("KEY 1", "KEY", "key_code");
    missing("KEY 1 65", "KEY", "command_id");
    missing("KEY 1 65 40044", "KEY", "section");
    missing("KEY 1 65 40044 # 0", "KEY", "section");
    missing("SCR", "SCR", "termination");
    missing("SCR 4", "SCR", "section");
    missing("SCR 4 0", "SCR", "description");
    missing("SCR 4 0 cmd desc path", "SCR", "description");
    missing("SCR 4 0 cmd \"desc", "SCR", "description");
    missing("SCR 4 0 \"cmd\" path", "SCR", "description");
    missing("SCR 4 0 \"cmd\" \"desc", "SCR", "description");
    missing("SCR 4 0  \"d\" p", "SCR", "description");
    missing("ACT", "ACT", "flags");
    missing("ACT 1", "ACT", "section");
    missing("ACT 1 0", "ACT", "command_id/description");
    missing("ACT 1 0 \"cmd\" desc", "ACT", "command_id/description");
    missing("ACT 1 0 \"cmd\"", "ACT", "command_id/description");
}

#[test]
fn each_bad_number_is_named() {
    bad_number("KEY 256 65 1 0", "KEY", "modifiers", "number too large to fit in target type");
    bad_number("KEY -1 65 1 0", "KEY", "modifiers", "invalid digit found in string");
    bad_number("KEY + 65 1 0", "KEY", "modifiers", "invalid digit found in string");
    bad_number("KEY 1x 65 1 0", "KEY", "modifiers", "invalid digit found in string");
    bad_number("KEY 999x 65 1 0", "KEY", "modifiers", "number too large to fit in target type");
    bad_number("KEY 25x9 65 1 0", "KEY", "modifiers", "invalid digit found in string");
    bad_number("KEY 1 65536 1 0", "KEY", "key_code", "number too large to fit in target type");
    bad_number("KEY 1 6.5 1 0", "KEY", "key_code", "invalid digit found in string");
    bad_number("KEY 1 65 1 4294967296", "KEY", "section", "number too large to fit in target type");
    bad_number("KEY 1 65 1 main", "KEY", "section", "invalid digit found in string");
    bad_number("SCR four 0 c \"d\" p", "SCR", "termination", "invalid digit found in string");
    bad_number("SCR 4 0\"c\" \"d\" p", "SCR", "section", "invalid digit found in string");
    bad_number("ACT 0x10 0 \"c\" \"d\"", "ACT", "flags", "invalid digit found in string");
    bad_number("ACT 1 \"c\" \"d\"", "ACT", "section", "invalid digit found in string");
}

#[test]
fn each_code_outside_its_table_is_named() {
    assert!(matches!(error_of("KEY 0 65 1 0"), ParseError::InvalidModifierCode(0)));
    assert!(matches!(error_of("KEY 2 65 1 0"), ParseError::InvalidModifierCode(2)));
    assert!(matches!(error_of("KEY 129 65 1 0"), ParseError::InvalidModifierCode(129)));
    assert!(matches!(error_of("KEY 1 7 1 0"), ParseError::InvalidKeyCode(7)));
    assert!(matches!(error_of("KEY 1 300 1 0"), ParseError::InvalidKeyCode(300)));
    assert!(matches!(error_of("KEY 1 65 1 17"), ParseError::InvalidSectionCode(17)));
    assert!(matches!(error_of("SCR 4 32064 c \"d\" p"), ParseError::InvalidSectionCode(32064)));
    assert!(matches!(error_of("ACT 0 99 \"c\" \"d\""), ParseError::InvalidSectionCode(99)));
    assert!(matches!(error_of("SCR 5 0 c \"d\" p"), ParseError::InvalidTermination(5)));
    // The first field that stands in the way decides.
    assert!(matches!(error_of("KEY 0 x"), ParseError::InvalidModifierCode(0)));
    assert!(matches!(error_of("KEY 1 7"), ParseError::InvalidKeyCode(7)));
    match error_of("key 1 65 1 0") {
        ParseError::InvalidTag(t) => assert_eq!(t, "key"),
        other => panic!("unexpected {:?}", other),
    }
    match error_of("KEY1 65 1 0") {
        ParseError::InvalidTag(t) => assert_eq!(t, "KEY1"),
        other => panic!("unexpected {:?}", other),
    }
}

#[test]
fn error_messages() {
    assert_eq!(error_of("KEY").to_string(), "KEY entry missing field modifiers");
    assert_eq!(
        error_of("KEY abc 65 1 0").to_string(),
        "KEY entry invalid number in modifiers: invalid digit found in string"
    );
    assert_eq!(error_of("KEY 0 65 1 0").to_string(), "invalid modifier code 0");
    assert_eq!(error_of("KEY 1 300 1 0").to_string(), "invalid key code 300");
    assert_eq!(error_of("KEY 1 65 1 17").to_string(), "invalid section code 17");
    assert_eq!(error_of("SCR 999 0 c").to_string(), "invalid termination behavior 999");
    assert_eq!(error_of("NOPE 1").to_string(), "invalid entry tag: NOPE");
    let io = ParseError::from(std::io::Error::new(std::io::ErrorKind::Other, "disk on fire"));
    assert!(matches!(io, ParseError::IoError(_)));
    assert_eq!(io.to_string(), "I/O error: disk on fire");
    let n = ParseError::from(rs_keymap_parser::decimal::NumberError::Empty);
    assert_eq!(
        n.to_string(),
        "<number> entry invalid number in <value>: cannot parse integer from empty string"
    );
}

#[test]
fn key_line_is_read_with_its_comment() {
    let e = ReaperEntry::from_line(
        "  KEY 13 77 _SWS_TOGGLE 32060   # MIDI Editor : Cmd+Shift+M : OVERRIDE DEFAULT : Track: Mute (x) # more",
    )
    .unwrap();
    assert_eq!(
        e,
        ReaperEntry::Key(KeyEntry {
            modifiers: Modifiers::super_key() | Modifiers::shift(),
            key_input: KeyInputType::Regular(KeyCode::M),
            command_id: "_SWS_TOGGLE".to_string(),
            section: ReaperActionSection::MidiEditor,
            comment: Some(Comment {
                section: "MIDI Editor".to_string(),
                key_combination: "Cmd+Shift+M".to_string(),
                behavior_flag: Some("OVERRIDE DEFAULT".to_string()),
                action_description: Some("Track: Mute (x) # more".to_string()),
                parsed_action_name: Some("Track: Mute".to_string()),
                is_midi_relative: false,
            }),
        })
    );
    // Tokens after the section are not looked at; a comment that is none is dropped.
    let e = ReaperEntry::from_line("KEY +1 +32 0 +0 extra tokens #not a comment").unwrap();
    assert_eq!(
        e,
        ReaperEntry::Key(KeyEntry {
            modifiers: Modifiers::empty(),
            key_input: KeyInputType::Regular(KeyCode::Space),
            command_id: "0".to_string(),
            section: ReaperActionSection::Main,
            comment: None,
        })
    );
}

#[test]
fn special_inputs_go_with_the_sentinel_only() {
    let e = ReaperEntry::from_line("KEY 255 120 989 0").unwrap();
    match &e {
        ReaperEntry::Key(k) => {
            assert_eq!(k.modifiers, Modifiers::special_input());
            assert_eq!(k.key_input, KeyInputType::Special(SpecialInput::Mousewheel));
        }
        other => panic!("unexpected {:?}", other),
    }
    // The older code is written back as the current one.
    assert_eq!(e.to_line(), "KEY 255 248 989 0 # Main : Mousewheel : OVERRIDE DEFAULT");
    // Any code is a special input next to 255, and is kept.
    let e = ReaperEntry::from_line("KEY 255 7 989 0").unwrap();
    match &e {
        ReaperEntry::Key(k) => {
            assert_eq!(k.key_input, KeyInputType::Special(SpecialInput::Unknown(7)))
        }
        other => panic!("unexpected {:?}", other),
    }
    assert_eq!(e.to_line(), "KEY 255 7 989 0 # Main : Unknown(7) : OVERRIDE DEFAULT");
    let e = ReaperEntry::from_line("KEY 255 65535 989 0").unwrap();
    assert_eq!(e.to_line(), "KEY 255 65535 989 0 # Main : MediaKey(65535) : OVERRIDE DEFAULT");
    // A wheel code next to keyboard modifiers is read as a key code.
    assert!(matches!(error_of("KEY 1 248 989 0"), ParseError::InvalidKeyCode(248)));
}

#[test]
fn key_entry_is_written_with_a_comment() {
    let e = ReaperEntry::from_line("KEY 33 65 40044 0").unwrap();
    assert_eq!(e.to_line(), "KEY 33 65 40044 0 # Main : Control+A : OVERRIDE DEFAULT");
    let e = ReaperEntry::from_line("KEY 1 82 0 100").unwrap();
    assert_eq!(e.to_line(), "KEY 1 82 0 100 # Main (alt recording) : R : DISABLED DEFAULT");
    let e = ReaperEntry::from_line("KEY 9 78 40023 0 # Main : Cmd+N : File: New project").unwrap();
    assert_eq!(e.to_line(), "KEY 9 78 40023 0 # Main : Cmd+N : File: New project");
    let e = ReaperEntry::from_line("KEY 61 123 1 16").unwrap();
    assert_eq!(
        e.to_line(),
        "KEY 61 123 1 16 # Main (alt-16) : Cmd+Opt+Shift+Control+F12 : OVERRIDE DEFAULT"
    );
}

#[test]
fn key_lines_read_back_with_the_same_binding() {
    for line in [
        "KEY 33 65 40044 0",
        "KEY 1 32 _X:y 0#",
        "KEY 255 218 0 32060",
        "KEY 255 90 _RS7d3c 32063 # whatever : it : says",
        "KEY 61 222 \"quoted\" 5",
    ] {
        let first = ReaperEntry::from_line(line).unwrap();
        let second = ReaperEntry::from_line(&first.to_line()).unwrap();
        match (&first, &second) {
            (ReaperEntry::Key(a), ReaperEntry::Key(b)) => {
                assert_eq!(a.modifiers, b.modifiers);
                assert_eq!(a.key_input, b.key_input);
                assert_eq!(a.command_id, b.command_id);
                assert_eq!(a.section, b.section);
                assert!(b.comment.is_some());
            }
            other => panic!("unexpected {:?}", other),
        }
    }
}

#[test]
fn script_entry_is_written() {
    assert_eq!(
        script("_RS1", "Script: a.lua", "/p/a.lua").to_line(),
        r#"SCR 260 32060 _RS1 "Script: a.lua" /p/a.lua"#
    );
    assert_eq!(
        script("my cmd", "d", "/p q/a.lua").to_line(),
        r#"SCR 260 32060 "my cmd" "d" "/p q/a.lua""#
    );
    assert_eq!(script("c", "", "").to_line(), "SCR 260 32060 c \"\" ");
    // Command and description are escaped, the path is not.
    assert_eq!(
        script(r#"a\b"#, r#"say "hi" \ bye"#, r#"C:\x\"y.lua"#).to_line(),
        r#"SCR 260 32060 a\\b "say \"hi\" \\ bye" C:\x\"y.lua"#
    );
    assert_eq!(script("c", "d", "a\u{a0}b").to_line(), "SCR 260 32060 c \"d\" \"a\u{a0}b\"");
}

#[test]
fn action_entry_is_written() {
    assert_eq!(
        action(0, "_cmd", "My action", &["40044", "_SWS"]).to_line(),
        r#"ACT 0 3 "_cmd" "My action" 40044 _SWS"#
    );
    assert_eq!(action(51, "", "", &[]).to_line(), r#"ACT 51 3 "" """#);
    assert_eq!(action(1, "c", "d", &["", ""]).to_line(), r#"ACT 1 3 "c" "d"  "#);
    assert_eq!(action(1, "c", "d", &[""]).to_line(), r#"ACT 1 3 "c" "d""#);
    assert_eq!(action(2, r#"a"b"#, r#"c\d"#, &["1"]).to_line(), r#"ACT 2 3 "a\"b" "c\\d" 1"#);
}

#[test]
fn escaping() {
    assert_eq!(escape_field(""), "");
    assert_eq!(escape_field("plain text"), "plain text");
    assert_eq!(escape_field(r#"\"#), r#"\\"#);
    assert_eq!(escape_field(r#"""#), r#"\""#);
    assert_eq!(escape_field(r#"a\"b"c\\"#), r#"a\\\"b\"c\\\\"#);
    assert_eq!(escape_field("häß\\lich"), "häß\\\\lich");
}

#[test]
fn action_flags_drop_bits_without_a_meaning() {
    let e = ReaperEntry::from_line(r#"ACT 4294967295 0 "c" "d" 1 2"#).unwrap();
    match &e {
        ReaperEntry::Action(a) => {
            assert_eq!(a.action_flags.bits(), 0b0011_0011);
            assert!(a.action_flags.contains(ActionFlags::consolidate_undo()));
            assert!(a.action_flags.contains(ActionFlags::show_in_menus()));
            assert!(a.action_flags.contains(ActionFlags::active_if_all()));
            assert!(a.action_flags.contains(ActionFlags::active_if_any()));
        }
        other => panic!("unexpected {:?}", other),
    }
    assert_eq!(e.to_line(), r#"ACT 51 0 "c" "d" 1 2"#);
    let e = ReaperEntry::from_line(r#"ACT 12 0 "c" "d""#).unwrap();
    match &e {
        ReaperEntry::Action(a) => {
            assert_eq!(a.action_flags, ActionFlags::empty());
            assert!(a.action_ids.is_empty());
        }
        other => panic!("unexpected {:?}", other),
    }
    assert_eq!(
        ActionFlags::consolidate_undo().union(ActionFlags::active_if_any()).bits(),
        0b0010_0001
    );
}

#[test]
fn script_and_action_lines_read_back_exactly() {
    for line in [
        r#"SCR 4 0 "_Script" "Test script" /path/script.lua"#,
        r#"SCR 260 32060 _RS1 "Script: a.lua" "/p q/a.lua" # trailing"#,
        r#"SCR 516 100 "a b" "" "#,
        r#"SCR 4 0 "nospace" "d" "p""#,
        r#"SCR 4 0 x "d" a path, not quoted  "#,
        r#"SCR 4 0 "x y" "d" "p" "more" and more"#,
        r#"ACT 0 0 "_Action" "Test action" 40044 40045"#,
        r#"ACT 3 32063 "" """#,
        r#"ACT 255 1 "a b" "c  d"    1   _x  "ignored" 3"#,
    ] {
        let first = ReaperEntry::from_line(line).unwrap();
        let second = ReaperEntry::from_line(&first.to_line()).unwrap();
        assert_eq!(first, second, "for {:?}", line);
    }
    for e in [
        script("c", "d", "p"),
        script("c d", "", ""),
        script("c", "d e", " p "),
        action(0, "", "", &[]),
        action(17, "a b", "c", &["1", "2", "3"]),
    ] {
        assert_eq!(ReaperEntry::from_line(&e.to_line()).unwrap(), e);
    }
}

#[test]
fn entries_that_need_an_escape_do_not_read_back() {
    let first = ReaperEntry::from_line(r#"SCR 4 0 c "a\b" p"#).unwrap();
    assert_eq!(first.to_line(), r#"SCR 4 0 c "a\\b" p"#);
    assert_ne!(ReaperEntry::from_line(&first.to_line()).unwrap(), first);
    let first = ReaperEntry::from_line(r#"SCR 4 0 "" "d" p"#).unwrap();
    assert!(ReaperEntry::from_line(&first.to_line()).is_err());
    let first = ReaperEntry::from_line(r#"SCR 4 0 ab"d" p"#).unwrap();
    match &first {
        ReaperEntry::Script(s) => assert_eq!(s.command_id, r#"ab"d""#),
        other => panic!("unexpected {:?}", other),
    }
    assert_ne!(ReaperEntry::from_line(&first.to_line()).unwrap(), first);
}

#[test]
fn termination_codes() {
    assert_eq!(TerminationBehavior::from_u32(4), Some(TerminationBehavior::Prompt));
    assert_eq!(TerminationBehavior::from_u32(260), Some(TerminationBehavior::TerminateExisting));
    assert_eq!(TerminationBehavior::from_u32(516), Some(TerminationBehavior::AlwaysNewInstance));
    assert_eq!(TerminationBehavior::from_u32(0), None);
    assert_eq!(TerminationBehavior::AlwaysNewInstance.as_u32(), 516);
    assert_eq!(u32::from(TerminationBehavior::Prompt), 4);
    assert!(matches!(
        TerminationBehavior::try_from(261u32),
        Err(ParseError::InvalidTermination(261))
    ));
    assert!(matches!(TerminationBehavior::try_from(260u32), Ok(TerminationBehavior::TerminateExisting)));
}
