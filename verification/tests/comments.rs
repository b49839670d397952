use rs_keymap_parser::action_list::{Comment, KeyEntry, KeyInputType};
use rs_keymap_parser::keycodes::KeyCode;
use rs_keymap_parser::modifiers::Modifiers;
use rs_keymap_parser::sections::ReaperActionSection;
use rs_keymap_parser::special_inputs::SpecialInput;

#[test]
fn test_structured_comment_parsing_and_generation() {
    let test_comments = vec![
        "# Main : Cmd+N : OVERRIDE DEFAULT : File: New project",
        "# MIDI Editor : Mousewheel : OVERRIDE DEFAULT : View: Scroll vertically (MIDI relative/mousewheel)",
        "# Main : Opt+HorizWheel : DISABLED DEFAULT",
        "# Main : Control+F : Track: Toggle FX bypass for selected tracks",
        "# MIDI Editor : Shift+HorizWheel : View: Scroll horizontally reversed (MIDI relative/mousewheel)",
    ];

    for comment_line in test_comments.iter() {
        if let Some(comment) = Comment::from_line(comment_line) {
            let generated = comment.to_line();
            let reparsed =
                Comment::from_line(&generated).expect("Failed to reparse generated comment");
            assert_eq!(comment, reparsed, "Comment round-trip failed");
        } else {
            panic!("Failed to parse comment: {}", comment_line);
        }
    }

    let regular_key_entry = KeyEntry {
        modifiers: Modifiers::super_key() | Modifiers::shift(),
        key_input: KeyInputType::Regular(KeyCode::M),
        command_id: "40044".to_string(),
        section: ReaperActionSection::Main,
        comment: None,
    };
    let regular_comment = regular_key_entry.generate_comment();

    let special_key_entry = KeyEntry {
        modifiers: Modifiers::special_input(),
        key_input: KeyInputType::Special(SpecialInput::Mousewheel),
        command_id: "989".to_string(),
        section: ReaperActionSection::Main,
        comment: None,
    };
    let special_comment = special_key_entry.generate_comment();

    let disabled_key_entry = KeyEntry {
        modifiers: Modifiers::alt(),
        key_input: KeyInputType::Special(SpecialInput::HorizWheel),
        command_id: "0".to_string(),
        section: ReaperActionSection::Main,
        comment: None,
    };
    let disabled_comment = disabled_key_entry.generate_comment();

    assert_eq!(regular_comment.section, "Main");
    assert_eq!(regular_comment.key_combination, "Cmd+Shift+M");
    assert_eq!(regular_comment.behavior_flag, Some("OVERRIDE DEFAULT".to_string()));

    assert_eq!(special_comment.section, "Main");
    assert_eq!(special_comment.key_combination, "Mousewheel");
    assert_eq!(special_comment.behavior_flag, Some("OVERRIDE DEFAULT".to_string()));

    assert_eq!(disabled_comment.section, "Main");
    assert_eq!(disabled_comment.key_combination, "Opt+HorizWheel");
    assert_eq!(disabled_comment.behavior_flag, Some("DISABLED DEFAULT".to_string()));
}

#[test]
fn test_midi_relative_action_parsing() {
    let midi_relative_comments = vec![
        "# Main : Mousewheel : OVERRIDE DEFAULT : View: Scroll vertically (MIDI CC relative/mousewheel)",
        "# MIDI Editor : Mousewheel : OVERRIDE DEFAULT : View: Scroll vertically (MIDI relative/mousewheel)",
        "# Main : Opt+Mousewheel : OVERRIDE DEFAULT : View: Zoom project horizontally (MIDI CC relative/mousewheel)",
        "# MIDI Editor : Shift+HorizWheel : OVERRIDE DEFAULT : View: Scroll horizontally reversed (MIDI relative/mousewheel)",
        "# Main : HorizWheel : OVERRIDE DEFAULT : View: Scroll project horizontally (MIDI CC relative/mousewheel)",
    ];

    let non_midi_comments = vec![
        "# Main : Cmd+N : OVERRIDE DEFAULT : File: New project",
        "# Main : Control+F : Track: Toggle FX bypass for selected tracks",
        "# Main : Shift+M : OVERRIDE DEFAULT : Track: Toggle mute for selected tracks",
    ];

    for comment_line in midi_relative_comments.iter() {
        if let Some(comment) = Comment::from_line(comment_line) {
            assert!(
                comment.is_midi_relative,
                "Should be identified as MIDI relative: {}",
                comment_line
            );
            assert!(comment.parsed_action_name.is_some(), "Should have parsed action name");

            if let Some(ref action_name) = comment.parsed_action_name {
                assert!(
                    !action_name.contains("(MIDI"),
                    "Action name should not contain MIDI relative part: {}",
                    action_name
                );
                assert!(
                    !action_name.contains("("),
                    "Action name should not contain parentheses: {}",
                    action_name
                );
            }
        } else {
            panic!("Failed to parse MIDI relative comment: {}", comment_line);
        }
    }

    for comment_line in non_midi_comments.iter() {
        if let Some(comment) = Comment::from_line(comment_line) {
            assert!(
                !comment.is_midi_relative,
                "Should not be identified as MIDI relative: {}",
                comment_line
            );

            if comment.action_description.is_some() {
                assert!(comment.parsed_action_name.is_some(), "Should have parsed action name");
            }
        } else {
            panic!("Failed to parse non-MIDI comment: {}", comment_line);
        }
    }
}

fn comment(
    section: &str,
    key: &str,
    flag: Option<&str>,
    description: Option<&str>,
    name: Option<&str>,
    relative: bool,
) -> Comment {
    Comment {
        section: section.to_string(),
        key_combination: key.to_string(),
        behavior_flag: flag.map(|s| s.to_string()),
        action_description: description.map(|s| s.to_string()),
        parsed_action_name: name.map(|s| s.to_string()),
        is_midi_relative: relative,
    }
}

#[test]
fn comment_fields_by_count() {
    assert_eq!(
        Comment::from_line("# Main : Cmd+N"),
        Some(comment("Main", "Cmd+N", None, None, None, false))
    );
    assert_eq!(
        Comment::from_line("# Main : Cmd+N : OVERRIDE DEFAULT"),
        Some(comment("Main", "Cmd+N", Some("OVERRIDE DEFAULT"), None, None, false))
    );
    assert_eq!(
        Comment::from_line("# Main : Cmd+N : File: New project"),
        Some(comment(
            "Main",
            "Cmd+N",
            None,
            Some("File: New project"),
            Some("File: New project"),
            false
        ))
    );
    assert_eq!(
        Comment::from_line("# Main : Cmd+N : DISABLED DEFAULT : File : New : project"),
        Some(comment(
            "Main",
            "Cmd+N",
            Some("DISABLED DEFAULT"),
            Some("File: New: project"),
            Some("File: New: project"),
            false
        ))
    );
    assert_eq!(
        Comment::from_line("  #Main:K:my DEFAULT thing:  a (b) c  "),
        Some(comment("Main", "K", Some("my DEFAULT thing"), Some("a (b) c"), Some("a"), false))
    );
}

#[test]
fn comment_edge_cases() {
    assert_eq!(Comment::from_line("Main : Cmd+N"), None);
    assert_eq!(Comment::from_line(""), None);
    assert_eq!(Comment::from_line("   "), None);
    assert_eq!(Comment::from_line("#"), None);
    assert_eq!(Comment::from_line("# no colon here"), None);
    assert_eq!(Comment::from_line("#:"), Some(comment("", "", None, None, None, false)));
    // An empty third field is neither a flag nor a description.
    assert_eq!(
        Comment::from_line("# Main : X : : late"),
        Some(comment("Main", "X", None, None, None, false))
    );
    // After a flag, fields that are all empty give no description.
    assert_eq!(
        Comment::from_line("# Main : X : OVERRIDE DEFAULT : : "),
        Some(comment("Main", "X", Some("OVERRIDE DEFAULT"), None, None, false))
    );
    // After a flag, an empty field among others is kept in the join.
    assert_eq!(
        Comment::from_line("# Main : X : OVERRIDE DEFAULT :  : b"),
        Some(comment("Main", "X", Some("OVERRIDE DEFAULT"), Some(": b"), Some(": b"), false))
    );
    // A description that starts with its parenthesis has an empty name.
    assert_eq!(
        Comment::from_line("# Main : X : (MIDI relative/mousewheel)"),
        Some(comment("Main", "X", None, Some("(MIDI relative/mousewheel)"), Some(""), true))
    );
    // Whitespace of every kind is trimmed.
    assert_eq!(
        Comment::from_line("\u{a0}#\u{2003}Main\t:\u{3000}X\u{2028}"),
        Some(comment("Main", "X", None, None, None, false))
    );
}

#[test]
fn relative_marker_is_detected_and_stripped() {
    let c = Comment::from_line(
        "# Main : Mousewheel : OVERRIDE DEFAULT : View: Scroll vertically (MIDI CC relative/mousewheel)",
    )
    .unwrap();
    assert!(c.is_midi_relative);
    assert_eq!(c.parsed_action_name, Some("View: Scroll vertically".to_string()));
    assert_eq!(
        c.action_description,
        Some("View: Scroll vertically (MIDI CC relative/mousewheel)".to_string())
    );

    let c = Comment::from_line("# Main : K : View: Zoom (MIDI relative/mousewheel)").unwrap();
    assert!(c.is_midi_relative);
    assert_eq!(c.parsed_action_name, Some("View: Zoom".to_string()));

    let c = Comment::from_line("# Main : K : View: Zoom (MIDI relative)").unwrap();
    assert!(!c.is_midi_relative);
    assert_eq!(c.parsed_action_name, Some("View: Zoom".to_string()));

    let c = Comment::from_line("# Main : K : View: Zoom").unwrap();
    assert!(!c.is_midi_relative);
    assert_eq!(c.parsed_action_name, Some("View: Zoom".to_string()));
}

#[test]
fn comment_is_written_with_its_present_fields() {
    assert_eq!(comment("Main", "Cmd+N", None, None, None, false).to_line(), "# Main : Cmd+N");
    assert_eq!(
        comment("Main", "Cmd+N", Some("OVERRIDE DEFAULT"), None, None, false).to_line(),
        "# Main : Cmd+N : OVERRIDE DEFAULT"
    );
    assert_eq!(
        comment("Main", "Cmd+N", None, Some("File: New"), Some("ignored"), true).to_line(),
        "# Main : Cmd+N : File: New"
    );
    assert_eq!(
        comment("MIDI Editor", "", Some("DISABLED DEFAULT"), Some("d"), None, false).to_line(),
        "# MIDI Editor :  : DISABLED DEFAULT : d"
    );
}

fn key_entry(modifiers: Modifiers, key_input: KeyInputType, command: &str) -> KeyEntry {
    KeyEntry {
        modifiers,
        key_input,
        command_id: command.to_string(),
        section: ReaperActionSection::MidiEditor,
        comment: None,
    }
}

#[test]
fn key_descriptions() {
    let all = Modifiers::shift() | Modifiers::control() | Modifiers::alt() | Modifiers::super_key();
    assert_eq!(
        key_entry(all, KeyInputType::Regular(KeyCode::F12), "1").generate_key_description(),
        "Cmd+Opt+Shift+Control+F12"
    );
    assert_eq!(
        key_entry(Modifiers::empty(), KeyInputType::Regular(KeyCode::Space), "1")
            .generate_key_description(),
        "Space"
    );
    assert_eq!(
        key_entry(Modifiers::control(), KeyInputType::Regular(KeyCode::Digit7), "1")
            .generate_key_description(),
        "Control+7"
    );
    assert_eq!(
        key_entry(
            Modifiers::special_input(),
            KeyInputType::Special(SpecialInput::MediaKey(488)),
            "1"
        )
        .generate_key_description(),
        "MediaKey(488)"
    );
    assert_eq!(
        key_entry(Modifiers::all(), KeyInputType::Special(SpecialInput::CtrlAltMousewheel), "1")
            .generate_key_description(),
        "Cmd+Opt+Shift+Control+Ctrl+Alt+Mousewheel"
    );
}

#[test]
fn default_comment_of_a_binding() {
    let e = key_entry(Modifiers::shift(), KeyInputType::Regular(KeyCode::A), "0");
    let c = Comment::from_key_entry(&e);
    assert_eq!(c, comment("MIDI Editor", "Shift+A", Some("DISABLED DEFAULT"), None, None, false));
    assert_eq!(c, e.generate_comment());
    let e = key_entry(Modifiers::shift(), KeyInputType::Regular(KeyCode::A), "00");
    assert_eq!(
        Comment::from_key_entry(&e),
        comment("MIDI Editor", "Shift+A", Some("OVERRIDE DEFAULT"), None, None, false)
    );
    assert_eq!(e.key_code(), Some(KeyCode::A));
    let e = key_entry(
        Modifiers::special_input(),
        KeyInputType::Special(SpecialInput::MultiZoom),
        "_X",
    );
    assert_eq!(e.key_code(), None);
}
