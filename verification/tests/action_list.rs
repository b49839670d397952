use rs_keymap_parser::action_list::{
    lookup_command_id, make_test_action_list, KeyInputType, ReaperActionInput, ReaperEntry,
};
use rs_keymap_parser::keycodes::KeyCode;
use rs_keymap_parser::modifiers::Modifiers;

#[test]
fn finds_existing_command() {
    let list = make_test_action_list();

    let input = ReaperActionInput { modifiers: Modifiers::control(), key: KeyCode::B };
    assert_eq!(lookup_command_id(&list, &input), Some("SWS_ACTION".to_string()));

    let missing = ReaperActionInput { modifiers: Modifiers::shift(), key: KeyCode::C };
    assert_eq!(lookup_command_id(&list, &missing), None);
}

#[test]
fn test_parse_individual_lines() {
    let key_line = "KEY 33 65 40044 0";
    let key_entry = ReaperEntry::from_line(key_line).unwrap();
    if let ReaperEntry::Key(k) = key_entry {
        assert_eq!(k.modifiers, Modifiers::control());
        assert_eq!(k.key_input, KeyInputType::Regular(KeyCode::A));
        assert_eq!(k.command_id, "40044");
    } else {
        panic!("Expected Key entry");
    }

    let scr_line = r#"SCR 4 0 "_Script: Test script" "Some description" /path/to/script.lua"#;
    let scr_entry = ReaperEntry::from_line(scr_line).unwrap();
    if let ReaperEntry::Script(s) = scr_entry {
        assert_eq!(s.command_id, "_Script: Test script");
        assert_eq!(s.description, "Some description");
        assert_eq!(s.path, "/path/to/script.lua");
    } else {
        panic!("Expected Script entry");
    }

    let scr_line2 = r#"SCR 4 0 _Script_Test "My Test Script" "/path with spaces/script.lua""#;
    let scr_entry2 = ReaperEntry::from_line(scr_line2).unwrap();
    if let ReaperEntry::Script(s) = scr_entry2 {
        assert_eq!(s.command_id, "_Script_Test");
        assert_eq!(s.description, "My Test Script");
        assert_eq!(s.path, "/path with spaces/script.lua");
    } else {
        panic!("Expected Script entry");
    }

    let act_line = r#"ACT 0 0 "_Custom_Action" "My Custom Action" 40044 40045"#;
    let act_entry = ReaperEntry::from_line(act_line).unwrap();
    if let ReaperEntry::Action(a) = act_entry {
        assert_eq!(a.command_id, "_Custom_Action");
        assert_eq!(a.description, "My Custom Action");
        assert_eq!(a.action_ids, vec!["40044", "40045"]);
    } else {
        panic!("Expected Action entry");
    }
}

#[test]
fn test_round_trip_serialization() {
    let lines = vec![
        "KEY 33 65 40044 0",
        r#"SCR 4 0 "_Script" "Test script" /path/script.lua"#,
        r#"ACT 0 0 "_Action" "Test action" 40044 40045"#,
    ];

    for line in lines {
        let entry = ReaperEntry::from_line(line).unwrap();
        let serialized = entry.to_line();
        let reparsed = ReaperEntry::from_line(&serialized).unwrap();

        match (&entry, &reparsed) {
            (ReaperEntry::Key(parsed), ReaperEntry::Key(reparsed_key)) => {
                assert_eq!(parsed.modifiers, reparsed_key.modifiers);
                assert_eq!(parsed.key_input, reparsed_key.key_input);
                assert_eq!(parsed.command_id, reparsed_key.command_id);
                assert_eq!(parsed.section, reparsed_key.section);
                assert!(
                    reparsed_key.comment.is_some(),
                    "Reparsed KEY entry should have auto-generated comment"
                );
            }
            _ => {
                assert_eq!(entry, reparsed);
            }
        }
    }
}

#[test]
fn test_parse_error_handling() {
    let bad_lines = vec![
        "INVALID_TAG 1 2 3",
        "KEY",
        "KEY abc 65 40044 0",
        "SCR 999 0 test desc path",
    ];

    for line in bad_lines {
        assert!(ReaperEntry::from_line(line).is_err());
    }
}
