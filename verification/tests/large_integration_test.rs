use rs_keymap_parser::action_list::{KeyInputType, ReaperEntry};

#[test]
fn test_special_input_coverage() {
    println!("🧪 Testing special input coverage");

    let test_lines = vec![
        "KEY 255 248 40432 32060",
        "KEY 255 250 40431 32060",
        "KEY 255 218 40660 32060",
        "KEY 255 220 40138 32060",
        "KEY 255 252 40139 32060",
        "KEY 255 216 989 0",
        "KEY 255 200 40454 32060",
        "KEY 255 152 40455 32060",
    ];

    let mut parsed_entries = Vec::new();

    for line in test_lines {
        match ReaperEntry::from_line(line) {
            Ok(entry) => {
                parsed_entries.push(entry);
                println!("   ✅ Parsed: {}", line);
            }
            Err(e) => {
                panic!("   ❌ Failed to parse: {} - Error: {}", line, e.to_string());
            }
        }
    }

    assert_eq!(parsed_entries.len(), 8, "Should have parsed all special input test lines");

    for entry in &parsed_entries {
        if let ReaperEntry::Key(key_entry) = entry {
            assert!(
                matches!(key_entry.key_input, KeyInputType::Special(_)),
                "Entry should be parsed as special input: {:?}",
                key_entry
            );
            assert!(
                key_entry.modifiers.is_special_input(),
                "Modifiers should be marked as special input"
            );
        } else {
            panic!("Entry should be a Key entry: {:?}", entry);
        }
    }

    println!("✅ Special input coverage test passed");
}
