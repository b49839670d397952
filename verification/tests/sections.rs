use rs_keymap_parser::action_list::ParseError;
use rs_keymap_parser::sections::ReaperActionSection;
use std::convert::TryFrom;

#[test]
fn round_trip_known_sections() {
    let cases = &[
        (0, ReaperActionSection::Main),
        (100, ReaperActionSection::MainAltRecording),
        (1, ReaperActionSection::MainAlt1),
        (16, ReaperActionSection::MainAlt16),
        (32060, ReaperActionSection::MidiEditor),
        (32061, ReaperActionSection::MidiEventList),
        (32062, ReaperActionSection::MidiInline),
        (32063, ReaperActionSection::MediaExplorer),
    ];

    for &(raw, expected) in cases {
        let from_opt = ReaperActionSection::from_u32(raw);
        assert_eq!(
            from_opt,
            Some(expected),
            "from_u32({}) returned {:?}, expected {:?}",
            raw,
            from_opt,
            expected
        );

        let try_from = ReaperActionSection::try_from(raw).unwrap();
        assert_eq!(
            try_from, expected,
            "TryFrom::try_from({}) returned {:?}, expected {:?}",
            raw, try_from, expected
        );

        assert_eq!(
            expected.as_u32(),
            raw,
            "{:?}.as_u32() returned {}, expected {}",
            expected,
            expected.as_u32(),
            raw
        );
    }
}

#[test]
fn invalid_section_codes() {
    for &bad in &[42u32, 9999, 32064, u32::MAX] {
        assert!(
            ReaperActionSection::from_u32(bad).is_none(),
            "from_u32({}) should be None",
            bad
        );
        assert!(
            ReaperActionSection::try_from(bad).is_err(),
            "TryFrom::try_from({}) should Err",
            bad
        );
    }
}

#[test]
fn pattern_matching_on_main_alt_range() {
    for n in 1..=16 {
        let section = ReaperActionSection::from_u32(n).unwrap();
        match section {
            ReaperActionSection::MainAlt1
            | ReaperActionSection::MainAlt2
            | ReaperActionSection::MainAlt3
            | ReaperActionSection::MainAlt4
            | ReaperActionSection::MainAlt5
            | ReaperActionSection::MainAlt6
            | ReaperActionSection::MainAlt7
            | ReaperActionSection::MainAlt8
            | ReaperActionSection::MainAlt9
            | ReaperActionSection::MainAlt10
            | ReaperActionSection::MainAlt11
            | ReaperActionSection::MainAlt12
            | ReaperActionSection::MainAlt13
            | ReaperActionSection::MainAlt14
            | ReaperActionSection::MainAlt15
            | ReaperActionSection::MainAlt16 => {}
            other => panic!("Value {} mapped to unexpected {:?}", n, other),
        }
    }
}

#[test]
fn every_section_code_round_trips() {
    let mut known = 0;
    for n in 0..=40000u32 {
        if let Some(s) = ReaperActionSection::from_u32(n) {
            known += 1;
            assert_eq!(s.as_u32(), n);
            assert_eq!(u32::from(s), n);
        }
    }
    assert_eq!(known, 22);
}

#[test]
fn section_names_and_errors() {
    assert_eq!(ReaperActionSection::Main.display_name(), "Main");
    assert_eq!(ReaperActionSection::MainAltRecording.display_name(), "Main (alt recording)");
    assert_eq!(ReaperActionSection::MainAlt4.display_name(), "Main (alt-4)");
    assert_eq!(ReaperActionSection::MidiEditor.display_name(), "MIDI Editor");
    assert_eq!(ReaperActionSection::MidiEventList.display_name(), "MIDI Event List");
    assert_eq!(ReaperActionSection::MidiInline.display_name(), "MIDI Inline Editor");
    assert_eq!(ReaperActionSection::MediaExplorer.display_name(), "Media Explorer");
    match ReaperActionSection::try_from(42u32) {
        Err(ParseError::InvalidSectionCode(n)) => assert_eq!(n, 42),
        other => panic!("unexpected {:?}", other),
    }
}
