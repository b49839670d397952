use rs_keymap_parser::modifiers::Modifiers;

#[test]
fn test_mods() {
    let m = Modifiers::shift() | Modifiers::control();
    assert_eq!(m.reaper_code(), 37);

    let all = Modifiers::shift() | Modifiers::control() | Modifiers::alt() | Modifiers::super_key();
    assert_eq!(all.reaper_code(), 61);

    match m {
        m if m.is_empty() => println!("No Modifiers"),
        m if m == Modifiers::shift() => println!("Shift"),
        m if m.contains(Modifiers::control()) => println!("Control is pressed"),
        m if m.contains(Modifiers::alt()) => println!("Alt is pressedk"),

        _ => (),
    }

    let all_regular =
        Modifiers::shift() | Modifiers::control() | Modifiers::alt() | Modifiers::super_key();
    assert_eq!(all_regular.reaper_code(), 61);

    let all_with_special = Modifiers::all();
    assert_eq!(all_with_special.reaper_code(), 255);
}

#[test]
fn test_all_modifier_combinations() {
    let regular_flags =
        Modifiers::shift() | Modifiers::control() | Modifiers::alt() | Modifiers::super_key();
    let max_regular_bits = regular_flags.bits();

    for bits in 0..=max_regular_bits {
        if let Some(flags) = Modifiers::from_bits(bits) {
            if flags.contains(Modifiers::special_input()) {
                continue;
            }

            assert_eq!(
                flags.reaper_code(),
                bits + 1,
                "flags={:?} had bits={} but reaper_code() was {}",
                flags,
                bits,
                flags.reaper_code()
            );

            let round =
                Modifiers::from_bits(flags.bits()).expect("round-trip from_bits should succeed");
            assert_eq!(
                round.bits(),
                bits,
                "round-trip bits of {:?} was {}, expected {}",
                flags,
                round.bits(),
                bits
            );
        }
    }

    let special = Modifiers::special_input();
    assert_eq!(special.reaper_code(), 255, "SPECIAL_INPUT should have reaper_code 255");
}

#[test]
fn test_specific_known_cases() {
    let cases = &[
        (Modifiers::empty(), 1),
        (Modifiers::shift(), 5),
        (Modifiers::control(), 33),
        (Modifiers::alt(), 17),
        (Modifiers::super_key(), 9),
        (Modifiers::shift() | Modifiers::control(), 37),
        (
            Modifiers::shift() | Modifiers::control() | Modifiers::alt() | Modifiers::super_key(),
            61,
        ),
    ];

    for &(flags, expected) in cases {
        assert_eq!(
            flags.reaper_code(),
            expected,
            "{:?}.reaper_code() was {}, expected {}",
            flags,
            flags.reaper_code(),
            expected
        );
    }
}

#[test]
fn test_case_255() {
    let special = Modifiers::try_from_reaper_code(255);
    assert!(special.is_some(), "255 should map to SPECIAL_INPUT flag");

    let special_flags = special.unwrap();
    assert!(special_flags.is_special_input(), "255 should be detected as special input");
    assert_eq!(special_flags.reaper_code(), 255, "Special input should round-trip to 255");

    let truncated = Modifiers::from_bits_truncate(254 & 0x7F);
    let all_defined =
        Modifiers::shift() | Modifiers::alt() | Modifiers::super_key() | Modifiers::control();
    assert_eq!(truncated, all_defined, "Truncating 126 should give all defined flags");
}

#[test]
fn test_special_input_flag() {
    let special = Modifiers::special_input();
    assert!(special.is_special_input());
    assert_eq!(special.reaper_code(), 255);

    let normal = Modifiers::shift() | Modifiers::control();
    assert!(!normal.is_special_input());
    assert_ne!(normal.reaper_code(), 255);
}

#[test]
fn every_code_that_decodes_encodes_to_itself() {
    let mut decoded = 0;
    for code in 1..=254u8 {
        if let Some(m) = Modifiers::try_from_reaper_code(code) {
            decoded += 1;
            assert_eq!(m.reaper_code(), code);
            assert!(!m.is_special_input());
        }
    }
    assert_eq!(decoded, 16);
    assert_eq!(Modifiers::try_from_reaper_code(255), Some(Modifiers::special_input()));
    assert_eq!(Modifiers::special_input().reaper_code(), 255);
}

#[test]
fn codes_outside_the_table_do_not_decode() {
    assert_eq!(Modifiers::try_from_reaper_code(0), None);
    assert_eq!(Modifiers::try_from_reaper_code(2), None);
    assert_eq!(Modifiers::try_from_reaper_code(3), None);
    assert_eq!(Modifiers::try_from_reaper_code(62), None);
    assert_eq!(Modifiers::try_from_reaper_code(65), None);
    assert_eq!(Modifiers::try_from_reaper_code(129), None);
    assert_eq!(Modifiers::try_from_reaper_code(254), None);
    assert_eq!(Modifiers::try_from_reaper_code(1), Some(Modifiers::empty()));
    assert_eq!(
        Modifiers::try_from_reaper_code(61),
        Some(Modifiers::shift() | Modifiers::control() | Modifiers::alt() | Modifiers::super_key())
    );
}

#[test]
fn every_representable_set_decodes_from_its_code() {
    let flags = [Modifiers::shift(), Modifiers::super_key(), Modifiers::alt(), Modifiers::control()];
    for mask in 0..16u8 {
        let mut m = Modifiers::empty();
        for (i, f) in flags.iter().enumerate() {
            if mask & (1 << i) != 0 {
                m = m.union(*f);
            }
        }
        assert_eq!(Modifiers::try_from_reaper_code(m.reaper_code()), Some(m));
    }
}

#[test]
fn from_bits_rejects_bits_without_a_meaning() {
    assert_eq!(Modifiers::from_bits(1), None);
    assert_eq!(Modifiers::from_bits(64), None);
    assert_eq!(Modifiers::from_bits(128), Some(Modifiers::special_input()));
    assert_eq!(Modifiers::from_bits(0), Some(Modifiers::empty()));
    assert_eq!(Modifiers::from_bits_truncate(0xFF), Modifiers::all());
    assert_eq!(Modifiers::all().bits(), 0b1011_1100);
}
