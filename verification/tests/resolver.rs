use keyboard_inject::resolver::ResolvedKey;
use keyboard_inject::resolver::fallback_key;
use keyboard_inject::resolver::needs_scan;
use keyboard_inject::resolver::resolve;
use keyboard_inject::resolver::resolve_line;

#[test]
fn lowercase_letters_use_uppercase_code_unshifted() {
    for (i, c) in ('a'..='z').enumerate() {
        // The host lookup's answer must not matter for a letter.
        let r = resolve(c, 0x1234);
        assert_eq!(r, ResolvedKey { code: b'A' + i as u8, shift: false });
    }
}

#[test]
fn uppercase_letters_use_own_code_shifted() {
    for (i, c) in ('A'..='Z').enumerate() {
        let r = resolve(c, 0);
        assert_eq!(r, ResolvedKey { code: b'A' + i as u8, shift: true });
    }
}

#[test]
fn digits_use_own_code_unshifted() {
    for (i, c) in ('0'..='9').enumerate() {
        let r = resolve(c, 0xFFFF);
        assert_eq!(r, ResolvedKey { code: b'0' + i as u8, shift: false });
    }
}

#[test]
fn whitespace_uses_fixed_codes() {
    assert_eq!(resolve(' ', 7), ResolvedKey { code: 0x20, shift: false });
    assert_eq!(resolve('\n', 7), ResolvedKey { code: 0x0D, shift: false });
    assert_eq!(resolve('\t', 7), ResolvedKey { code: 0x09, shift: false });
}

#[test]
fn fallback_table_pairs_are_exact() {
    let table: &[(char, u8, bool)] = &[
        ('.', 0xBE, false),
        (',', 0xBC, false),
        ('!', 0x31, true),
        ('@', 0x32, true),
        ('#', 0x33, true),
        ('$', 0x34, true),
        ('%', 0x35, true),
        ('^', 0x36, true),
        ('&', 0x37, true),
        ('*', 0x38, true),
        ('(', 0x39, true),
        (')', 0x30, true),
        ('-', 0xBD, false),
        ('=', 0xBB, false),
        ('[', 0xDB, false),
        (']', 0xDD, false),
        ('\\', 0xDC, false),
        (';', 0xBA, false),
        ('\'', 0xDE, false),
        ('/', 0xBF, false),
        ('`', 0xC0, false),
    ];
    for &(c, code, shift) in table {
        // An unresolved host answer (zero low byte) falls back to the table.
        assert_eq!(resolve(c, 0), ResolvedKey { code, shift });
        assert_eq!(fallback_key(c), ResolvedKey { code, shift });
    }
}

#[test]
fn host_answer_wins_for_symbols_when_nonzero() {
    // Low byte is the key, bit eight the shift state.
    assert_eq!(resolve('?', 0x01BF), ResolvedKey { code: 0xBF, shift: true });
    assert_eq!(resolve('?', 0x00BF), ResolvedKey { code: 0xBF, shift: false });
    // Even a character of the fallback table obeys a nonzero host answer.
    assert_eq!(resolve('!', 0x0141), ResolvedKey { code: 0x41, shift: true });
}

#[test]
fn unknown_character_degrades_to_low_byte() {
    // U+00E9 and U+20AC are in no table; their low-order byte stands in.
    assert_eq!(resolve('\u{E9}', 0), ResolvedKey { code: 0xE9, shift: false });
    assert_eq!(resolve('\u{20AC}', 0), ResolvedKey { code: 0xAC, shift: false });
}

#[test]
fn needs_scan_only_outside_direct_ranges() {
    for c in ['a', 'z', 'A', 'Z', '0', '9', ' ', '\n', '\t'] {
        assert!(!needs_scan(c));
    }
    for c in ['!', '?', '.', '\u{E9}', '\r'] {
        assert!(needs_scan(c));
    }
}

#[test]
fn resolve_line_resolves_elementwise() {
    let chars: Vec<char> = vec!['H', 'i', '!'];
    let scans: Vec<u16> = vec![0, 0, 0];
    let keys = resolve_line(&chars, &scans);
    assert_eq!(
        keys,
        vec![
            ResolvedKey { code: 0x48, shift: true },
            ResolvedKey { code: 0x49, shift: false },
            ResolvedKey { code: 0x31, shift: true },
        ]
    );
}
