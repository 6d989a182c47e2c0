use sysmon::text::{chars_equal, chars_of, contains_chars, eq_ignore_ascii_case_exec, starts_with_chars, to_wide_nul};

#[test]
fn chars_of_keeps_every_character() {
    assert_eq!(chars_of("añ€😀"), vec!['a', 'ñ', '€', '😀']);
    assert_eq!(chars_of(""), Vec::<char>::new());
}

#[test]
fn substring_and_prefix_search() {
    let hay = chars_of("vEthernet (WSL)");
    assert!(contains_chars(&hay, &chars_of("Ethernet")));
    assert!(contains_chars(&hay, &chars_of("")));
    assert!(!contains_chars(&hay, &chars_of("ethernet")));
    assert!(contains_chars(&hay, &chars_of("(WSL)")));
    assert!(!contains_chars(&hay, &chars_of("(WSL))")));
    assert!(starts_with_chars(&hay, &chars_of("vE")));
    assert!(!starts_with_chars(&hay, &chars_of("E")));
    assert!(chars_equal(&hay, &chars_of("vEthernet (WSL)")));
    assert!(!chars_equal(&hay, &chars_of("vEthernet")));
}

#[test]
fn case_insensitive_comparison_is_ascii_only() {
    assert!(eq_ignore_ascii_case_exec(&chars_of("INFO"), &chars_of("info")));
    assert!(!eq_ignore_ascii_case_exec(&chars_of("ÍNFO"), &chars_of("ínfo")));
    assert!(!eq_ignore_ascii_case_exec(&chars_of("inf"), &chars_of("info")));
}

#[test]
fn wide_strings_match_std_utf16_with_terminator() {
    for s in ["Shell_TrayWnd", "TrayNotifyWnd", "\\GPU Engine(*)\\Utilization Percentage", "", "系统监控 😀"] {
        let expected: Vec<u16> = s.encode_utf16().chain(std::iter::once(0)).collect();
        assert_eq!(to_wide_nul(s), expected);
    }
    assert_eq!(to_wide_nul("😀"), vec![0xD83D, 0xDE00, 0]);
    assert_eq!(to_wide_nul("A"), vec![0x41, 0]);
}
