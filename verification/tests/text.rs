use boppo::pairing::prompt_nickname;
use boppo::text::{align_right, decimal_text, is_yes, sanitize_file_name};
use boppo::wifi::{music_device_path, MUSIC_DIR};

#[test]
fn sanitizing_drops_forbidden_characters_and_trims() {
    assert_eq!(sanitize_file_name("  What's up? / a\n.mp3 "), "Whats up  a.mp3");
    assert_eq!(sanitize_file_name("a/b/../c"), "ab..c");
    assert_eq!(sanitize_file_name("'?'\n/"), "");
    assert_eq!(sanitize_file_name(""), "");
}

#[test]
fn sanitizing_trims_what_the_dropped_characters_uncover() {
    assert_eq!(sanitize_file_name("? song.mp3 '"), "song.mp3");
}

#[test]
fn sanitizing_keeps_other_characters() {
    assert_eq!(sanitize_file_name("ünï \\ \"x\": <y>|*.mp3"), "ünï \\ \"x\": <y>|*.mp3");
}

#[test]
fn sanitizing_trims_unicode_white_space() {
    assert_eq!(sanitize_file_name("\u{2003}\u{a0}\tx\u{3000}\u{85}"), "x");
    assert_eq!(sanitize_file_name("\u{200b}x"), "\u{200b}x");
}

#[test]
fn sanitizing_twice_is_sanitizing_once() {
    for name in ["  a ' b ", "?/ x", "plain.mp3"] {
        let once = sanitize_file_name(name);
        assert_eq!(sanitize_file_name(&once), once);
    }
}

#[test]
fn music_goes_into_the_music_directory() {
    assert_eq!(MUSIC_DIR, "/sd/activities/user/music");
    assert_eq!(music_device_path("../x?.mp3"), "/sd/activities/user/music/..x.mp3");
}

#[test]
fn yes_is_y_or_nothing() {
    for line in ["", "\n", "  \r\n", "y\n", "Y", " y \n"] {
        assert!(is_yes(line));
    }
    for line in ["n\n", "N", "yes\n", "yy", "j", "ÿ", "0"] {
        assert!(!is_yes(line));
    }
}

#[test]
fn an_answer_is_the_nickname() {
    assert_eq!(prompt_nickname(None, " Kitchen \n"), Some("Kitchen".to_owned()));
    assert_eq!(
        prompt_nickname(Some("old".to_owned()), "new name\n"),
        Some("new name".to_owned())
    );
}

#[test]
fn enter_keeps_the_default_nickname() {
    assert_eq!(prompt_nickname(Some("old".to_owned()), " \n"), Some("old".to_owned()));
    assert_eq!(prompt_nickname(None, "\n"), None);
}

#[test]
fn numbers_are_decimal() {
    assert_eq!(decimal_text(0), "0");
    assert_eq!(decimal_text(9), "9");
    assert_eq!(decimal_text(10), "10");
    assert_eq!(decimal_text(4096), "4096");
    assert_eq!(decimal_text(u64::MAX), "18446744073709551615");
}

#[test]
fn alignment_counts_characters() {
    assert_eq!(align_right("42", 5), "   42");
    assert_eq!(align_right("ü", 3), "  ü");
    assert_eq!(align_right("12345", 5), "12345");
    assert_eq!(align_right("123456", 5), "123456");
    assert_eq!(align_right("", 0), "");
}
