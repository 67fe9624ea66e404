//! Tests of the small building blocks.

use pinpam::pamlog::{max_level, LogLevel};
use pinpam::pindata::{AttemptInfo, PinData};
use pinpam::pinerror::{DeleteResult, MessageArgument, PinError};
use pinpam::pinindex::{nv_index_for_uid, version_nv_index_for_uid};
use pinpam::text::{
    chars_of, contains_char, is_all_digits, joined, numeral_text, parse_numeral, same_text,
    split_once, split_words, trim,
};
use pinpam::util::{
    attempts, can_attempt_pin, can_manage_pin, get_uid, get_uid_from_username,
    get_username_from_uid, manages, name_of_lookup, normalize_legacy_pin, uid_of_lookup,
};

#[test]
fn payloads_are_big_endian() {
    let data = PinData::new(0x0102_0304, -2);
    assert_eq!(data.to_bytes(), vec![1, 2, 3, 4, 0xFF, 0xFF, 0xFF, 0xFE]);
    assert_eq!(PinData::from_bytes(&data.to_bytes()), Some(data));
    assert_eq!(PinData::from_bytes(&[0; 7]), None);
    assert_eq!(
        PinData::from_bytes(&[0, 0, 0, 1, 0, 0, 0, 5, 9, 9]),
        Some(PinData::new(1, 5)),
    );
    assert_eq!(PinData::SIZE, 8);
    assert!(PinData::new(3, 3).is_exhausted());
    assert!(!PinData::new(2, 3).is_exhausted());
}

#[test]
fn attempts_are_never_negative() {
    let info = AttemptInfo::from_pin_data(PinData::new(-1, -1));
    assert_eq!(info, AttemptInfo { used: 0, limit: 0 });
    assert!(!info.locked());
    let info = AttemptInfo::from_pin_data(PinData::new(2, 3));
    assert_eq!(info.prompt_tuple(), (2, 3));
    assert_eq!(info.remaining(), Some(1));
    assert!(!info.locked());
    assert!(AttemptInfo { used: 3, limit: 3 }.locked());
    assert_eq!(AttemptInfo { used: 4, limit: 3 }.remaining(), None);
}

#[test]
fn indices_follow_the_uid() {
    assert_eq!(nv_index_for_uid(0).unwrap(), 0x0150_0000);
    assert_eq!(nv_index_for_uid(1000).unwrap(), 0x0150_03E8);
    assert_eq!(version_nv_index_for_uid(1000).unwrap(), 0x0160_03E8);
    assert!(matches!(
        nv_index_for_uid(0x0010_0000),
        Err(PinError::UidOverflow(0x0010_0000))
    ));
    assert!(matches!(
        version_nv_index_for_uid(u32::MAX),
        Err(PinError::UidOverflow(u32::MAX))
    ));
}

#[test]
fn legacy_pins_have_no_leading_zeros() {
    assert_eq!(normalize_legacy_pin("0042"), "42");
    assert_eq!(normalize_legacy_pin("4200"), "4200");
    assert_eq!(normalize_legacy_pin("0000"), "0");
    assert_eq!(normalize_legacy_pin(""), "0");
    assert_eq!(normalize_legacy_pin(&normalize_legacy_pin("007")), "7");
}

#[test]
fn root_manages_every_pin() {
    assert!(manages(0, 1000) && manages(1000, 1000) && !manages(1000, 1001));
    assert!(attempts(1000, 0, 1001) && attempts(1000, 1000, 1000) && !attempts(0, 1000, 1001));
    assert!(can_manage_pin(get_uid()));
    assert!(can_attempt_pin(get_uid()));
    assert_eq!(can_manage_pin(get_uid() + 1), get_uid() == 0);
}

#[test]
fn users_are_looked_up() {
    assert_eq!(get_uid_from_username("root").unwrap(), 0);
    assert_eq!(get_username_from_uid(0).as_deref(), Some("root"));
    assert!(matches!(
        get_uid_from_username("no such user here"),
        Err(PinError::UserNotFound)
    ));
    assert!(matches!(get_uid_from_username("ro\0ot"), Err(PinError::UserNotFound)));
    assert_eq!(uid_of_lookup(Ok(Some(7))).unwrap(), 7);
    assert!(matches!(uid_of_lookup(Ok(None)), Err(PinError::UserNotFound)));
    assert!(matches!(uid_of_lookup(Err(())), Err(PinError::UserNotFound)));
    assert_eq!(name_of_lookup(Ok(Some("x".to_string()))).as_deref(), Some("x"));
    assert_eq!(name_of_lookup(Ok(None)), None);
    assert_eq!(name_of_lookup(Err(())), None);
}

#[test]
fn the_log_level_follows_the_setting() {
    assert_eq!(max_level(None), LogLevel::Info);
    assert_eq!(max_level(Some("off")), LogLevel::Off);
    assert_eq!(max_level(Some("Error")), LogLevel::Error);
    assert_eq!(max_level(Some("WARN")), LogLevel::Warn);
    assert_eq!(max_level(Some("info")), LogLevel::Info);
    assert_eq!(max_level(Some("dEbUg")), LogLevel::Debug);
    assert_eq!(max_level(Some("trace")), LogLevel::Trace);
    assert_eq!(max_level(Some("error,pinpam=debug")), LogLevel::Trace);
    assert_eq!(max_level(Some("pinpam=error")), LogLevel::Trace);
    assert_eq!(max_level(Some("loud")), LogLevel::Trace);
    assert_eq!(max_level(Some("")), LogLevel::Trace);
}

#[test]
fn errors_have_messages() {
    let of = |e: PinError| {
        let (key, argument) = e.message();
        (key, format!("{argument:?}"))
    };
    assert_eq!(of(PinError::UserNotFound), ("user_not_found", "Nothing".to_string()));
    assert_eq!(of(PinError::PermissionDenied).0, "permission_denied");
    assert_eq!(of(PinError::PinAlreadySet).0, "pin_already_set");
    assert_eq!(of(PinError::NoPinSet).0, "no_pin_set");
    assert_eq!(of(PinError::PinsDontMatch).0, "pins_dont_match");
    assert_eq!(of(PinError::PinIsLocked).0, "pin_is_locked");
    assert_eq!(of(PinError::IncorrectPin { locked: false }).0, "incorrect_pin");
    assert_eq!(of(PinError::IncorrectPin { locked: true }).0, "incorrect_pin_locked");
    assert_eq!(of(PinError::PinIsEmpty).0, "pin_is_empty");
    assert_eq!(of(PinError::PinContainsNonDigits).0, "pin_contains_non_digits");
    assert_eq!(
        of(PinError::GetUsernameForUidFailed(7)),
        ("get_username_failed", "Uid(7)".to_string()),
    );
    assert_eq!(
        of(PinError::CannotDeletePin(DeleteResult::LockedOut)),
        ("cannot_delete_pin", "Deletion(LockedOut)".to_string()),
    );
    assert_eq!(
        of(PinError::PinTooShort { length: 3, limit: 4 }),
        ("pin_too_short", "Limit(4)".to_string()),
    );
    assert_eq!(
        of(PinError::PinTooLong { length: 9, limit: 8 }),
        ("pin_too_long", "Limit(8)".to_string()),
    );
    assert_eq!(of(PinError::AlreadyProvisioned(1)).0, "already_provisioned");
    assert_eq!(of(PinError::UidOverflow(1)).0, "uid_overflow");
    assert_eq!(of(PinError::NotProvisioned(1)).0, "not_provisioned");
    assert_eq!(
        of(PinError::TpmError("x".to_string())),
        ("tpm_error", "Error(\"x\")".to_string()),
    );
    assert_eq!(of(PinError::IoError(String::new())).0, "io_error");
    assert_eq!(of(PinError::TermIoError(String::new())).0, "term_io_error");
    assert_eq!(of(PinError::PinutilOutputDecodeError(String::new())).0, "pinutil_decode_error");
    assert!(matches!(PinError::NoPinSet.message().1, MessageArgument::Nothing));
    assert_eq!(DeleteResult::Success.message_key(), "pin_del_success");
    assert_eq!(DeleteResult::Invalid { locked: false }.message_key(), "pin_del_invalid");
    assert_eq!(DeleteResult::Invalid { locked: true }.message_key(), "pin_del_invalid_locked");
    assert_eq!(DeleteResult::LockedOut.message_key(), "pin_del_locked_out");
}

#[test]
fn trimming_agrees_with_the_standard_library() {
    for s in ["", " ", "a", " a b ", "\u{a0}x\u{3000}", "\u{200b}x\u{200b}", "\t\r\n\u{b}é\u{85}"] {
        assert_eq!(trim(s), s.trim());
        assert_eq!(trim(trim(s)), s.trim());
        let words: Vec<String> = s.split_whitespace().map(str::to_string).collect();
        assert_eq!(split_words(s), words);
    }
    assert_eq!(split_words(" a=1\n\nb  c "), vec!["a=1", "b", "c"]);
}

#[test]
fn texts_are_split_at_the_first_occurrence() {
    let pair = |a: &str, b: &str| Some((a.to_string(), b.to_string()));
    assert_eq!(split_once("key=value=more", '='), pair("key", "value=more"));
    assert_eq!(split_once("=x", '='), pair("", "x"));
    assert_eq!(split_once("x=", '='), pair("x", ""));
    assert_eq!(split_once("é=ß", '='), pair("é", "ß"));
    assert_eq!(split_once("key", '='), None);
}

#[test]
fn numerals_agree_with_the_standard_library() {
    for s in [
        "", "0", "7", "+7", "-7", "007", "+", "++1", "1_0", " 1", "12a", "４", "4294967295",
        "4294967296", "18446744073709551615", "18446744073709551616", "99999999999999999999999",
    ] {
        assert_eq!(parse_numeral(s, u64::MAX), s.parse::<u64>().ok(), "{s:?}");
        assert_eq!(
            parse_numeral(s, u32::MAX as u64),
            s.parse::<u32>().ok().map(u64::from),
            "{s:?}",
        );
    }
    for n in [0, 9, 10, 1234, u64::MAX] {
        assert_eq!(numeral_text(n), n.to_string());
    }
}

#[test]
fn texts_are_compared_and_joined() {
    assert!(same_text("abc", "abc") && !same_text("abc", "abd") && !same_text("ab", "abc"));
    assert!(contains_char("a,b", ',') && !contains_char("", ','));
    assert!(is_all_digits("0123456789") && is_all_digits("") && !is_all_digits("1a"));
    assert!(!is_all_digits("٣"));
    assert_eq!(joined("ab", "cé"), "abcé");
    assert_eq!(chars_of("aé"), vec!['a', 'é']);
}
