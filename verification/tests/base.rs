use memcordon_platform::bytes::{
    get_le16, get_le32, put_be16, put_be32, put_be64, put_le16, put_le32, put_le64, same_bytes,
    slice_of,
};
use memcordon_platform::evidence::{Error, ErrorCategory, RestartSafetyProof};
use memcordon_platform::model::{
    cleanup_error, render_all, CleanupErrorRecord, CleanupSummary, Fault, FaultKind, Text, ESRCH,
};
use memcordon_platform::policy::AttemptContext;
use memcordon_platform::scan::{
    find, parse_i32, parse_number, split_lines, split_words, text_contains, trim, NumberFault,
};
use memcordon_platform::text::{
    byte_len, chars_of, decimal_text, hex_number_text, hex_text, join2, join3, join_texts,
    same_text, signed_text, text_of,
};
use memcordon_platform::time::Duration;

fn chars(text: &str) -> Vec<char> {
    text.chars().collect()
}

fn texts(pieces: Vec<Vec<char>>) -> Vec<String> {
    pieces.into_iter().map(|piece| piece.into_iter().collect()).collect()
}

#[test]
fn durations_convert() {
    assert_eq!(Duration::from_secs(2).as_millis(), 2000);
    assert_eq!(Duration::from_millis(7).as_nanos(), 7_000_000);
    assert_eq!(Duration::from_nanos(1_999_999).as_millis(), 1);
    assert_eq!(Duration::from_nanos(5).millis(), 0);
    assert!(Duration::zero().is_zero());
    assert!(!Duration::from_nanos(1).is_zero());
}

#[test]
fn durations_do_not_wrap() {
    let long = Duration::from_secs(u64::MAX);
    assert_eq!(long.millis(), u64::MAX);
    assert!(long.checked_add(long).is_none());
    assert_eq!(long.checked_add(Duration::from_nanos(999_999_999)).is_some(), true);
    assert!(long.checked_add(Duration::from_secs(1)).is_none());
    assert_eq!(Duration::from_millis(1).saturating_sub(Duration::from_millis(2)), Duration::zero());
    assert_eq!(
        Duration::from_millis(5).saturating_sub(Duration::from_millis(2)),
        Duration::from_millis(3)
    );
    assert_eq!(long.sum_millis(long), u64::MAX);
    assert_eq!(Duration::from_millis(3).sum_millis(Duration::from_millis(4)), 7);
}

#[test]
fn durations_compare() {
    let a = Duration::from_millis(3);
    let b = Duration::from_millis(4);
    assert!(a.is_less_than(b));
    assert!(!b.is_less_than(a));
    assert!(!a.is_less_than(a));
    assert_eq!(b.min(a), a);
    assert_eq!(Duration::from_millis(9).min_sum(a, b), Duration::from_millis(7));
    assert_eq!(Duration::from_millis(6).min_sum(a, b), Duration::from_millis(6));
}

#[test]
fn numbers_are_written() {
    assert_eq!(decimal_text(0), "0");
    assert_eq!(decimal_text(10), "10");
    assert_eq!(decimal_text(u64::MAX), "18446744073709551615");
    assert_eq!(signed_text(-7), "-7");
    assert_eq!(signed_text(i32::MIN), "-2147483648");
    assert_eq!(signed_text(42), "42");
    assert_eq!(hex_number_text(0), "0");
    assert_eq!(hex_number_text(255), "ff");
    assert_eq!(hex_number_text(0x1_0000_0000_0000_0000), "10000000000000000");
}

#[test]
fn bytes_are_written_in_hexadecimal() {
    assert_eq!(hex_text(&[]), "");
    assert_eq!(hex_text(&[0x00, 0x0f, 0xa5, 0xff]), "000fa5ff");
}

#[test]
fn texts_are_joined() {
    assert_eq!(join2("a", "b"), "ab");
    assert_eq!(join3("a", "", "c"), "ac");
    assert_eq!(join_texts(&vec![], "; "), "");
    assert_eq!(
        join_texts(&vec!["a".to_string(), "b".to_string(), "c".to_string()], "; "),
        "a; b; c"
    );
    assert!(same_text("x", "x"));
    assert!(!same_text("x", "y"));
    assert_eq!(byte_len("aß"), 3);
}

#[test]
fn characters_come_together_again() {
    let text = "pid 7\nß";
    assert_eq!(text_of(&chars_of(text)), text);
    assert_eq!(text_of(&[]), "");
}

#[test]
fn texts_are_split() {
    assert_eq!(texts(split_lines(&chars("a\r\nb\n\nc"))), vec!["a", "b", "", "c"]);
    assert_eq!(texts(split_lines(&chars(""))), Vec::<String>::new());
    assert_eq!(texts(split_lines(&chars("a\n"))), vec!["a"]);
    assert_eq!(texts(split_words(&chars("  cpu\tmemory \n pids"))), vec!["cpu", "memory", "pids"]);
    assert_eq!(texts(vec![trim(&chars(" \n max\t"))]), vec!["max"]);
    assert_eq!(trim(&chars("  ")), Vec::<char>::new());
    assert_eq!(find(&chars("a/b/c"), '/', 2), 3);
    assert_eq!(find(&chars("abc"), '/', 0), 3);
}

#[test]
fn needles_are_found() {
    assert!(text_contains(&chars("inspection deadline expired"), &chars("deadline expired")));
    assert!(text_contains(&chars("busy"), &chars("")));
    assert!(text_contains(&chars("busy"), &chars("busy")));
    assert!(!text_contains(&chars("bus"), &chars("busy")));
    assert!(!text_contains(&chars("b usy"), &chars("busy")));
}

#[test]
fn numbers_are_read() {
    assert_eq!(parse_number(&chars("18446744073709551615"), 10, u64::MAX), Ok(u64::MAX));
    assert_eq!(
        parse_number(&chars("18446744073709551616"), 10, u64::MAX),
        Err(NumberFault::TooLarge)
    );
    assert_eq!(parse_number(&chars("+7"), 10, u64::MAX), Ok(7));
    assert_eq!(parse_number(&chars(""), 10, u64::MAX), Err(NumberFault::Empty));
    assert_eq!(parse_number(&chars("-1"), 10, u64::MAX), Err(NumberFault::InvalidDigit));
    assert_eq!(parse_number(&chars("+"), 10, u64::MAX), Err(NumberFault::InvalidDigit));
    assert_eq!(parse_number(&chars("ff"), 16, u64::MAX), Ok(255));
    assert_eq!(parse_i32(&chars("-2147483648")), Ok(i32::MIN));
    assert_eq!(parse_i32(&chars("-2147483649")), Err(NumberFault::TooSmall));
    assert_eq!(parse_i32(&chars("2147483648")), Err(NumberFault::TooLarge));
    assert_eq!(parse_i32(&chars("-")), Err(NumberFault::InvalidDigit));
}

#[test]
fn number_faults_speak_as_the_standard_library_does() {
    assert_eq!(NumberFault::Empty.text(), "".parse::<u64>().unwrap_err().to_string());
    assert_eq!(NumberFault::InvalidDigit.text(), "x".parse::<u64>().unwrap_err().to_string());
    assert_eq!(NumberFault::TooLarge.text(), "300".parse::<u8>().unwrap_err().to_string());
    assert_eq!(NumberFault::TooSmall.text(), "-300".parse::<i8>().unwrap_err().to_string());
}

#[test]
fn integers_become_bytes() {
    let mut out = Vec::new();
    put_be16(&mut out, 0x0102);
    put_be32(&mut out, 0x03040506);
    put_be64(&mut out, 0x0708090a0b0c0d0e);
    put_le16(&mut out, 0x0102);
    put_le32(&mut out, 0x03040506);
    put_le64(&mut out, 0x0708090a0b0c0d0e);
    assert_eq!(
        out,
        vec![
            1, 2, 3, 4, 5, 6, 7, 8, 9, 10, 11, 12, 13, 14, 2, 1, 6, 5, 4, 3, 14, 13, 12, 11, 10, 9,
            8, 7
        ]
    );
    assert_eq!(get_le16(&out, 14), 0x0102);
    assert_eq!(get_le32(&out, 16), 0x03040506);
    assert_eq!(slice_of(&out, 1, 3), vec![2, 3]);
    assert!(same_bytes(&[1, 2], &[1, 2]));
    assert!(!same_bytes(&[1, 2], &[1]));
}

#[test]
fn findings_are_rendered() {
    let finding = cleanup_error(
        "reap-guardian",
        Fault { kind: FaultKind::Other, os_code: Some(ESRCH), text: Text::Given("gone".to_string()) },
    );
    assert_eq!(finding.render(), "reap-guardian: gone");
    assert_eq!(finding.duplicate().render(), "reap-guardian: gone");
    let records = vec![
        finding,
        CleanupErrorRecord { operation: "kill", message: Text::Tagged("status ", "9".to_string()) },
    ];
    assert_eq!(render_all(&records), vec!["reap-guardian: gone", "kill: status 9"]);
    let nothing = CleanupSummary::default();
    assert!(!nothing.graceful_attempted && !nothing.force_attempted && !nothing.direct_child_reaped);
    assert_eq!(nothing.workload_empty, None);
    assert!(nothing.errors.is_empty());
}

#[test]
fn errors_claim_nothing_of_their_own() {
    let error = Error::of_fault(
        ErrorCategory::Setup,
        "MCSETUP-CGROUP",
        &Fault { kind: FaultKind::NotFound, os_code: Some(2), text: Text::Fixed("missing") },
    );
    assert_eq!(error.message, "missing");
    assert_eq!(error.os_code, Some(2));
    assert!(!error.target_released && error.target_pid.is_none());
    assert!(error.restart_safety.is_none() && error.provider_rejection.is_none());
    let proof = RestartSafetyProof::default();
    assert!(!proof.direct_child_reaped && proof.workload_empty.is_none());
    assert!(proof.errors.is_empty());
    assert_eq!(ErrorCategory::Setup.name(), "setup");
}

#[test]
fn contexts_only_shorten() {
    let free = AttemptContext::unsupervised();
    assert_eq!(
        free.clamp_deadline(Duration::from_secs(1), Duration::from_secs(5)),
        Duration::from_secs(6)
    );
    let bound = AttemptContext {
        supervision_offset: Duration::from_secs(9),
        supervision_deadline_remaining: Some(Duration::from_secs(3)),
    };
    assert_eq!(
        bound.clamp_deadline(Duration::from_secs(1), Duration::from_secs(5)),
        Duration::from_secs(3)
    );
    assert_eq!(
        bound.clamp_deadline(Duration::from_secs(1), Duration::from_secs(1)),
        Duration::from_secs(2)
    );
    assert_eq!(
        bound.clamp_grace(Duration::from_secs(9), Duration::from_secs(1)),
        Duration::from_secs(2)
    );
    assert_eq!(bound.clamp_grace(Duration::from_secs(1), Duration::from_secs(4)), Duration::zero());
    assert_eq!(free.clamp_grace(Duration::from_secs(9), Duration::from_secs(1)), Duration::from_secs(9));
    assert_eq!(
        free.clamp_deadline(Duration::from_secs(u64::MAX), Duration::from_secs(5)),
        Duration::from_secs(u64::MAX)
    );
    assert_eq!(bound.supervision_deadline(), Some(Duration::from_secs(3)));
}
