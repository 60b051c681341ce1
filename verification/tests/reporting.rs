use tach::perf::policy_value;
use tach::runtime_api::{
    header_block_end, header_value, invocation_id, next_invocation_path, reply_body, reply_path, request_head,
};
use tach::target::{Target, TargetArch, TargetOs};
use tach::textual::{chars_of, json_escape, parse_u64, same_chars};
use tach::validation::{
    applicable_primitives, expected_status, format_unavail, interleaved_order, stat_positions, verdict, yes_no,
    PrimitiveKind, UnavailCategory, UnavailReason, Verdict,
};

#[test]
fn json_escape_escapes_quotes_backslashes_and_controls() {
    assert_eq!(json_escape("plain"), "plain");
    assert_eq!(json_escape("a\"b\\c"), "a\\\"b\\\\c");
    assert_eq!(json_escape("l1\nl2\r\t"), "l1\\nl2\\r\\t");
    assert_eq!(json_escape("\u{1}\u{1f}\u{7f}\u{9f}"), "\\u0001\\u001f\\u007f\\u009f");
    assert_eq!(json_escape("é│┌"), "é│┌");
    assert_eq!(json_escape(""), "");
}

#[test]
fn header_lookup_ignores_case_and_trims() {
    let headers = "HTTP/1.1 200 OK\r\nContent-Type: application/json\r\nLambda-Runtime-Aws-Request-Id:  abc-123 \r\nX: y";
    assert_eq!(header_value(headers, "lambda-runtime-aws-request-id"), Some("abc-123".to_string()));
    assert_eq!(header_value(headers, "content-type"), Some("application/json".to_string()));
    assert_eq!(header_value(headers, "x"), Some("y".to_string()));
    assert_eq!(header_value(headers, "missing"), None);
    assert_eq!(header_value("a:1\nA: 2", "a"), Some("1".to_string()));
    assert_eq!(header_value("no colon here\n", "no colon here"), None);
    assert_eq!(header_value("k:v:w", "k"), Some("v:w".to_string()));
    assert_eq!(header_value("", "k"), None);
    assert_eq!(invocation_id(headers), Some("abc-123".to_string()));
    assert_eq!(invocation_id("HTTP/1.1 200 OK"), None);
}

#[test]
fn request_head_is_a_close_delimited_http11_head() {
    assert_eq!(
        request_head("POST", "/p", "127.0.0.1:9001", 42),
        "POST /p HTTP/1.1\r\nHost: 127.0.0.1:9001\r\nConnection: close\r\nContent-Length: 42\r\n\r\n"
    );
    assert_eq!(
        request_head("GET", next_invocation_path(), "h", 0),
        "GET /2018-06-01/runtime/invocation/next HTTP/1.1\r\nHost: h\r\nConnection: close\r\nContent-Length: 0\r\n\r\n"
    );
}

#[test]
fn response_head_ends_at_the_first_blank_line() {
    assert_eq!(header_block_end(b"HTTP/1.1 200 OK\r\nA: b\r\n\r\nbody\r\n\r\n"), Some(21));
    assert_eq!(header_block_end(b"\r\n\r\n"), Some(0));
    assert_eq!(header_block_end(b"HTTP/1.1 200 OK\r\n"), None);
    assert_eq!(header_block_end(b"\r\n\r"), None);
}

#[test]
fn replies_answer_the_invocation() {
    assert_eq!(reply_path("id-7", true), "/2018-06-01/runtime/invocation/id-7/response");
    assert_eq!(reply_path("id-7", false), "/2018-06-01/runtime/invocation/id-7/error");
    assert_eq!(reply_body("report", true), "report");
    assert_eq!(
        reply_body("bad \"x\"\n", false),
        "{\"errorMessage\":\"bad \\\"x\\\"\\n\",\"errorType\":\"TachSelectionMismatch\"}"
    );
}

#[test]
fn policy_values_parse_like_trimmed_u64() {
    assert_eq!(policy_value("2\n"), Some(2));
    assert_eq!(policy_value("  +17\t"), Some(17));
    assert_eq!(policy_value("18446744073709551615"), Some(u64::MAX));
    assert_eq!(policy_value("18446744073709551616"), None);
    assert_eq!(policy_value("-1"), None);
    assert_eq!(policy_value("+"), None);
    assert_eq!(policy_value(""), None);
    assert_eq!(policy_value("1 2"), None);
    let chars = chars_of("x123y");
    assert_eq!(parse_u64(&chars, 1, 4), Some(123));
    assert_eq!(parse_u64(&chars, 0, 4), None);
}

#[test]
fn string_equality_compares_characters() {
    assert!(same_chars("x86_64-rdtsc", "x86_64-rdtsc"));
    assert!(!same_chars("x86_64-rdtsc", "x86_64-rdtscp"));
    assert!(same_chars("", ""));
}

fn target(arch: TargetArch, os: TargetOs) -> Target {
    Target { arch, os, gnu_env: true }
}

#[test]
fn applicable_primitives_follow_the_column_order() {
    assert_eq!(
        applicable_primitives(target(TargetArch::X86_64, TargetOs::Linux)),
        vec![
            PrimitiveKind::Rdtsc,
            PrimitiveKind::Rdtscp,
            PrimitiveKind::DirectRdpmc,
            PrimitiveKind::PerfRdpmc,
            PrimitiveKind::ClockMonotonic,
            PrimitiveKind::ClockMonotonicRaw,
            PrimitiveKind::ClockBoottime,
        ]
    );
    assert_eq!(
        applicable_primitives(target(TargetArch::Aarch64, TargetOs::MacOs)),
        vec![PrimitiveKind::CntvctEl0, PrimitiveKind::CntpctEl0, PrimitiveKind::MachAbs, PrimitiveKind::MachCont]
    );
    assert_eq!(
        applicable_primitives(target(TargetArch::X86_64, TargetOs::Windows)),
        vec![PrimitiveKind::Rdtsc, PrimitiveKind::Rdtscp, PrimitiveKind::Qpc]
    );
    assert!(applicable_primitives(target(TargetArch::Riscv64, TargetOs::OtherUnix)).is_empty());
    assert_eq!(PrimitiveKind::ClockMonotonicRaw.field_name(), "clock-monotonic-raw-bench");
    assert_eq!(PrimitiveKind::Qpc.field_name(), "qpc-bench");
}

#[test]
fn report_cells() {
    let reason = UnavailReason { category: UnavailCategory::Kernel, detail: "perf_event_paranoid=3".to_string() };
    assert_eq!(format_unavail(&reason), "unavailable: kernel: perf_event_paranoid=3");
    let reason = UnavailReason { category: UnavailCategory::Host, detail: "slow".to_string() };
    assert_eq!(format_unavail(&reason), "unavailable: host: slow");
    let reason = UnavailReason { category: UnavailCategory::NotApplicable, detail: String::new() };
    assert_eq!(format_unavail(&reason), "unavailable: not applicable");
    assert_eq!(yes_no(true), "yes");
    assert_eq!(yes_no(false), "no");
    assert_eq!(expected_status(false, false), "unchecked");
    assert_eq!(expected_status(true, true), "yes");
    assert_eq!(expected_status(true, false), "no");
}

#[test]
fn verdicts() {
    assert_eq!(
        verdict("unset", "unset", "x86_64-rdtsc", "x86_64-rdtsc", false),
        Verdict { expected_set: false, matches_expected: false, ok: true }
    );
    assert_eq!(
        verdict("unset", "x", "x86_64-rdtsc", "x", true),
        Verdict { expected_set: false, matches_expected: false, ok: false }
    );
    assert_eq!(
        verdict("x86_64-rdtsc", "x86_64-perf-rdpmc", "x86_64-rdtsc", "x86_64-perf-rdpmc", true),
        Verdict { expected_set: true, matches_expected: true, ok: true }
    );
    assert_eq!(
        verdict("x86_64-rdtsc", "x86_64-perf-rdpmc", "x86_64-rdtsc", "x86_64-rdtsc", true),
        Verdict { expected_set: true, matches_expected: false, ok: false }
    );
}

#[test]
fn summary_positions_and_interleaving() {
    assert_eq!(stat_positions(31), [0, 7, 15, 22, 28, 30]);
    assert_eq!(stat_positions(1), [0, 0, 0, 0, 0, 0]);
    assert_eq!(stat_positions(101), [0, 25, 50, 75, 95, 100]);
    assert_eq!(interleaved_order(0, 3), vec![0, 1, 2]);
    assert_eq!(interleaved_order(4, 3), vec![1, 2, 0]);
    assert_eq!(interleaved_order(usize::MAX, 7), vec![1, 2, 3, 4, 5, 6, 0]);
    for sample in 0..20 {
        let mut order = interleaved_order(sample, 6);
        order.sort();
        assert_eq!(order, vec![0, 1, 2, 3, 4, 5]);
    }
}

#[test]
fn environment_and_target_labels() {
    assert_eq!(tach::validation::target_label("x86_64", "linux", "gnu", 64), "x86_64-linux-gnu-64bit");
    assert_eq!(tach::validation::linux_environment_label(true, Some("m7i"), true), "aws-lambda");
    assert_eq!(tach::validation::linux_environment_label(false, Some("  m7i.large\n"), true), "m7i.large");
    assert_eq!(tach::validation::linux_environment_label(false, Some(" \n"), true), "container");
    assert_eq!(tach::validation::linux_environment_label(false, None, false), "linux");
}
