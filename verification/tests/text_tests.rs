use daq_sentry::find_pid_in_ps_output;
use daq_sentry::text::{parse_u64, run_directory, str_eq, tokens, u64_dec};
use daq_sentry::SentryParameters;

fn params(experiment: &str, run_number: i32) -> SentryParameters {
    SentryParameters { experiment: String::from(experiment), run_number }
}

#[test]
fn run_directory_pads_to_four_digits() {
    let d = run_directory("/data/exp1", &params("e1", 7));
    assert_eq!(d, "/data/exp1/e1/run_0007");
}

#[test]
fn run_directory_zero_run() {
    let d = run_directory("/data", &params("exp", 0));
    assert_eq!(d, "/data/exp/run_0000");
}

#[test]
fn run_directory_wide_run_number_is_not_truncated() {
    let d = run_directory("/data", &params("exp", 12345));
    assert_eq!(d, "/data/exp/run_12345");
}

#[test]
fn run_directory_matches_standard_formatting() {
    for n in [-12345, -1234, -100, -7, -1, 0, 1, 9, 10, 99, 100, 999, 1000, 9999, 10000, 2147483647]
    {
        let d = run_directory("/r", &params("e", n));
        assert_eq!(d, format!("/r/e/run_{:04}", n));
    }
}

#[test]
fn u64_dec_renders_decimal() {
    assert_eq!(u64_dec(0), "0");
    assert_eq!(u64_dec(10), "10");
    assert_eq!(u64_dec(18446744073709551615), "18446744073709551615");
}

#[test]
fn parse_u64_accepts_plain_numerals() {
    assert_eq!(parse_u64("0"), Some(0));
    assert_eq!(parse_u64("123"), Some(123));
    assert_eq!(parse_u64("18446744073709551615"), Some(u64::MAX));
}

#[test]
fn parse_u64_rejects_junk_and_overflow() {
    assert_eq!(parse_u64(""), None);
    assert_eq!(parse_u64("12a"), None);
    assert_eq!(parse_u64("-5"), None);
    assert_eq!(parse_u64(" 12"), None);
    assert_eq!(parse_u64("18446744073709551616"), None);
    assert_eq!(parse_u64("99999999999999999999"), None);
}

#[test]
fn str_eq_compares_contents() {
    assert!(str_eq("", ""));
    assert!(str_eq("dataRouter", "dataRouter"));
    assert!(!str_eq("dataRouter", "dataRoute"));
    assert!(!str_eq("a", "b"));
}

#[test]
fn tokens_split_on_blanks() {
    let t = tokens("  363 ??         1:30.63 dataRouter");
    assert_eq!(t, vec!["363", "??", "1:30.63", "dataRouter"]);
}

#[test]
fn tokens_of_empty_line_are_empty() {
    let t = tokens("   ");
    assert!(t.is_empty());
}

const PS_OUTPUT: &str = "  PID TTY           TIME CMD\n\
                         363 ??         1:30.63 dataRouter\n\
                         414 ??         0:00.47 getEccSoapServer\n";

#[test]
fn ps_parser_finds_the_named_process() {
    assert_eq!(find_pid_in_ps_output(PS_OUTPUT, "dataRouter"), Some(363));
    assert_eq!(find_pid_in_ps_output(PS_OUTPUT, "getEccSoapServer"), Some(414));
}

#[test]
fn ps_parser_reports_absence() {
    assert_eq!(find_pid_in_ps_output(PS_OUTPUT, "nosuchprocess"), None);
    assert_eq!(find_pid_in_ps_output("", "dataRouter"), None);
}

#[test]
fn ps_parser_ignores_the_header_and_short_lines() {
    assert_eq!(find_pid_in_ps_output(PS_OUTPUT, "CMD"), None);
    assert_eq!(find_pid_in_ps_output("363 dataRouter\n", "dataRouter"), None);
}

#[test]
fn ps_parser_skips_lines_whose_id_is_not_numeric() {
    let out = "abc ?? 0:00.01 dataRouter\n77 ?? 0:00.02 dataRouter\n";
    assert_eq!(find_pid_in_ps_output(out, "dataRouter"), Some(77));
}
