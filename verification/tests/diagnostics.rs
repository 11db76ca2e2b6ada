use easy_paper::svc_build::{
    extract_file_line, locate_in_line, parse_latex_log, parse_tectonic_output,
};
use easy_paper::text::split_lines;

fn cs(s: &str) -> Vec<char> {
    s.chars().collect()
}

fn lines(s: &str) -> Vec<Vec<char>> {
    split_lines(&cs(s))
}

#[test]
fn error_line_wins_over_warning() {
    let (errors, warnings) = parse_tectonic_output("error: bad warning: too", "");
    assert_eq!(errors.len(), 1);
    assert_eq!(warnings.len(), 0);
    assert_eq!(errors[0].message, "error: bad warning: too");
    assert_eq!(errors[0].file, None);
    assert_eq!(errors[0].line, None);
}

#[test]
fn error_line_wins_wherever_it_stands() {
    let (errors, warnings) = parse_tectonic_output(
        "warning: first\nnote: x\nwarning: w and error: e\n",
        "Warning: last",
    );
    assert_eq!(errors.len(), 1);
    assert_eq!(errors[0].message, "warning: w and error: e");
    assert_eq!(warnings.len(), 2);
    assert_eq!(warnings[0].message, "warning: first");
    assert_eq!(warnings[1].message, "Warning: last");
}

#[test]
fn direct_output_reads_both_streams_in_order() {
    let (errors, warnings) = parse_tectonic_output(
        "error: one\nwarning: a",
        "Error: two\nWarning: b\nplain",
    );
    let e: Vec<&str> = errors.iter().map(|d| d.message.as_str()).collect();
    let w: Vec<&str> = warnings.iter().map(|d| d.message.as_str()).collect();
    assert_eq!(e, vec!["error: one", "Error: two"]);
    assert_eq!(w, vec!["warning: a", "Warning: b"]);
}

#[test]
fn direct_output_streams_do_not_run_together() {
    let (errors, _) = parse_tectonic_output("err", "or: x");
    assert_eq!(errors.len(), 0);
}

#[test]
fn direct_output_keeps_only_the_two_spellings() {
    let (errors, warnings) = parse_tectonic_output("ERROR: x\nWARNING: y\nerror :z\nerror", "");
    assert_eq!(errors.len(), 0);
    assert_eq!(warnings.len(), 0);
}

#[test]
fn direct_output_keeps_duplicates() {
    let (errors, _) = parse_tectonic_output("error: x\nerror: x", "");
    assert_eq!(errors.len(), 2);
}

#[test]
fn direct_output_of_nothing() {
    let (errors, warnings) = parse_tectonic_output("", "");
    assert_eq!(errors.len(), 0);
    assert_eq!(warnings.len(), 0);
}

#[test]
fn line_gives_file_and_number() {
    assert_eq!(locate_in_line(&cs("./ch1.tex:42")), Some(("ch1.tex".to_string(), 42)));
    assert_eq!(
        locate_in_line(&cs("./ch1.tex:42: Undefined control sequence.")),
        Some(("ch1.tex".to_string(), 42))
    );
    assert_eq!(locate_in_line(&cs("sections/a.tex:7")), Some(("sections/a.tex".to_string(), 7)));
    assert_eq!(locate_in_line(&cs("././a.tex:1")), Some(("./a.tex".to_string(), 1)));
    assert_eq!(locate_in_line(&cs("a./b.tex:1")), Some(("a./b.tex".to_string(), 1)));
    assert_eq!(locate_in_line(&cs("a.tex:0")), Some(("a.tex".to_string(), 0)));
    assert_eq!(locate_in_line(&cs("a.tex:007x")), Some(("a.tex".to_string(), 7)));
    assert_eq!(locate_in_line(&cs("a.tex:4294967295")), Some(("a.tex".to_string(), u32::MAX)));
}

#[test]
fn line_without_place() {
    assert_eq!(locate_in_line(&cs("")), None);
    assert_eq!(locate_in_line(&cs("ch1.tex")), None);
    assert_eq!(locate_in_line(&cs("ch1.tex:")), None);
    assert_eq!(locate_in_line(&cs("ch1.tex: 42")), None);
    assert_eq!(locate_in_line(&cs("ch1.tex:x42")), None);
    assert_eq!(locate_in_line(&cs("ch1.tex:-1")), None);
    assert_eq!(locate_in_line(&cs("a.tex:4294967296")), None);
    assert_eq!(locate_in_line(&cs("a.tex:x b.tex:5")), None);
}

#[test]
fn log_error_takes_place_from_two_lines_before() {
    let log = "intro\n./ch1.tex:42\nsomething\n! Undefined control sequence\nrest";
    let (errors, warnings) = parse_latex_log(log);
    assert_eq!(warnings.len(), 0);
    assert_eq!(errors.len(), 1);
    assert_eq!(errors[0].file.as_deref(), Some("ch1.tex"));
    assert_eq!(errors[0].line, Some(42));
    assert_eq!(errors[0].message, "Undefined control sequence");
}

#[test]
fn log_error_takes_place_at_every_gap_up_to_five() {
    for gap in 1..=5usize {
        let mut log = String::from("./ch1.tex:42\n");
        for _ in 1..gap {
            log.push_str("filler\n");
        }
        log.push_str("! Undefined control sequence\n");
        let (errors, _) = parse_latex_log(&log);
        assert_eq!(errors.len(), 1);
        assert_eq!(errors[0].file.as_deref(), Some("ch1.tex"));
        assert_eq!(errors[0].line, Some(42));
    }
}

#[test]
fn log_error_without_place_in_reach() {
    let log = "./ch1.tex:42\n1\n2\n3\n4\n5\n! Undefined control sequence";
    let (errors, _) = parse_latex_log(log);
    assert_eq!(errors.len(), 1);
    assert_eq!(errors[0].file, None);
    assert_eq!(errors[0].line, None);
    assert_eq!(errors[0].message, "Undefined control sequence");
}

#[test]
fn log_error_on_first_line_has_no_place() {
    let (errors, _) = parse_latex_log("! Emergency stop.");
    assert_eq!(errors.len(), 1);
    assert_eq!(errors[0].file, None);
    assert_eq!(errors[0].line, None);
    assert_eq!(errors[0].message, "Emergency stop.");
}

#[test]
fn log_error_takes_the_nearest_place() {
    let log = "./a.tex:1\n./b.tex:2\n! Bad";
    let (errors, _) = parse_latex_log(log);
    assert_eq!(errors[0].file.as_deref(), Some("b.tex"));
    assert_eq!(errors[0].line, Some(2));
}

#[test]
fn log_marker_is_stripped_once() {
    let (errors, _) = parse_latex_log("! ! x\n");
    assert_eq!(errors.len(), 1);
    assert_eq!(errors[0].file, None);
    assert_eq!(errors[0].line, None);
    assert_eq!(errors[0].message, "! x");
}

#[test]
fn log_errors_are_the_marked_lines_without_their_marker() {
    let log = "! one\n!no space\n ! indented\n! ! two\n!\n! \nplain\n!  three";
    let (errors, _) = parse_latex_log(log);
    let e: Vec<&str> = errors.iter().map(|d| d.message.as_str()).collect();
    assert_eq!(e, vec!["one", "! two", "", " three"]);
}

#[test]
fn log_warnings_have_no_place() {
    let log = "./a.tex:3\nLaTeX Warning: Reference undefined\nwarning: lower\n! Warning: both";
    let (errors, warnings) = parse_latex_log(log);
    assert_eq!(warnings.len(), 1);
    assert_eq!(warnings[0].message, "LaTeX Warning: Reference undefined");
    assert_eq!(warnings[0].file, None);
    assert_eq!(warnings[0].line, None);
    assert_eq!(errors.len(), 1);
    assert_eq!(errors[0].message, "Warning: both");
    assert_eq!(errors[0].file.as_deref(), Some("a.tex"));
    assert_eq!(errors[0].line, Some(3));
}

#[test]
fn log_keeps_discovery_order() {
    let log = "! one\nPackage Warning: a\n! two\nClass Warning: b";
    let (errors, warnings) = parse_latex_log(log);
    let e: Vec<&str> = errors.iter().map(|d| d.message.as_str()).collect();
    let w: Vec<&str> = warnings.iter().map(|d| d.message.as_str()).collect();
    assert_eq!(e, vec!["one", "two"]);
    assert_eq!(w, vec!["Package Warning: a", "Class Warning: b"]);
}

#[test]
fn log_with_windows_line_endings() {
    let (errors, _) = parse_latex_log("./a.tex:9\r\n! Bad\r\n");
    assert_eq!(errors[0].message, "Bad");
    assert_eq!(errors[0].file.as_deref(), Some("a.tex"));
    assert_eq!(errors[0].line, Some(9));
}

#[test]
fn empty_log_reports_nothing() {
    let (errors, warnings) = parse_latex_log("");
    assert!(errors.is_empty());
    assert!(warnings.is_empty());
}

#[test]
fn extract_file_line_searches_five_lines_back() {
    let l = lines("./ch1.tex:42\nx\n! e\na\nb\nc\nd");
    assert_eq!(extract_file_line(&l, 2), (Some("ch1.tex".to_string()), Some(42)));
    assert_eq!(extract_file_line(&l, 5), (Some("ch1.tex".to_string()), Some(42)));
    assert_eq!(extract_file_line(&l, 6), (None, None));
    assert_eq!(extract_file_line(&l, 0), (None, None));
    assert_eq!(extract_file_line(&l, 1), (Some("ch1.tex".to_string()), Some(42)));
    assert_eq!(extract_file_line(&l, 7), (None, None));
}

#[test]
fn extract_file_line_does_not_read_the_line_itself() {
    let l = lines("plain\n./a.tex:5");
    assert_eq!(extract_file_line(&l, 1), (None, None));
    assert_eq!(extract_file_line(&l, 2), (Some("a.tex".to_string()), Some(5)));
}
