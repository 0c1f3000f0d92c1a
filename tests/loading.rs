use logview::line_buffer::{filter_lines, keep_line};
use logview::menu::menu_accepts;
use logview::render::{preview_height, preview_rows, row_label, row_text, text_width};
use logview::summary::{find_from_exec, process_log_file, summary_inputs, white_space, write_summary_log_header, SUMMARY_LEGEND};
use logview::term::TermStat;
use logview::text::chars_of;

fn strings(v: &[&str]) -> Vec<String> {
    v.iter().map(|s| s.to_string()).collect()
}

#[test]
fn filter_drops_directories_and_continuations() {
    let lines = strings(&["a/", " b", "c", ""]);
    assert_eq!(filter_lines(&lines), strings(&["c", ""]));
}

#[test]
fn filter_keeps_other_lines_verbatim() {
    let lines = strings(&["2024/01/01 sent 10 bytes", "/", "x/y", "\tindented", "dir/sub/", "  two"]);
    assert_eq!(filter_lines(&lines), strings(&["2024/01/01 sent 10 bytes", "x/y", "\tindented"]));
    assert!(filter_lines(&Vec::new()).is_empty());
}

#[test]
fn keep_line_cases() {
    assert!(keep_line(""));
    assert!(keep_line("abc"));
    assert!(!keep_line("abc/"));
    assert!(!keep_line(" abc"));
    assert!(keep_line("é/x"));
}

#[test]
fn row_labels_are_right_aligned() {
    assert_eq!(row_label(0), "   0");
    assert_eq!(row_label(7), "   7");
    assert_eq!(row_label(42), "  42");
    assert_eq!(row_label(1234), "1234");
    assert_eq!(row_label(123456), "123456");
}

#[test]
fn row_text_truncates_by_characters() {
    assert_eq!(row_text("abcdef", 3), "abc");
    assert_eq!(row_text("abc", 3), "abc");
    assert_eq!(row_text("ab", 10), "ab");
    assert_eq!(row_text("héllo", 2), "hé");
    assert_eq!(row_text("abc", 0), "");
    assert_eq!(text_width(80), 66);
    assert_eq!(text_width(10), 0);
}

#[test]
fn preview_geometry() {
    assert_eq!(preview_height(40), 19);
    assert_eq!(preview_height(20), 0);
    assert_eq!(preview_rows(3, 10), (3, 7));
    assert_eq!(preview_rows(30, 10), (10, 0));
    assert_eq!(preview_rows(0, 0), (0, 0));
}

#[test]
fn menu_filter() {
    let keys = vec!['j', 'k', 's', 'q'];
    assert!(menu_accepts(&keys, 'j'));
    assert!(menu_accepts(&keys, 'q'));
    assert!(menu_accepts(&keys, ' '));
    assert!(menu_accepts(&keys, '\n'));
    assert!(!menu_accepts(&keys, 'x'));
    assert!(!menu_accepts(&Vec::new(), 'j'));
}

#[test]
fn search_finds_first_occurrence() {
    let s = chars_of("abcabc");
    assert_eq!(find_from_exec(&s, &chars_of("bc"), 0), Some(1));
    assert_eq!(find_from_exec(&s, &chars_of("bc"), 2), Some(4));
    assert_eq!(find_from_exec(&s, &chars_of("cb"), 0), None);
    assert_eq!(find_from_exec(&s, &chars_of(""), 6), Some(6));
    assert!(white_space('\t'));
    assert!(white_space('\u{3000}'));
    assert!(!white_space('x'));
}

#[test]
fn summary_line_of_a_transfer_log() {
    let lines = strings(&[
        "2024/05/01 12:00:00 [1] building file list",
        "Number of files: 1,234 (reg: 1,000, dir: 200, link: 34)",
        "Number of created files: 5 (reg: 5)",
        "Number of deleted files: 0",
        "Number of regular files transferred: 12",
        "Total file size: 9,999 bytes",
    ]);
    assert_eq!(
        process_log_file("run1.log", &lines),
        "run1.log | f:   1,234 | r:   1,000 | d:     200 | l:      34 | c:       5 | d:       0 | x:      12 | "
    );
}

#[test]
fn summary_line_without_counters() {
    assert_eq!(process_log_file("empty.log", &Vec::new()), "empty.log | ");
    let lines = strings(&["nothing here", "of files:"]);
    assert_eq!(process_log_file("a.log", &lines), "a.log | f:         | ");
}

#[test]
fn summary_value_stops_at_next_occurrence_and_trims() {
    let lines = strings(&["deleted files:\t 42\t more", "created files: 7of files: 3"]);
    assert_eq!(
        process_log_file("b.log", &lines),
        "b.log | d:      42 | f:       3 | c:     7of | "
    );
}

#[test]
fn summary_header_is_sized_to_the_name() {
    let mut report = Vec::new();
    write_summary_log_header(&mut report, "run1.log");
    assert_eq!(report, vec![format!("legend:  {}", SUMMARY_LEGEND)]);
    let mut report = vec!["x".to_string()];
    write_summary_log_header(&mut report, "a.log");
    assert_eq!(report[1], format!("legend:{}", SUMMARY_LEGEND));
    write_summary_log_header(&mut report, "abcdef.log");
    assert_eq!(report[2], format!("legend:    {}", SUMMARY_LEGEND));
}

#[test]
fn summary_inputs_drop_the_report() {
    let sorted = strings(&["a.log", "b.log", "summary.log"]);
    assert_eq!(summary_inputs(&sorted), strings(&["b.log", "a.log"]));
    let sorted = strings(&["a.log", "summary.log", "z.log"]);
    assert_eq!(summary_inputs(&sorted), strings(&["z.log", "summary.log", "a.log"]));
    assert!(summary_inputs(&Vec::new()).is_empty());
}

#[test]
fn term_stat_snapshot() {
    let t = TermStat::new((80, 24), (3, 4));
    assert_eq!(t, TermStat { line_count: 0, width: 80, height: 24, xpos: 3, ypos: 4 });
}
