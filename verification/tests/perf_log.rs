//! The switch-perf log.

use buzz_delivery::perf_log::{
    append_line_rotating, capped_line, shape_parsed_record, shape_perf_log_line,
    truncate_at_char_boundary, AppendStage, AppendStep, LogAction, LogReply, MAX_LABEL_BYTES,
    MAX_LOG_BYTES, MAX_RECORD_BYTES, PERF_LOG_FILENAME, RETAINED_SUFFIX,
};

/// The two generations of a log, kept in memory.
#[derive(Default)]
struct Disk {
    live: Option<String>,
    retained: Option<String>,
    /// Something at the place of the retained generation that cannot be removed.
    blocked: bool,
    rename_fails: bool,
}

impl Disk {
    fn append(&mut self, line: &str, max_bytes: u64) -> Result<(), String> {
        let mut pending = append_line_rotating(line.to_owned(), max_bytes);
        loop {
            let reply = match pending.action() {
                LogAction::Measure => {
                    LogReply::Measured(self.live.as_ref().map(|text| text.len() as u64))
                }
                LogAction::CheckRetained => {
                    LogReply::Retained(self.blocked || self.retained.is_some())
                }
                LogAction::RemoveRetained => {
                    if !self.blocked {
                        self.retained = None;
                    }
                    LogReply::Removed(!self.blocked)
                }
                LogAction::Rotate => {
                    if !self.rename_fails {
                        self.retained = self.live.take();
                    }
                    LogReply::Rotated(!self.rename_fails)
                }
                LogAction::Append { text } => {
                    self.live.get_or_insert_with(String::new).push_str(&text);
                    LogReply::Appended(Ok(()))
                }
            };
            match pending.step(reply) {
                AppendStep::Do(next) => pending = next,
                AppendStep::Done(outcome) => return outcome,
            }
        }
    }
}

#[test]
fn shape_folds_in_git_sha_and_label() {
    let line = shape_perf_log_line(r#"{"totalMs":412}"#, Some("abc123-dirty"), Some("before"))
        .expect("shape");
    let value: serde_json::Value = serde_json::from_str(&line).expect("parse");
    assert_eq!(value["totalMs"], 412);
    assert_eq!(value["gitSha"], "abc123-dirty");
    assert_eq!(value["label"], "before");
    assert!(!line.contains('\n'));
}

#[test]
fn shape_without_label_or_sha_keeps_record_and_null_sha() {
    let line = shape_perf_log_line(r#"{"totalMs":1}"#, None, None).expect("shape");
    let value: serde_json::Value = serde_json::from_str(&line).expect("parse");
    assert_eq!(value["gitSha"], serde_json::Value::Null);
    assert!(value.get("label").is_none());
}

#[test]
fn shape_rejects_non_objects_and_oversized_records() {
    assert!(shape_perf_log_line("[1,2]", None, None).is_err());
    assert!(shape_perf_log_line("not json", None, None).is_err());
    let oversized = format!(r#"{{"pad":"{}"}}"#, "x".repeat(MAX_RECORD_BYTES));
    assert!(shape_perf_log_line(&oversized, None, None).is_err());
}

#[test]
fn shape_truncates_an_unbounded_label_and_keeps_the_line_capped() {
    let label = "l".repeat(1024 * 1024);
    let line =
        shape_perf_log_line(r#"{"totalMs":13}"#, Some("abc123"), Some(&label)).expect("shape");
    assert!(line.len() <= MAX_RECORD_BYTES, "line stays under the cap");
    let value: serde_json::Value = serde_json::from_str(&line).expect("parse");
    assert_eq!(value["label"].as_str().expect("label").len(), MAX_LABEL_BYTES);
    assert_eq!(value["totalMs"], 13);
}

#[test]
fn label_truncation_cuts_at_a_char_boundary() {
    let label = "€".repeat(MAX_LABEL_BYTES);
    let line = shape_perf_log_line(r#"{"totalMs":1}"#, None, Some(&label)).expect("shape");
    let value: serde_json::Value = serde_json::from_str(&line).expect("parse");
    let stored = value["label"].as_str().expect("label");
    assert_eq!(stored.len(), MAX_LABEL_BYTES - (MAX_LABEL_BYTES % 3));
    assert!(stored.chars().all(|c| c == '€'));
}

#[test]
fn shape_rejects_a_line_that_outgrows_the_cap_after_metadata() {
    let pad = "x".repeat(MAX_RECORD_BYTES - 20);
    let record = format!(r#"{{"pad":"{pad}"}}"#);
    assert!(record.len() <= MAX_RECORD_BYTES);
    assert!(shape_perf_log_line(&record, Some(&"s".repeat(64)), None).is_err());
}

#[test]
fn the_cap_bounds_bytes_on_disk_including_the_newline() {
    let fits = format!(r#"{{"pad":"{}"}}"#, "x".repeat(MAX_RECORD_BYTES - 25));
    let line = shape_perf_log_line(&fits, None, None).expect("one byte reserved for newline");
    assert_eq!(line.len(), MAX_RECORD_BYTES - 1);

    let mut disk = Disk::default();
    disk.append(&line, MAX_LOG_BYTES).expect("append");
    assert_eq!(
        disk.live.expect("live").len(),
        MAX_RECORD_BYTES,
        "on-disk record must not exceed the cap"
    );

    let over = format!(r#"{{"pad":"{}"}}"#, "x".repeat(MAX_RECORD_BYTES - 24));
    assert!(shape_perf_log_line(&over, None, None).is_err());
}

#[test]
fn append_rotates_once_over_the_cap_and_keeps_one_generation() {
    let mut disk = Disk::default();
    disk.append("first", 16).expect("append");
    disk.append("second", 16).expect("append");
    assert_eq!(disk.live.as_deref(), Some("first\nsecond\n"));

    disk.append("third-is-long", 16).expect("append");
    disk.append("fresh", 16).expect("append");
    assert_eq!(disk.live.as_deref(), Some("fresh\n"));
    assert_eq!(disk.retained.as_deref(), Some("first\nsecond\nthird-is-long\n"));

    disk.append("overflow-the-cap!", 16).expect("append");
    disk.append("newest", 16).expect("append");
    assert_eq!(disk.live.as_deref(), Some("newest\n"));
    assert_eq!(disk.retained.as_deref(), Some("fresh\noverflow-the-cap!\n"));
}

#[test]
fn rotation_replaces_an_existing_retained_generation() {
    let mut disk = Disk {
        live: Some("current-full\n".to_owned()),
        retained: Some("old-generation\n".to_owned()),
        ..Disk::default()
    };
    disk.append("fresh", 8).expect("rotation over existing .1 must succeed");
    assert_eq!(disk.live.as_deref(), Some("fresh\n"));
    assert_eq!(disk.retained.as_deref(), Some("current-full\n"));
}

#[test]
fn a_failed_rotation_degrades_to_an_unrotated_append() {
    let mut disk =
        Disk { live: Some("oversized-live\n".to_owned()), blocked: true, ..Disk::default() };
    disk.append("must-survive", 8).expect("append must survive a failed rotation");
    assert_eq!(disk.live.as_deref(), Some("oversized-live\nmust-survive\n"));
    assert!(disk.blocked, "blocker untouched");
}

#[test]
fn a_failed_rename_loses_the_retained_generation_and_no_line() {
    let mut disk = Disk {
        live: Some("oversized-live\n".to_owned()),
        retained: Some("old-generation\n".to_owned()),
        rename_fails: true,
        ..Disk::default()
    };
    disk.append("must-survive", 8).expect("append must survive a failed rotation");
    assert_eq!(disk.live.as_deref(), Some("oversized-live\nmust-survive\n"));
    assert_eq!(disk.retained, None);
}

#[test]
fn boundary_appends_lose_no_line_and_rotate_once() {
    let mut disk = Disk::default();
    let mut expected: Vec<String> = Vec::new();
    for writer in 0..8 {
        for line_index in 0..4 {
            let line = format!("writer-{writer:02}-line-{line_index:02}");
            disk.append(&line, 384).expect("append");
            expected.push(line);
        }
    }
    let rotated = disk.retained.expect("rotation must have occurred");
    let live = disk.live.expect("live");
    let lines: Vec<String> =
        rotated.lines().chain(live.lines()).map(str::to_string).collect();
    assert_eq!(lines, expected, "every append must survive the boundary");
}

#[test]
fn a_log_stays_bounded() {
    let mut disk = Disk::default();
    let line = "x".repeat(MAX_RECORD_BYTES - 1);
    for _ in 0..50 {
        disk.append(&line, 10000).expect("append");
        for generation in [&disk.live, &disk.retained] {
            let bytes = generation.as_ref().map_or(0, String::len);
            assert!(bytes <= 10000 + MAX_RECORD_BYTES);
        }
    }
}

#[test]
fn a_log_of_exactly_the_cap_is_not_rotated() {
    let mut disk = Disk { live: Some("1234567\n".to_owned()), ..Disk::default() };
    disk.append("x", 8).expect("append");
    assert_eq!(disk.live.as_deref(), Some("1234567\nx\n"));
    assert_eq!(disk.retained, None);
}

#[test]
fn a_log_one_byte_over_the_cap_is_rotated() {
    let mut disk = Disk { live: Some("12345678\n".to_owned()), ..Disk::default() };
    disk.append("x", 8).expect("append");
    assert_eq!(disk.live.as_deref(), Some("x\n"));
    assert_eq!(disk.retained.as_deref(), Some("12345678\n"));
}

#[test]
fn a_failed_append_is_reported() {
    let mut pending = append_line_rotating("line".to_owned(), 8);
    pending.stage = AppendStage::Append;
    match pending.step(LogReply::Appended(Err("disk full".to_owned()))) {
        AppendStep::Done(outcome) => assert_eq!(outcome, Err("disk full".to_owned())),
        AppendStep::Do(_) => panic!("the append is over"),
    }
}

#[test]
fn a_reply_to_something_else_changes_nothing() {
    let pending = append_line_rotating("line".to_owned(), 8);
    match pending.step(LogReply::Rotated(true)) {
        AppendStep::Do(same) => {
            assert_eq!(same.stage, AppendStage::Measure);
            assert_eq!(same.line, "line");
            assert_eq!(same.max_bytes, 8);
        }
        AppendStep::Done(_) => panic!("nothing was appended"),
    }
}

#[test]
fn shaping_errors_are_told_apart() {
    let oversized = "x".repeat(MAX_RECORD_BYTES + 1);
    assert_eq!(
        shape_perf_log_line(&oversized, None, None),
        Err("perf log record too large".to_owned())
    );
    assert_eq!(
        shape_perf_log_line("[1,2]", None, None),
        Err("perf log record must be a JSON object".to_owned())
    );
    let error = serde_json::from_str::<serde_json::Value>("not json").expect_err("not json");
    assert_eq!(
        shape_perf_log_line("not json", None, None),
        Err(format!("invalid perf log record: {error}"))
    );
    assert_eq!(
        shape_parsed_record(Err("cause".to_owned()), None, None),
        Err("invalid perf log record: cause".to_owned())
    );
    assert_eq!(
        shape_parsed_record(Ok(None), None, None),
        Err("perf log record must be a JSON object".to_owned())
    );
    assert_eq!(
        capped_line("x".repeat(MAX_RECORD_BYTES)),
        Err("perf log line too large".to_owned())
    );
    assert_eq!(capped_line("x".repeat(9)), Ok("x".repeat(9)));
    let longest = "x".repeat(MAX_RECORD_BYTES - 1);
    assert_eq!(capped_line(longest.clone()), Ok(longest));
}

#[test]
fn shaped_lines_are_exact_and_metadata_wins() {
    assert_eq!(
        shape_perf_log_line(
            "{\"totalMs\": 7,\n \"gitSha\": 1, \"label\": 2}",
            Some("a\"b\nc"),
            Some("run")
        ),
        Ok(r#"{"gitSha":"a\"b\nc","label":"run","totalMs":7}"#.to_owned())
    );
    let mut object = serde_json::Map::new();
    object.insert("ok".to_owned(), serde_json::Value::Bool(true));
    assert_eq!(
        shape_parsed_record(Ok(Some(object)), None, None),
        Ok(r#"{"gitSha":null,"ok":true}"#.to_owned())
    );
}

#[test]
fn a_flat_record_reads_back_from_its_line() {
    let record = r#"{"a":null,"b":true,"c":-9223372036854775808,"d":18446744073709551615,"e":"\u0000é\n"}"#;
    let line = shape_perf_log_line(record, Some("sha"), Some("label")).expect("shape");
    let again = shape_perf_log_line(&line, Some("sha"), Some("label")).expect("shape");
    assert_eq!(line, again);
    let before: serde_json::Value = serde_json::from_str(record).expect("parse");
    let after: serde_json::Value = serde_json::from_str(&line).expect("parse");
    for name in ["a", "b", "c", "d", "e"] {
        assert_eq!(before[name], after[name]);
    }
}

#[test]
fn a_nested_record_reads_back_from_its_line() {
    let deepest = format!("{}{}", "[".repeat(126), "]".repeat(126));
    let record = format!(
        r#"{{"list":[1,[null,"1.5e3",-7],{{}}],"object":{{"z":{{"a":[]}},"b":"\n.é"}},"deep":{deepest}}}"#
    );
    let line = shape_perf_log_line(&record, Some("sha"), None).expect("shape");
    assert!(!line.contains('\n'));
    assert_eq!(shape_perf_log_line(&line, Some("sha"), None).expect("shape"), line);
    let before: serde_json::Value = serde_json::from_str(&record).expect("parse");
    let after: serde_json::Value = serde_json::from_str(&line).expect("parse");
    for name in ["list", "object", "deep"] {
        assert_eq!(before[name], after[name]);
    }
    let deeper = format!(r#"{{"deep":[{deepest}]}}"#);
    assert!(shape_perf_log_line(&deeper, Some("sha"), None).is_err());
}

#[test]
fn truncation_keeps_whole_characters() {
    assert_eq!(truncate_at_char_boundary("héllo", 6), "héllo");
    assert_eq!(truncate_at_char_boundary("héllo", 5), "héll");
    assert_eq!(truncate_at_char_boundary("héllo", 2), "h");
    assert_eq!(truncate_at_char_boundary("héllo", 0), "");
    assert_eq!(truncate_at_char_boundary("\u{1f600}x", 3), "");
    assert_eq!(truncate_at_char_boundary("\u{1f600}x", 4), "\u{1f600}");
    assert_eq!(truncate_at_char_boundary("", 0), "");
}

#[test]
fn log_files_and_caps() {
    assert_eq!(PERF_LOG_FILENAME, "switch-perf.jsonl");
    assert_eq!(RETAINED_SUFFIX, ".1");
    assert_eq!(MAX_RECORD_BYTES, 4096);
    assert_eq!(MAX_LABEL_BYTES, 128);
    assert_eq!(MAX_LOG_BYTES, 10485760);
}
