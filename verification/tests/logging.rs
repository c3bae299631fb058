use mumbleacre::logging::{
    backup_suffix, format_event_line, rotates_on_open, rotation_steps, run_id, EventLog,
    LevelConfig, LogLevel, RotationPolicy, RotationStep,
};

#[test]
fn levels_parse_and_filter_consistently() {
    assert_eq!(LogLevel::parse(" DEBUG "), Some(LogLevel::Debug));
    assert!(LogLevel::Info.allows(LogLevel::Warn));
    assert!(!LogLevel::Info.allows(LogLevel::Debug));
    assert_eq!(
        LevelConfig::from_value(Some("verbose")),
        LevelConfig {
            level: LogLevel::Info,
            invalid_value: Some("verbose".to_owned())
        }
    );
}

#[test]
fn format_is_single_line_and_has_stable_fields() {
    let line = format_event_line(
        123,
        LogLevel::Warn,
        "plug in",
        "run=1",
        "bad event",
        "first\r\nsecond\tthird",
    );

    assert_eq!(
        line,
        "timestamp_unix_ms=123 level=warn component=plug_in run_id=run_1 event=bad_event message=first  second third"
    );
    assert_eq!(line.lines().count(), 1);
}

#[test]
fn each_log_instance_gets_a_distinct_safe_run_id() {
    let first = run_id(4711, 1_700_000_000_000, 0);
    let second = run_id(4711, 1_700_000_000_000, 1);

    assert_ne!(first, second);
    assert!(first.chars().all(|character| {
        character.is_ascii_alphanumeric() || matches!(character, '_' | '-' | '.')
    }));
}

#[test]
fn levels_read_back_from_their_names() {
    for level in [
        LogLevel::Error,
        LogLevel::Warn,
        LogLevel::Info,
        LogLevel::Debug,
        LogLevel::Trace,
    ] {
        assert_eq!(LogLevel::parse(level.as_str()), Some(level));
        assert!(level.allows(level));
    }
    assert_eq!(LogLevel::parse("loud"), None);
    assert_eq!(
        LevelConfig::from_value(None),
        LevelConfig {
            level: LogLevel::Info,
            invalid_value: None
        }
    );
}

#[test]
fn events_beyond_the_level_leave_no_line() {
    let log = EventLog::open_with_policy(
        "test",
        LogLevel::Info,
        "run-filter",
        RotationPolicy::default(),
        0,
    );
    assert!(log.prepare(1, LogLevel::Debug, "audio_decision", "hidden").is_none());
    let prepared = log.prepare(1, LogLevel::Info, "started", "visible").unwrap();
    assert!(prepared.line.contains("event=started message=visible"));
    assert!(!prepared.rotate);
    assert_eq!(log.run_id(), "run-filter");
}

fn rotate(files: &mut Vec<Option<usize>>, backups: usize) {
    let present: Vec<bool> = files.iter().map(Option::is_some).collect();
    for step in rotation_steps(backups, &present) {
        match step {
            RotationStep::Remove(index) => files[index] = None,
            RotationStep::Rename { from, to } => files[to] = files[from].take(),
        }
    }
}

#[test]
fn full_files_become_backups_up_to_the_configured_number() {
    let policy = RotationPolicy {
        max_bytes: 170,
        backups: 2,
    };
    let mut log =
        EventLog::open_with_policy("test", LogLevel::Trace, "run-rotation", policy, 0);
    let mut files: Vec<Option<usize>> = vec![Some(0), None, None, None];

    for index in 0..8 {
        let prepared = log
            .prepare(1, LogLevel::Info, "rotation", &format!("entry={index}"))
            .unwrap();
        if prepared.rotate {
            rotate(&mut files, 2);
            files[0] = Some(index);
            log.rotated();
        }
        log.written(&prepared.line);
    }

    assert!(files[0].is_some());
    assert!(files[1].is_some());
    assert!(files[2].is_some());
    assert!(files[3].is_none());
    assert!(files[0] > files[1] && files[1] > files[2]);
    assert_eq!(backup_suffix(2), ".2");
    assert!(rotates_on_open(policy, Some(171)));
    assert!(!rotates_on_open(policy, Some(1)));
    assert!(!rotates_on_open(policy, None));
}

#[test]
fn level_names_read_back_in_any_case_and_padding() {
    for level in [
        LogLevel::Error,
        LogLevel::Warn,
        LogLevel::Info,
        LogLevel::Debug,
        LogLevel::Trace,
    ] {
        let name = level.as_str();
        let mixed: String = name
            .chars()
            .enumerate()
            .map(|(at, c)| if at % 2 == 1 { c.to_ascii_uppercase() } else { c })
            .collect();
        for written in [name.to_owned(), name.to_ascii_uppercase(), mixed] {
            for (front, behind) in [("", ""), (" ", ""), ("\t\u{a0}", "\r\n"), ("\u{2003}", "  ")] {
                let padded = format!("{front}{written}{behind}");
                assert_eq!(LogLevel::parse(&padded), Some(level), "{padded:?}");
            }
        }
    }
    assert_eq!(LogLevel::parse("de bug"), None);
}
