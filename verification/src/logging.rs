//! Human-readable structured log lines, and when the log file rotates.

use crate::decimal::{self, push_decimal, push_wide_decimal};
use crate::model;
use crate::text::{chars_of, same_text};
use vstd::prelude::*;

verus! {

/// How large a log file may grow unless told otherwise.
pub const DEFAULT_MAX_LOG_BYTES: u64 = 2_097_152;

/// How many rotated files are kept unless told otherwise.
pub const DEFAULT_BACKUPS: usize = 3;

/// How grave an event is.
#[derive(Clone, Copy, Debug, PartialEq, Eq, PartialOrd, Ord, Structural)]
pub enum LogLevel {
    Error,
    Warn,
    Info,
    Debug,
    Trace,
}

/// The level to log at, with the value that could not be read, if any.
#[derive(Debug, PartialEq, Eq)]
pub struct LevelConfig {
    pub level: LogLevel,
    pub invalid_value: Option<String>,
}

/// When a log file rotates and how many old ones are kept.
#[derive(Clone, Copy, Debug, PartialEq, Eq, Structural)]
pub struct RotationPolicy {
    pub max_bytes: u64,
    pub backups: usize,
}

/// The place of a level among the levels, the gravest first.
pub open spec fn rank(level: LogLevel) -> int {
    match level {
        LogLevel::Error => 0,
        LogLevel::Warn => 1,
        LogLevel::Info => 2,
        LogLevel::Debug => 3,
        LogLevel::Trace => 4,
    }
}

/// Whether a log at the level records the event.
pub open spec fn records(level: LogLevel, event: LogLevel) -> bool {
    rank(event) <= rank(level)
}

/// The name of a level.
pub open spec fn level_name(level: LogLevel) -> Seq<char> {
    match level {
        LogLevel::Error => "error"@,
        LogLevel::Warn => "warn"@,
        LogLevel::Info => "info"@,
        LogLevel::Debug => "debug"@,
        LogLevel::Trace => "trace"@,
    }
}

/// Whether Unicode counts the character as white space.
pub open spec fn is_white(c: char) -> bool {
    '\u{9}' <= c <= '\u{d}' || c == ' ' || c == '\u{85}' || c == '\u{a0}' || c == '\u{1680}'
        || '\u{2000}' <= c <= '\u{200a}' || c == '\u{2028}' || c == '\u{2029}' || c == '\u{202f}'
        || c == '\u{205f}' || c == '\u{3000}'
}

/// Whether the character is a control character.
pub open spec fn is_control(c: char) -> bool {
    c <= '\u{1f}' || '\u{7f}' <= c <= '\u{9f}'
}

/// The text without the white space in front.
pub open spec fn trimmed_front(text: Seq<char>) -> Seq<char>
    decreases text.len(),
{
    if text.len() > 0 && is_white(text[0]) {
        trimmed_front(text.skip(1))
    } else {
        text
    }
}

/// The text without the white space behind.
pub open spec fn trimmed_back(text: Seq<char>) -> Seq<char>
    decreases text.len(),
{
    if text.len() > 0 && is_white(text.last()) {
        trimmed_back(text.drop_last())
    } else {
        text
    }
}

/// The text without the white space around it.
pub open spec fn trimmed(text: Seq<char>) -> Seq<char> {
    trimmed_back(trimmed_front(text))
}

/// The lower-case letter of an ASCII capital; any other character itself.
pub open spec fn lower(c: char) -> char {
    if 'A' <= c <= 'Z' {
        ((c as u32 + 32) as u32) as char
    } else {
        c
    }
}

/// The text with ASCII capitals in lower case.
pub open spec fn lowered(text: Seq<char>) -> Seq<char> {
    Seq::new(text.len(), |i: int| lower(text[i]))
}

/// The level that a setting names, in any case and with white space around it.
pub open spec fn named_level(value: Seq<char>) -> Option<LogLevel> {
    let name = lowered(trimmed(value));
    if name == "error"@ {
        Some(LogLevel::Error)
    } else if name == "warn"@ {
        Some(LogLevel::Warn)
    } else if name == "info"@ {
        Some(LogLevel::Info)
    } else if name == "debug"@ {
        Some(LogLevel::Debug)
    } else if name == "trace"@ {
        Some(LogLevel::Trace)
    } else {
        None
    }
}

/// Letters, digits, underscore, hyphen and full stop stay in a token.
pub open spec fn is_token_char(c: char) -> bool {
    '0' <= c <= '9' || 'A' <= c <= 'Z' || 'a' <= c <= 'z' || c == '_' || c == '-' || c == '.'
}

/// A field made of token characters only, and never empty.
pub open spec fn clean_token_of(value: Seq<char>) -> Seq<char> {
    if value.len() == 0 {
        "unknown"@
    } else {
        Seq::new(
            value.len(),
            |i: int|
                if is_token_char(value[i]) {
                    value[i]
                } else {
                    '_'
                },
        )
    }
}

/// A character fit for a single log line.
pub open spec fn clean_char(c: char) -> char {
    if c == '\r' || c == '\n' || c == '\t' {
        ' '
    } else if is_control(c) {
        '?'
    } else {
        c
    }
}

/// A message fit for a single log line.
pub open spec fn clean_message_of(value: Seq<char>) -> Seq<char> {
    let kept = trimmed(value);
    Seq::new(kept.len(), |i: int| clean_char(kept[i]))
}

/// One log line.
pub open spec fn event_line(
    timestamp_unix_ms: nat,
    level: LogLevel,
    component: Seq<char>,
    run_id: Seq<char>,
    event: Seq<char>,
    message: Seq<char>,
) -> Seq<char> {
    "timestamp_unix_ms="@ + decimal::decimal(timestamp_unix_ms) + " level="@ + level_name(level)
        + " component="@ + clean_token_of(component) + " run_id="@ + clean_token_of(run_id)
        + " event="@ + clean_token_of(event) + " message="@ + clean_message_of(message)
}

fn is_white_char(c: char) -> (answer: bool)
    ensures
        answer == is_white(c),
{
    '\u{9}' <= c && c <= '\u{d}' || c == ' ' || c == '\u{85}' || c == '\u{a0}' || c == '\u{1680}'
        || '\u{2000}' <= c && c <= '\u{200a}' || c == '\u{2028}' || c == '\u{2029}' || c
        == '\u{202f}' || c == '\u{205f}' || c == '\u{3000}'
}

/// The range of the characters that trimming keeps.
fn trim_range(chars: &Vec<char>) -> (range: (usize, usize))
    ensures
        range.0 <= range.1 <= chars@.len(),
        chars@.subrange(range.0 as int, range.1 as int) == trimmed(chars@),
{
    let mut from: usize = 0;
    assert(chars@.skip(0) =~= chars@);
    while from < chars.len() && is_white_char(chars[from])
        invariant
            from <= chars@.len(),
            trimmed_front(chars@) == trimmed_front(chars@.skip(from as int)),
        decreases chars@.len() - from,
    {
        assert(chars@.skip(from as int)[0] == chars@[from as int]);
        assert(chars@.skip(from as int).skip(1) =~= chars@.skip(from + 1));
        from += 1;
    }
    proof {
        if from < chars@.len() {
            assert(chars@.skip(from as int)[0] == chars@[from as int]);
        }
    }
    let mut to: usize = chars.len();
    assert(chars@.subrange(from as int, to as int) =~= chars@.skip(from as int));
    while to > from && is_white_char(chars[to - 1])
        invariant
            from <= to <= chars@.len(),
            trimmed_front(chars@) == chars@.skip(from as int),
            trimmed(chars@) == trimmed_back(chars@.subrange(from as int, to as int)),
        decreases to - from,
    {
        let ghost kept = chars@.subrange(from as int, to as int);
        assert(kept.last() == chars@[to - 1]);
        assert(kept.drop_last() =~= chars@.subrange(from as int, to - 1));
        to -= 1;
    }
    proof {
        let kept = chars@.subrange(from as int, to as int);
        if to > from {
            assert(kept.last() == chars@[to - 1]);
        }
    }
    (from, to)
}

fn clean_token(value: &str) -> (clean: String)
    ensures
        clean@ == clean_token_of(value@),
{
    if value.is_empty() {
        return "unknown".to_owned();
    }
    let chars: Vec<char> = chars_of(value);
    let mut clean = String::new();
    let mut i: usize = 0;
    while i < chars.len()
        invariant
            i <= chars@.len(),
            chars@ == value@,
            value@.len() > 0,
            clean@ == clean_token_of(value@).take(i as int),
        decreases chars@.len() - i,
    {
        let c: char = chars[i];
        if '0' <= c && c <= '9' || 'A' <= c && c <= 'Z' || 'a' <= c && c <= 'z' || c == '_' || c
            == '-' || c == '.' {
            clean.push(c);
        } else {
            clean.push('_');
        }
        i += 1;
        assert(clean@ =~= clean_token_of(value@).take(i as int));
    }
    assert(clean_token_of(value@).take(i as int) =~= clean_token_of(value@));
    clean
}

fn clean_message(value: &str) -> (clean: String)
    ensures
        clean@ == clean_message_of(value@),
{
    let chars: Vec<char> = chars_of(value);
    let (from, to): (usize, usize) = trim_range(&chars);
    let ghost kept = trimmed(value@);
    let mut clean = String::new();
    let mut i: usize = from;
    while i < to
        invariant
            from <= i <= to <= chars@.len(),
            chars@ == value@,
            kept == trimmed(value@),
            kept == chars@.subrange(from as int, to as int),
            clean@ == clean_message_of(value@).take(i - from),
        decreases to - i,
    {
        let c: char = chars[i];
        assert(kept[i - from] == c);
        if c == '\r' || c == '\n' || c == '\t' {
            clean.push(' ');
        } else if c <= '\u{1f}' || '\u{7f}' <= c && c <= '\u{9f}' {
            clean.push('?');
        } else {
            clean.push(c);
        }
        i += 1;
        assert(clean@ =~= clean_message_of(value@).take(i - from));
    }
    assert(clean_message_of(value@).take(i - from) =~= clean_message_of(value@));
    clean
}

impl LogLevel {
    /// The level that a setting names, in any case and with white space around
    /// it.
    pub fn parse(value: &str) -> (level: Option<Self>)
        ensures
            level == named_level(value@),
    {
        let chars: Vec<char> = chars_of(value);
        let (from, to): (usize, usize) = trim_range(&chars);
        let ghost kept = trimmed(value@);
        let mut name = String::new();
        let mut i: usize = from;
        while i < to
            invariant
                from <= i <= to <= chars@.len(),
                chars@ == value@,
                kept == trimmed(value@),
                kept == chars@.subrange(from as int, to as int),
                name@ == lowered(kept).take(i - from),
            decreases to - i,
        {
            let c: char = chars[i];
            assert(kept[i - from] == c);
            if 'A' <= c && c <= 'Z' {
                let letter: u8 = (c as u32 + 32) as u8;
                name.push(letter as char);
            } else {
                name.push(c);
            }
            i += 1;
            assert(name@ =~= lowered(kept).take(i - from));
        }
        assert(lowered(kept).take(i - from) =~= lowered(kept));
        let name: &str = name.as_str();
        if same_text(name, "error") {
            Some(LogLevel::Error)
        } else if same_text(name, "warn") {
            Some(LogLevel::Warn)
        } else if same_text(name, "info") {
            Some(LogLevel::Info)
        } else if same_text(name, "debug") {
            Some(LogLevel::Debug)
        } else if same_text(name, "trace") {
            Some(LogLevel::Trace)
        } else {
            None
        }
    }

    fn number(self) -> (number: u8)
        ensures
            number == rank(self),
    {
        match self {
            LogLevel::Error => 0,
            LogLevel::Warn => 1,
            LogLevel::Info => 2,
            LogLevel::Debug => 3,
            LogLevel::Trace => 4,
        }
    }

    /// Whether a log at this level records the event.
    pub fn allows(self, event: Self) -> (answer: bool)
        ensures
            answer == records(self, event),
    {
        event.number() <= self.number()
    }

    /// The name of the level.
    pub fn as_str(self) -> (name: &'static str)
        ensures
            name@ == level_name(self),
    {
        match self {
            LogLevel::Error => "error",
            LogLevel::Warn => "warn",
            LogLevel::Info => "info",
            LogLevel::Debug => "debug",
            LogLevel::Trace => "trace",
        }
    }
}

impl LevelConfig {
    /// The level that an optional setting names. Without a setting, or with
    /// one that names no level, it is `info`; the latter is kept for a report.
    pub fn from_value(value: Option<&str>) -> (config: Self)
        ensures
            match value {
                None => config.level == LogLevel::Info && config.invalid_value is None,
                Some(text) => match named_level(text@) {
                    Some(level) => config.level == level && config.invalid_value is None,
                    None => config.level == LogLevel::Info && model::optional(
                        config.invalid_value,
                    ) == Some(text@),
                },
            },
    {
        match value {
            None => LevelConfig { level: LogLevel::Info, invalid_value: None },
            Some(text) => match LogLevel::parse(text) {
                Some(level) => LevelConfig { level, invalid_value: None },
                None => LevelConfig { level: LogLevel::Info, invalid_value: Some(text.to_owned()) },
            },
        }
    }
}

impl Default for RotationPolicy {
    fn default() -> (policy: Self)
        ensures
            policy == (RotationPolicy {
                max_bytes: DEFAULT_MAX_LOG_BYTES,
                backups: DEFAULT_BACKUPS,
            }),
    {
        RotationPolicy { max_bytes: DEFAULT_MAX_LOG_BYTES, backups: DEFAULT_BACKUPS }
    }
}

/// Formats one log line.
pub fn format_event_line(
    timestamp_unix_ms: u128,
    level: LogLevel,
    component: &str,
    run_id: &str,
    event: &str,
    message: &str,
) -> (line: String)
    ensures
        line@ == event_line(
            timestamp_unix_ms as nat,
            level,
            component@,
            run_id@,
            event@,
            message@,
        ),
{
    let mut line: String = "timestamp_unix_ms=".to_owned();
    push_wide_decimal(&mut line, timestamp_unix_ms);
    line.append(" level=");
    line.append(level.as_str());
    line.append(" component=");
    line.append(clean_token(component).as_str());
    line.append(" run_id=");
    line.append(clean_token(run_id).as_str());
    line.append(" event=");
    line.append(clean_token(event).as_str());
    line.append(" message=");
    line.append(clean_message(message).as_str());
    line
}

/// The identifier of one run of a process: the process, the time and a
/// sequence number of the run.
pub fn run_id(process: u32, unix_ms: u128, sequence: u64) -> (id: String)
    ensures
        id@ == decimal::decimal(process as nat) + seq!['-'] + decimal::decimal(unix_ms as nat)
            + seq!['-'] + decimal::decimal(sequence as nat),
{
    let mut id = String::new();
    push_decimal(&mut id, process as u64);
    id.push('-');
    push_wide_decimal(&mut id, unix_ms);
    id.push('-');
    push_decimal(&mut id, sequence);
    assert(id@ =~= decimal::decimal(process as nat) + seq!['-'] + decimal::decimal(unix_ms as nat)
        + seq!['-'] + decimal::decimal(sequence as nat));
    id
}

/// What a rotated file's name has behind the name of the log file.
pub fn backup_suffix(index: usize) -> (suffix: String)
    ensures
        suffix@ == seq!['.'] + decimal::decimal(index as nat),
{
    let mut suffix = String::new();
    suffix.push('.');
    push_decimal(&mut suffix, index as u64);
    assert(suffix@ =~= seq!['.'] + decimal::decimal(index as nat));
    suffix
}

/// One step of a rotation. Number zero is the log file itself; the others are
/// the rotated files, the youngest first.
#[derive(Clone, Copy, Debug, PartialEq, Eq, Structural)]
pub enum RotationStep {
    Remove(usize),
    Rename { from: usize, to: usize },
}

/// Whether file number `index` is there.
pub open spec fn is_there(present: Seq<bool>, index: int) -> bool {
    0 <= index < present.len() && present[index]
}

/// The steps that move each file below number `count` one number up, the
/// oldest first.
pub open spec fn moves(count: nat, present: Seq<bool>) -> Seq<RotationStep>
    decreases count,
{
    if count == 0 {
        Seq::empty()
    } else {
        let index = (count - 1) as usize;
        let first = if is_there(present, count - 1) {
            seq![RotationStep::Rename { from: index, to: (index + 1) as usize }]
        } else {
            Seq::empty()
        };
        first + moves((count - 1) as nat, present)
    }
}

/// The steps of a rotation that keeps `backups` old files.
pub open spec fn rotation_of(backups: nat, present: Seq<bool>) -> Seq<RotationStep> {
    let oldest = if is_there(present, backups as int) {
        seq![RotationStep::Remove(backups as usize)]
    } else {
        Seq::empty()
    };
    oldest + moves(backups, present)
}

/// The steps of a rotation that keeps `backups` old files, given which of the
/// files are there.
pub fn rotation_steps(backups: usize, present: &[bool]) -> (steps: Vec<RotationStep>)
    ensures
        steps@ == rotation_of(backups as nat, present@),
{
    let mut steps: Vec<RotationStep> = Vec::new();
    if backups < present.len() && present[backups] {
        steps.push(RotationStep::Remove(backups));
    }
    let ghost oldest = steps@;
    let mut count: usize = backups;
    assert(oldest + moves(backups as nat, present@) =~= rotation_of(backups as nat, present@));
    while count > 0
        invariant
            count <= backups,
            steps@ + moves(count as nat, present@) == rotation_of(backups as nat, present@),
        decreases count,
    {
        let ghost before = steps@;
        let ghost rest = moves((count - 1) as nat, present@);
        let index: usize = count - 1;
        if index < present.len() && present[index] {
            steps.push(RotationStep::Rename { from: index, to: count });
            assert(steps@ + rest =~= before + (seq![
                RotationStep::Rename { from: index, to: count },
            ] + rest));
        } else {
            assert(before + (Seq::<RotationStep>::empty() + rest) =~= before + rest);
        }
        count -= 1;
    }
    assert(steps@ + Seq::<RotationStep>::empty() =~= steps@);
    steps
}

/// The files after one step.
pub open spec fn performed<C>(files: Map<int, C>, step: RotationStep) -> Map<int, C> {
    match step {
        RotationStep::Remove(index) => files.remove(index as int),
        RotationStep::Rename { from, to } => files.remove(from as int).insert(
            to as int,
            files[from as int],
        ),
    }
}

/// The files after a run of steps.
pub open spec fn all_performed<C>(files: Map<int, C>, steps: Seq<RotationStep>) -> Map<int, C>
    decreases steps.len(),
{
    if steps.len() == 0 {
        files
    } else {
        all_performed(performed(files, steps[0]), steps.skip(1))
    }
}

proof fn lemma_performed_first<C>(
    files: Map<int, C>,
    first: Seq<RotationStep>,
    rest: Seq<RotationStep>,
)
    requires
        first.len() <= 1,
    ensures
        all_performed(files, first + rest) == all_performed(
            if first.len() == 1 {
                performed(files, first[0])
            } else {
                files
            },
            rest,
        ),
{
    if first.len() == 1 {
        assert((first + rest).skip(1) =~= rest);
    } else {
        assert(first + rest =~= rest);
    }
}

/// Moving the files below `count` up by one, where number `count` is free.
proof fn lemma_moves<C>(files: Map<int, C>, count: nat, present: Seq<bool>)
    requires
        count <= usize::MAX,
        !files.contains_key(count as int),
        forall|i: int|
            0 <= i < count ==> #[trigger] files.contains_key(i) == is_there(present, i),
    ensures
        ({
            let after = all_performed(files, moves(count, present));
            &&& !after.contains_key(0)
            &&& forall|i: int|
                1 <= i <= count ==> #[trigger] after.contains_key(i) == files.contains_key(i - 1)
            &&& forall|i: int|
                1 <= i <= count && #[trigger] after.contains_key(i) ==> after[i] == files[i - 1]
            &&& forall|i: int|
                i < 0 || i > count ==> #[trigger] after.contains_key(i) == files.contains_key(i)
            &&& forall|i: int|
                (i < 0 || i > count) && #[trigger] after.contains_key(i) ==> after[i] == files[i]
        }),
    decreases count,
{
    if count > 0 {
        let index = (count - 1) as usize;
        let first = if is_there(present, count - 1) {
            seq![RotationStep::Rename { from: index, to: (index + 1) as usize }]
        } else {
            Seq::<RotationStep>::empty()
        };
        let shorter = (count - 1) as nat;
        lemma_performed_first(files, first, moves(shorter, present));
        assert(files.contains_key(count - 1) == is_there(present, count - 1));
        let next = if first.len() == 1 {
            performed(files, first[0])
        } else {
            files
        };
        assert forall|i: int| 0 <= i < shorter implies #[trigger] next.contains_key(i) == is_there(
            present,
            i,
        ) by {
            assert(files.contains_key(i) == is_there(present, i));
        }
        lemma_moves(next, shorter, present);
        let after = all_performed(files, moves(count, present));
        assert forall|i: int| 1 <= i <= count implies #[trigger] after.contains_key(i)
            == files.contains_key(i - 1) by {
            if i < count {
                assert(next.contains_key(i - 1) == files.contains_key(i - 1));
            } else {
                assert(next.contains_key(i) == files.contains_key(i - 1));
            }
        }
        assert forall|i: int| 1 <= i <= count && #[trigger] after.contains_key(i) implies after[i]
            == files[i - 1] by {
            if i < count {
                assert(next.contains_key(i - 1));
            } else {
                assert(next.contains_key(i));
            }
        }
        assert forall|i: int| i < 0 || i > count implies #[trigger] after.contains_key(i)
            == files.contains_key(i) by {
            assert(next.contains_key(i) == files.contains_key(i));
        }
        assert forall|i: int| (i < 0 || i > count) && #[trigger] after.contains_key(i) implies
            after[i] == files[i] by {
            assert(next.contains_key(i));
        }
    }
}

/// A rotation frees the log file's name, keeps the log file and the younger
/// rotated files, each one number up, drops the oldest, and touches no other
/// file. Whatever the files hold, none beyond `backups` ever arises.
pub proof fn law_rotation_keeps_the_configured_backups<C>(
    files: Map<int, C>,
    backups: nat,
    present: Seq<bool>,
)
    requires
        backups <= usize::MAX,
        forall|i: int|
            0 <= i <= backups ==> #[trigger] files.contains_key(i) == is_there(present, i),
    ensures
        ({
            let after = all_performed(files, rotation_of(backups, present));
            &&& !after.contains_key(0)
            &&& forall|i: int|
                1 <= i <= backups ==> #[trigger] after.contains_key(i) == files.contains_key(i - 1)
            &&& forall|i: int|
                1 <= i <= backups && #[trigger] after.contains_key(i) ==> after[i] == files[i - 1]
            &&& forall|i: int|
                i < 0 || i > backups ==> #[trigger] after.contains_key(i) == files.contains_key(i)
            &&& forall|i: int|
                (i < 0 || i > backups) && #[trigger] after.contains_key(i) ==> after[i] == files[i]
        }),
{
    assert(files.contains_key(backups as int) == is_there(present, backups as int));
    let oldest = if is_there(present, backups as int) {
        seq![RotationStep::Remove(backups as usize)]
    } else {
        Seq::<RotationStep>::empty()
    };
    lemma_performed_first(files, oldest, moves(backups, present));
    let next = if oldest.len() == 1 {
        performed(files, oldest[0])
    } else {
        files
    };
    assert forall|i: int| 0 <= i < backups implies #[trigger] next.contains_key(i) == is_there(
        present,
        i,
    ) by {
        assert(files.contains_key(i) == is_there(present, i));
    }
    lemma_moves(next, backups, present);
    let after = all_performed(files, rotation_of(backups, present));
    assert forall|i: int| 1 <= i <= backups implies #[trigger] after.contains_key(i)
        == files.contains_key(i - 1) by {
        assert(next.contains_key(i - 1) == files.contains_key(i - 1));
    }
    assert forall|i: int| 1 <= i <= backups && #[trigger] after.contains_key(i) implies after[i]
        == files[i - 1] by {
        assert(next.contains_key(i - 1));
    }
    assert forall|i: int| i < 0 || i > backups implies #[trigger] after.contains_key(i)
        == files.contains_key(i) by {
        assert(next.contains_key(i) == files.contains_key(i));
    }
}

/// What an open log file needs to know to format and bound its lines.
#[derive(Debug, PartialEq, Eq)]
pub struct EventLog {
    component: String,
    max_level: LogLevel,
    run_id: String,
    policy: RotationPolicy,
    current_bytes: u64,
}

/// The model of an open log.
#[verifier::ext_equal]
pub struct LogView {
    pub component: Seq<char>,
    pub max_level: LogLevel,
    pub run_id: Seq<char>,
    pub policy: RotationPolicy,
    pub current_bytes: u64,
}

/// A line to write, and whether the file rotates first.
#[derive(Debug, PartialEq, Eq)]
pub struct PreparedLine {
    pub line: String,
    pub rotate: bool,
}

impl View for EventLog {
    type V = LogView;

    closed spec fn view(&self) -> LogView {
        LogView {
            component: self.component@,
            max_level: self.max_level,
            run_id: self.run_id@,
            policy: self.policy,
            current_bytes: self.current_bytes,
        }
    }
}

/// How many bytes a line takes in the file, with its line break.
pub open spec fn line_bytes(line: Seq<char>) -> nat {
    vstd::utf8::encode_utf8(line).len() + 1
}

/// A file size after `added` bytes more, or the largest that can be counted.
pub open spec fn grown(current: u64, added: nat) -> u64 {
    if current + added > u64::MAX {
        u64::MAX
    } else {
        (current + added) as u64
    }
}

/// Whether an existing file of the given size is full.
pub open spec fn is_full(policy: RotationPolicy, existing_bytes: Option<u64>) -> bool {
    existing_bytes matches Some(bytes) && bytes >= policy.max_bytes
}

/// Whether the file rotates before the line is written.
pub open spec fn makes_room(log: LogView, line: Seq<char>) -> bool {
    log.current_bytes > 0 && grown(log.current_bytes, line_bytes(line)) > log.policy.max_bytes
}

/// The log once the line was written.
pub open spec fn with_line(log: LogView, line: Seq<char>) -> LogView {
    LogView { current_bytes: grown(log.current_bytes, line_bytes(line)), ..log }
}

/// Whether an existing file of the given size rotates before it is opened.
pub fn rotates_on_open(policy: RotationPolicy, existing_bytes: Option<u64>) -> (answer: bool)
    ensures
        answer == is_full(policy, existing_bytes),
{
    match existing_bytes {
        Some(bytes) => bytes >= policy.max_bytes,
        None => false,
    }
}

fn size_of_line(line: &String) -> (bytes: u64)
    ensures
        bytes == grown(0, line_bytes(line@)),
{
    let length: usize = line.as_str().as_bytes().len();
    (length as u64).saturating_add(1)
}

impl EventLog {
    /// A log whose file holds `current_bytes`.
    pub fn open_with_policy(
        component: &str,
        max_level: LogLevel,
        run_id: &str,
        policy: RotationPolicy,
        current_bytes: u64,
    ) -> (log: Self)
        ensures
            log@ == (LogView {
                component: clean_token_of(component@),
                max_level,
                run_id: clean_token_of(run_id@),
                policy,
                current_bytes,
            }),
    {
        EventLog {
            component: clean_token(component),
            max_level,
            run_id: clean_token(run_id),
            policy,
            current_bytes,
        }
    }

    /// The line for an event, unless the log's level leaves the event out. The
    /// file rotates first where the line would make a file that holds
    /// something too large.
    pub fn prepare(
        &self,
        timestamp_unix_ms: u128,
        level: LogLevel,
        event: &str,
        message: &str,
    ) -> (prepared: Option<PreparedLine>)
        ensures
            match prepared {
                None => !records(self@.max_level, level),
                Some(plan) => {
                    &&& records(self@.max_level, level)
                    &&& plan.line@ == event_line(
                        timestamp_unix_ms as nat,
                        level,
                        self@.component,
                        self@.run_id,
                        event@,
                        message@,
                    )
                    &&& plan.rotate == makes_room(self@, plan.line@)
                },
            },
    {
        if !self.max_level.allows(level) {
            return None;
        }
        let line: String = format_event_line(
            timestamp_unix_ms,
            level,
            self.component.as_str(),
            self.run_id.as_str(),
            event,
            message,
        );
        let bytes: u64 = size_of_line(&line);
        let rotate: bool = self.current_bytes > 0 && self.current_bytes.saturating_add(bytes)
            > self.policy.max_bytes;
        Some(PreparedLine { line, rotate })
    }

    /// The file was rotated: the log begins a new one.
    pub fn rotated(&mut self)
        ensures
            final(self)@ == (LogView { current_bytes: 0, ..old(self)@ }),
    {
        self.current_bytes = 0;
    }

    /// The line was written.
    pub fn written(&mut self, line: &String)
        ensures
            final(self)@ == with_line(old(self)@, line@),
    {
        let bytes: u64 = size_of_line(line);
        self.current_bytes = self.current_bytes.saturating_add(bytes);
    }

    /// The identifier of the run.
    pub fn run_id(&self) -> (id: &str)
        ensures
            id@ == self@.run_id,
    {
        self.run_id.as_str()
    }
}

/// Whether the text is fit for a single line: no control character in it.
pub open spec fn single_line(text: Seq<char>) -> bool {
    forall|i: int| 0 <= i < text.len() ==> !is_control(#[trigger] text[i])
}

proof fn lemma_single_line_parts(a: Seq<char>, b: Seq<char>)
    requires
        single_line(a),
        single_line(b),
    ensures
        single_line(a + b),
{
    assert forall|i: int| 0 <= i < (a + b).len() implies !is_control(#[trigger] (a + b)[i]) by {
        if i < a.len() {
            assert((a + b)[i] == a[i]);
        } else {
            assert((a + b)[i] == b[i - a.len()]);
        }
    }
}

proof fn lemma_tokens_are_single_lines(value: Seq<char>)
    ensures
        single_line(clean_token_of(value)),
        single_line(clean_message_of(value)),
{
    reveal_strlit("unknown");
}

proof fn lemma_level_names_are_single_lines(level: LogLevel)
    ensures
        single_line(level_name(level)),
{
    reveal_strlit("error");
    reveal_strlit("warn");
    reveal_strlit("info");
    reveal_strlit("debug");
    reveal_strlit("trace");
}

/// Every log line is a single line, whatever the event and its message hold.
pub proof fn law_log_lines_are_single_lines(
    timestamp_unix_ms: nat,
    level: LogLevel,
    component: Seq<char>,
    run_id: Seq<char>,
    event: Seq<char>,
    message: Seq<char>,
)
    ensures
        single_line(event_line(timestamp_unix_ms, level, component, run_id, event, message)),
{
    reveal_strlit("timestamp_unix_ms=");
    reveal_strlit(" level=");
    reveal_strlit(" component=");
    reveal_strlit(" run_id=");
    reveal_strlit(" event=");
    reveal_strlit(" message=");
    let stamp = decimal::decimal(timestamp_unix_ms);
    decimal::lemma_decimal_reads_back(timestamp_unix_ms);
    assert forall|i: int| 0 <= i < stamp.len() implies !is_control(#[trigger] stamp[i]) by {
        assert(decimal::is_digit(stamp[i]));
    }
    lemma_level_names_are_single_lines(level);
    lemma_tokens_are_single_lines(component);
    lemma_tokens_are_single_lines(run_id);
    lemma_tokens_are_single_lines(event);
    lemma_tokens_are_single_lines(message);
    let a = "timestamp_unix_ms="@ + stamp;
    lemma_single_line_parts("timestamp_unix_ms="@, stamp);
    let b = a + " level="@;
    lemma_single_line_parts(a, " level="@);
    let c = b + level_name(level);
    lemma_single_line_parts(b, level_name(level));
    let d = c + " component="@;
    lemma_single_line_parts(c, " component="@);
    let e = d + clean_token_of(component);
    lemma_single_line_parts(d, clean_token_of(component));
    let f = e + " run_id="@;
    lemma_single_line_parts(e, " run_id="@);
    let g = f + clean_token_of(run_id);
    lemma_single_line_parts(f, clean_token_of(run_id));
    let h = g + " event="@;
    lemma_single_line_parts(g, " event="@);
    let j = h + clean_token_of(event);
    lemma_single_line_parts(h, clean_token_of(event));
    let k = j + " message="@;
    lemma_single_line_parts(j, " message="@);
    lemma_single_line_parts(k, clean_message_of(message));
}

/// Whether the text is white space alone.
pub open spec fn all_white(text: Seq<char>) -> bool {
    forall|i: int| 0 <= i < text.len() ==> is_white(#[trigger] text[i])
}

proof fn lemma_trimmed_front(white: Seq<char>, text: Seq<char>)
    requires
        all_white(white),
        text.len() > 0,
        !is_white(text[0]),
    ensures
        trimmed_front(white + text) == text,
    decreases white.len(),
{
    if white.len() == 0 {
        assert(white + text =~= text);
    } else {
        let rest = white.skip(1);
        assert forall|i: int| 0 <= i < rest.len() implies is_white(#[trigger] rest[i]) by {
            assert(is_white(white[i + 1]));
        }
        lemma_trimmed_front(rest, text);
        assert((white + text).skip(1) =~= rest + text);
        assert((white + text)[0] == white[0]);
    }
}

proof fn lemma_trimmed_back(text: Seq<char>, white: Seq<char>)
    requires
        all_white(white),
        text.len() > 0,
        !is_white(text.last()),
    ensures
        trimmed_back(text + white) == text,
    decreases white.len(),
{
    if white.len() == 0 {
        assert(text + white =~= text);
    } else {
        let rest = white.drop_last();
        assert forall|i: int| 0 <= i < rest.len() implies is_white(#[trigger] rest[i]) by {
            assert(is_white(white[i]));
        }
        lemma_trimmed_back(text, rest);
        assert((text + white).drop_last() =~= text + rest);
        assert((text + white).last() == white[white.len() - 1]);
    }
}

/// Reading the name of a level gives the level back, written in any ASCII case
/// and with any white space around it. No two levels have the same name.
pub proof fn law_level_names_read_back(
    level: LogLevel,
    front: Seq<char>,
    written: Seq<char>,
    behind: Seq<char>,
)
    requires
        all_white(front),
        all_white(behind),
        lowered(written) == level_name(level),
    ensures
        named_level(front + written + behind) == Some(level),
        named_level(level_name(level)) == Some(level),
        forall|other: LogLevel| #[trigger] level_name(other) == level_name(level) ==> other == level,
{
    lemma_plain_name_reads_back(level);
    assert forall|other: LogLevel| #[trigger] level_name(other) == level_name(level) implies other
        == level by {
        lemma_plain_name_reads_back(other);
    }
    let name = level_name(level);
    assert(name.len() > 0 && !is_white(name[0]) && !is_white(name.last())) by {
        lemma_name_is_not_white(level);
    }
    assert(lowered(written)[0] == lower(written[0]));
    assert(lowered(written).last() == lower(written.last()));
    assert(written.last() == written[written.len() - 1]);
    assert((written + behind)[0] == written[0]);
    assert(front + written + behind =~= front + (written + behind));
    lemma_trimmed_front(front, written + behind);
    lemma_trimmed_back(written, behind);
    assert(trimmed(name) == name) by {
        lemma_name_is_not_white(level);
    }
    assert(lowered(name) =~= name) by {
        lemma_name_is_not_white(level);
    }
}

proof fn lemma_name_is_not_white(level: LogLevel)
    ensures
        level_name(level).len() > 0,
        forall|i: int|
            0 <= i < level_name(level).len() ==> 'a' <= #[trigger] level_name(level)[i] <= 'z',
{
    reveal_strlit("error");
    reveal_strlit("warn");
    reveal_strlit("info");
    reveal_strlit("debug");
    reveal_strlit("trace");
}

proof fn lemma_plain_name_reads_back(level: LogLevel)
    ensures
        named_level(level_name(level)) == Some(level),
{
    reveal_strlit("error");
    reveal_strlit("warn");
    reveal_strlit("info");
    reveal_strlit("debug");
    reveal_strlit("trace");
    let name = level_name(level);
    assert(trimmed(name) == name);
    assert(lowered(name) =~= name);
    assert("error"@[0] == 'e' && "warn"@[0] == 'w' && "info"@[0] == 'i' && "debug"@[0] == 'd'
        && "trace"@[0] == 't');
}

/// How much a level leaves out: errors nothing, traces everything else.
pub open spec fn detail(level: LogLevel) -> nat {
    match level {
        LogLevel::Error => 1,
        LogLevel::Warn => 2,
        LogLevel::Info => 3,
        LogLevel::Debug => 4,
        LogLevel::Trace => 5,
    }
}

/// A log records what is at least as grave as its level: errors always, and at
/// the level of traces everything.
pub proof fn law_logs_record_what_is_grave_enough(level: LogLevel, event: LogLevel)
    ensures
        records(level, event) <==> detail(event) <= detail(level),
        records(level, LogLevel::Error),
        records(LogLevel::Trace, event),
        records(level, event) && records(event, level) ==> level == event,
{
}

/// A token keeps its letters, digits, underscores, hyphens and full stops where
/// they are and has nothing else; an empty one is unknown.
pub proof fn law_tokens_are_cleaned(value: Seq<char>, i: int)
    ensures
        value.len() > 0 ==> clean_token_of(value).len() == value.len(),
        0 <= i < value.len() ==> {
            let c = value[i];
            let kept = '0' <= c <= '9' || 'A' <= c <= 'Z' || 'a' <= c <= 'z' || c == '_' || c
                == '-' || c == '.';
            clean_token_of(value)[i] == if kept {
                c
            } else {
                '_'
            }
        },
        value.len() == 0 ==> clean_token_of(value) == "unknown"@,
{
}

/// A file is never made larger than its policy allows by a further line: it
/// rotates first, unless it is empty. What is written is counted with its line
/// break.
pub proof fn law_files_stay_within_their_policy(log: LogView, line: Seq<char>)
    requires
        log.current_bytes + vstd::utf8::encode_utf8(line).len() + 1 <= u64::MAX,
    ensures
        ({
            let added = vstd::utf8::encode_utf8(line).len() + 1;
            &&& with_line(log, line) == (LogView {
                current_bytes: (log.current_bytes + added) as u64,
                ..log
            })
            &&& makes_room(log, line) <==> log.current_bytes > 0 && log.current_bytes + added
                > log.policy.max_bytes
            &&& !makes_room(log, line) && log.current_bytes > 0 ==> with_line(
                log,
                line,
            ).current_bytes <= log.policy.max_bytes
            &&& is_full(log.policy, Some(log.current_bytes)) <==> log.current_bytes
                >= log.policy.max_bytes
            &&& !is_full(log.policy, None)
        }),
{
}

/// Whether the character stands in a log line as it is: no line break, tab or
/// other control character.
pub open spec fn stands_as_it_is(c: char) -> bool {
    c as int >= 32 && c as int != 127 && !(128 <= c as int <= 159)
}

/// A message without white space around it keeps its length, and every
/// character that may stand in a line; line breaks and tabs become spaces, and
/// other control characters question marks.
pub proof fn law_messages_are_cleaned(value: Seq<char>, i: int)
    requires
        0 <= i < value.len(),
        !is_white(value[0]),
        !is_white(value.last()),
    ensures
        clean_message_of(value).len() == value.len(),
        clean_message_of(value)[i] == if value[i] == '\r' || value[i] == '\n' || value[i] == '\t' {
            ' '
        } else if stands_as_it_is(value[i]) {
            value[i]
        } else {
            '?'
        },
{
}

/// White space around a message is not logged.
pub proof fn law_white_space_around_is_not_logged(
    front: Seq<char>,
    value: Seq<char>,
    behind: Seq<char>,
)
    requires
        all_white(front),
        all_white(behind),
        value.len() > 0,
        !is_white(value[0]),
        !is_white(value.last()),
    ensures
        clean_message_of(front + value + behind) == clean_message_of(value),
        is_white(' ') && is_white('\t') && is_white('\n') && is_white('\r'),
        !is_white('a') && !is_white('0') && !is_white('_'),
{
    assert(front + value + behind =~= front + (value + behind));
    assert((value + behind)[0] == value[0]);
    lemma_trimmed_front(front, value + behind);
    lemma_trimmed_back(value, behind);
}

/// A line says when, how grave, which component of which run, what happened and
/// why, in this order, each under its name.
pub proof fn law_lines_say_when_and_what(
    when: nat,
    level: LogLevel,
    component: Seq<char>,
    run_id: Seq<char>,
    event: Seq<char>,
    message: Seq<char>,
)
    ensures
        ({
            let line = event_line(when, level, component, run_id, event, message);
            let stamp = "timestamp_unix_ms="@ + decimal::decimal(when);
            let grade = " level="@ + level_name(level);
            let part = " component="@ + clean_token_of(component);
            let run = " run_id="@ + clean_token_of(run_id);
            let what = " event="@ + clean_token_of(event);
            let why = " message="@ + clean_message_of(message);
            line == stamp + (grade + (part + (run + (what + why))))
        }),
{
    let line = event_line(when, level, component, run_id, event, message);
    let stamp = "timestamp_unix_ms="@ + decimal::decimal(when);
    let grade = " level="@ + level_name(level);
    let part = " component="@ + clean_token_of(component);
    let run = " run_id="@ + clean_token_of(run_id);
    let what = " event="@ + clean_token_of(event);
    let why = " message="@ + clean_message_of(message);
    assert(line =~= stamp + (grade + (part + (run + (what + why)))));
}

} // verus!
