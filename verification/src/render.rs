//! The record formatter: one configuration snapshot, one timestamp, one
//! call site and one message in, one log line out.
//!
//! Every section of the line is specified at the level of character
//! sequences: the spec functions below say exactly which characters each
//! section contributes, and `compose_line` is proved to return precisely
//! their concatenation, padded and terminated.

use vstd::prelude::*;
use vstd::string::StrSliceExecFns;
use vstd::string::StringExecFns;

use crate::clock::Timestamp;
use crate::config::LogLevel;
use crate::config::TheLoggerConfig;

verus! {

// Digits and numbers

/// The decimal digit character for `d`.
pub open spec fn digit_char(d: int) -> char {
    if d == 0 {
        '0'
    } else if d == 1 {
        '1'
    } else if d == 2 {
        '2'
    } else if d == 3 {
        '3'
    } else if d == 4 {
        '4'
    } else if d == 5 {
        '5'
    } else if d == 6 {
        '6'
    } else if d == 7 {
        '7'
    } else if d == 8 {
        '8'
    } else {
        '9'
    }
}

/// The lowest `w` decimal digits of `n`, zero-padded on the left to
/// exactly `w` characters.
pub open spec fn zero_pad(n: nat, w: nat) -> Seq<char>
    decreases w,
{
    if w == 0 {
        Seq::<char>::empty()
    } else {
        zero_pad(n / 10, (w - 1) as nat).push(digit_char((n % 10) as int))
    }
}

/// The decimal rendering of `n` without padding: at least one digit, no
/// leading zero unless `n` is zero.
pub open spec fn dec_str(n: nat) -> Seq<char>
    decreases n,
{
    if n < 10 {
        seq![digit_char(n as int)]
    } else {
        dec_str(n / 10).push(digit_char((n % 10) as int))
    }
}

/// A year's magnitude: zero-padded to four digits, as wide as needed
/// beyond that.
pub open spec fn year_mag_str(n: nat) -> Seq<char> {
    if n < 10000 {
        zero_pad(n, 4)
    } else {
        dec_str(n)
    }
}

/// A year, with a leading minus sign for years before the common era.
pub open spec fn year_str(y: int) -> Seq<char> {
    if y < 0 {
        seq!['-'] + year_mag_str((-y) as nat)
    } else {
        year_mag_str(y as nat)
    }
}

/// `n` space characters.
pub open spec fn spaces(n: nat) -> Seq<char> {
    Seq::new(n, |i: int| ' ')
}

/// The one-character string holding the decimal digit `d`.
fn digit_str(d: u32) -> (r: &'static str)
    requires
        d < 10,
    ensures
        r@ == seq![digit_char(d as int)],
{
    if d == 0 {
        proof {
            reveal_strlit("0");
            assert(("0")@ =~= seq![digit_char(0)]);
        }
        "0"
    } else if d == 1 {
        proof {
            reveal_strlit("1");
            assert(("1")@ =~= seq![digit_char(1)]);
        }
        "1"
    } else if d == 2 {
        proof {
            reveal_strlit("2");
            assert(("2")@ =~= seq![digit_char(2)]);
        }
        "2"
    } else if d == 3 {
        proof {
            reveal_strlit("3");
            assert(("3")@ =~= seq![digit_char(3)]);
        }
        "3"
    } else if d == 4 {
        proof {
            reveal_strlit("4");
            assert(("4")@ =~= seq![digit_char(4)]);
        }
        "4"
    } else if d == 5 {
        proof {
            reveal_strlit("5");
            assert(("5")@ =~= seq![digit_char(5)]);
        }
        "5"
    } else if d == 6 {
        proof {
            reveal_strlit("6");
            assert(("6")@ =~= seq![digit_char(6)]);
        }
        "6"
    } else if d == 7 {
        proof {
            reveal_strlit("7");
            assert(("7")@ =~= seq![digit_char(7)]);
        }
        "7"
    } else if d == 8 {
        proof {
            reveal_strlit("8");
            assert(("8")@ =~= seq![digit_char(8)]);
        }
        "8"
    } else {
        proof {
            reveal_strlit("9");
            assert(("9")@ =~= seq![digit_char(9)]);
        }
        "9"
    }
}

/// Appends the lowest `w` digits of `n`, zero-padded to exactly `w`
/// characters.
fn append_zero_pad(out: &mut String, n: u32, w: u32)
    ensures
        final(out)@ == old(out)@ + zero_pad(n as nat, w as nat),
    decreases w,
{
    if w == 0 {
        proof {
            assert(out@ =~= out@ + zero_pad(n as nat, 0));
        }
    } else {
        append_zero_pad(out, n / 10, w - 1);
        out.append(digit_str(n % 10));
        proof {
            assert(out@ =~= old(out)@ + zero_pad(n as nat, w as nat));
        }
    }
}

/// Appends the decimal rendering of `n`.
fn append_dec(out: &mut String, n: u32)
    ensures
        final(out)@ == old(out)@ + dec_str(n as nat),
    decreases n,
{
    if n < 10 {
        out.append(digit_str(n));
        proof {
            assert(out@ =~= old(out)@ + dec_str(n as nat));
        }
    } else {
        append_dec(out, n / 10);
        out.append(digit_str(n % 10));
        proof {
            assert(out@ =~= old(out)@ + dec_str(n as nat));
        }
    }
}

/// Appends a year's magnitude.
fn append_year_mag(out: &mut String, m: u32)
    ensures
        final(out)@ == old(out)@ + year_mag_str(m as nat),
{
    if m < 10000 {
        append_zero_pad(out, m, 4);
    } else {
        append_dec(out, m);
    }
}

/// Appends a year, sign included.
fn append_year(out: &mut String, y: i32)
    ensures
        final(out)@ == old(out)@ + year_str(y as int),
{
    if y < 0 {
        out.append("-");
        let m: u32 = (-(y as i64)) as u32;
        proof {
            assert(0 < -(y as int) <= 0x8000_0000int);
            assert(m == -(y as int));
        }
        append_year_mag(out, m);
        proof {
            reveal_strlit("-");
            assert(out@ =~= old(out)@ + year_str(y as int));
        }
    } else {
        append_year_mag(out, y as u32);
    }
}

/// Appends `n` spaces.
fn append_spaces(out: &mut String, n: usize)
    ensures
        final(out)@ == old(out)@ + spaces(n as nat),
{
    let ghost base = out@;
    let mut i: usize = 0;
    proof {
        assert(out@ =~= base + spaces(0));
    }
    while i < n
        invariant
            i <= n,
            out@ == base + spaces(i as nat),
        decreases n - i,
    {
        out.append(" ");
        i = i + 1;
        proof {
            reveal_strlit(" ");
            assert(out@ =~= base + spaces(i as nat));
        }
    }
}

// Sections of a line

/// The fixed bracketed label of a severity, padded with tabs so that the
/// sections after it start at the same column for every severity.
pub open spec fn level_tag(l: LogLevel) -> Seq<char> {
    match l {
        LogLevel::Verbose => ("[VERBOSE]\t")@,
        LogLevel::Information => ("[INFO]\t\t")@,
        LogLevel::Error => ("[ERROR]\t\t")@,
        LogLevel::Warning => ("[WARNING]\t")@,
        LogLevel::Debug => ("[DEBUG]\t\t")@,
        LogLevel::Trace => ("[TRACE]\t\t")@,
        LogLevel::Critical => ("[CRITICAL]\t")@,
    }
}

/// The date portion of the timestamp section: the enabled components of
/// year, month and day in that order, `-`-separated as the original
/// pattern concatenation had it, with one trailing space when at least
/// one date component is enabled.
pub open spec fn date_part(cfg: TheLoggerConfig, ts: Timestamp) -> Seq<char> {
    let y = if !cfg.hide_years {
        year_str(ts.year as int)
    } else {
        Seq::<char>::empty()
    };
    let m = if !cfg.hide_months {
        seq!['-'] + zero_pad(ts.month as nat, 2)
    } else {
        Seq::<char>::empty()
    };
    let d = if !cfg.hide_days {
        seq!['-'] + zero_pad(ts.day as nat, 2)
    } else {
        Seq::<char>::empty()
    };
    let sep = if !cfg.hide_years || !cfg.hide_months || !cfg.hide_days {
        seq![' ']
    } else {
        Seq::<char>::empty()
    };
    y + m + d + sep
}

/// The sub-second fraction: six digits of microseconds when both flags
/// are clear, three digits of milliseconds when only the microseconds are
/// hidden, and nothing at all once the milliseconds are hidden.
pub open spec fn subsec_part(cfg: TheLoggerConfig, ts: Timestamp) -> Seq<char> {
    if !cfg.hide_millisecs && !cfg.hide_microsecs {
        seq!['.'] + zero_pad(ts.micro as nat, 6)
    } else if !cfg.hide_millisecs {
        seq!['.'] + zero_pad((ts.micro / 1000) as nat, 3)
    } else {
        Seq::<char>::empty()
    }
}

/// The time portion of the timestamp section: the enabled components of
/// hour, minute and second in that order, `:`-separated as the original
/// pattern concatenation had it, then the sub-second fraction.
pub open spec fn time_part(cfg: TheLoggerConfig, ts: Timestamp) -> Seq<char> {
    let h = if !cfg.hide_hours {
        zero_pad(ts.hour as nat, 2)
    } else {
        Seq::<char>::empty()
    };
    let m = if !cfg.hide_minutes {
        seq![':'] + zero_pad(ts.minute as nat, 2)
    } else {
        Seq::<char>::empty()
    };
    let s = if !cfg.hide_seconds {
        seq![':'] + zero_pad(ts.second as nat, 2)
    } else {
        Seq::<char>::empty()
    };
    h + m + s + subsec_part(cfg, ts)
}

/// The whole timestamp section. The closing tab is emitted whatever the
/// toggles say, so that an empty timestamp still marks its column
/// boundary.
pub open spec fn timestamp_section(cfg: TheLoggerConfig, ts: Timestamp) -> Seq<char> {
    date_part(cfg, ts) + time_part(cfg, ts) + seq!['\t']
}

/// The severity section: the fixed label when the level is shown, a lone
/// tab as a placeholder when it is hidden.
pub open spec fn level_section(cfg: TheLoggerConfig) -> Seq<char> {
    if cfg.hide_level {
        seq!['\t']
    } else {
        level_tag(cfg.log_level)
    }
}

/// The location string before any width rule: `@file`, then `: line`
/// when the line is shown, then `|column` when the column is also shown.
/// Hiding the file name empties the whole section; the line and column
/// are never shown on their own.
pub open spec fn location_raw(
    cfg: TheLoggerConfig,
    file: Seq<char>,
    line: u32,
    column: u32,
) -> Seq<char> {
    if cfg.hide_file_name {
        Seq::<char>::empty()
    } else {
        seq!['@'] + file + (if cfg.hide_file_line {
            Seq::<char>::empty()
        } else {
            seq![':', ' '] + dec_str(line as nat) + (if cfg.show_file_column {
                seq!['|'] + dec_str(column as nat)
            } else {
                Seq::<char>::empty()
            })
        })
    }
}

/// The location section after the width rule: a string over the limit is
/// cut to exactly `location_length` characters and closed with two tabs;
/// a non-empty string within the limit is padded with spaces to exactly
/// `location_length` characters; an empty string contributes nothing.
pub open spec fn location_section(
    cfg: TheLoggerConfig,
    file: Seq<char>,
    line: u32,
    column: u32,
) -> Seq<char> {
    let raw = location_raw(cfg, file, line, column);
    if cfg.location_length < raw.len() {
        raw.take(cfg.location_length as int) + seq!['\t', '\t']
    } else if raw.len() > 0 {
        raw + spaces((cfg.location_length - raw.len()) as nat)
    } else {
        Seq::<char>::empty()
    }
}

/// The message section: a message over the limit is cut to exactly
/// `log_content_length` characters, with no ellipsis; a message within
/// the limit passes through unchanged.
pub open spec fn message_section(cfg: TheLoggerConfig, msg: Seq<char>) -> Seq<char> {
    if cfg.log_content_length < msg.len() {
        msg.take(cfg.log_content_length as int)
    } else {
        msg
    }
}

/// The full line: the four sections in fixed order, the whole padded with
/// spaces to at least `log_content_length` characters, and one newline.
pub open spec fn log_line(
    cfg: TheLoggerConfig,
    ts: Timestamp,
    file: Seq<char>,
    line: u32,
    column: u32,
    msg: Seq<char>,
) -> Seq<char> {
    let body = timestamp_section(cfg, ts) + level_section(cfg) + location_section(
        cfg,
        file,
        line,
        column,
    ) + message_section(cfg, msg);
    let padded = if body.len() < cfg.log_content_length {
        body + spaces((cfg.log_content_length - body.len()) as nat)
    } else {
        body
    };
    padded + seq!['\n']
}

// Laws of the section specifications

/// With every date field hidden the timestamp section is the time portion
/// followed directly by its closing tab: the date portion is empty and in
/// particular contributes no separating space.
pub proof fn lemma_no_date_no_separator(cfg: TheLoggerConfig, ts: Timestamp)
    requires
        cfg.hide_years,
        cfg.hide_months,
        cfg.hide_days,
    ensures
        date_part(cfg, ts) == Seq::<char>::empty(),
        timestamp_section(cfg, ts) == time_part(cfg, ts) + seq!['\t'],
{
    assert(date_part(cfg, ts) =~= Seq::<char>::empty());
    assert(timestamp_section(cfg, ts) =~= time_part(cfg, ts) + seq!['\t']);
}

/// Hiding the milliseconds suppresses the sub-second fraction entirely,
/// whatever the microsecond flag says.
pub proof fn lemma_hide_millis_hides_subsec(cfg: TheLoggerConfig, ts: Timestamp)
    requires
        cfg.hide_millisecs,
    ensures
        subsec_part(cfg, ts) == Seq::<char>::empty(),
{
}

/// A message longer than the content width is rendered as exactly its
/// first `log_content_length` characters.
pub proof fn lemma_long_message_truncated(cfg: TheLoggerConfig, msg: Seq<char>)
    requires
        msg.len() > cfg.log_content_length,
    ensures
        message_section(cfg, msg).len() == cfg.log_content_length,
        message_section(cfg, msg) == msg.take(cfg.log_content_length as int),
{
}

/// A location string longer than the location width is rendered as
/// exactly its first `location_length` characters followed by two tabs.
pub proof fn lemma_long_location_truncated(
    cfg: TheLoggerConfig,
    file: Seq<char>,
    line: u32,
    column: u32,
)
    requires
        location_raw(cfg, file, line, column).len() > cfg.location_length,
    ensures
        location_section(cfg, file, line, column) == location_raw(cfg, file, line, column).take(
            cfg.location_length as int,
        ) + seq!['\t', '\t'],
        location_section(cfg, file, line, column).len() == cfg.location_length + 2,
{
}

// The single-line guarantee

/// No character of `s` is a newline.
pub open spec fn newline_free(s: Seq<char>) -> bool {
    forall|i: int| 0 <= i < s.len() ==> s[i] != '\n'
}

proof fn lemma_newline_free_concat(a: Seq<char>, b: Seq<char>)
    requires
        newline_free(a),
        newline_free(b),
    ensures
        newline_free(a + b),
{
    assert forall|i: int| 0 <= i < (a + b).len() implies (a + b)[i] != '\n' by {
        if i < a.len() {
            assert((a + b)[i] == a[i]);
        } else {
            assert((a + b)[i] == b[i - a.len()]);
        }
    }
}

proof fn lemma_newline_free_zero_pad(n: nat, w: nat)
    ensures
        newline_free(zero_pad(n, w)),
    decreases w,
{
    if w > 0 {
        lemma_newline_free_zero_pad(n / 10, (w - 1) as nat);
        let prefix = zero_pad(n / 10, (w - 1) as nat);
        assert forall|i: int| 0 <= i < zero_pad(n, w).len() implies zero_pad(n, w)[i] != '\n' by {
            if i < prefix.len() {
                assert(zero_pad(n, w)[i] == prefix[i]);
            } else {
                assert(zero_pad(n, w)[i] == digit_char((n % 10) as int));
            }
        }
    }
}

proof fn lemma_newline_free_dec_str(n: nat)
    ensures
        newline_free(dec_str(n)),
    decreases n,
{
    if n >= 10 {
        lemma_newline_free_dec_str(n / 10);
        let prefix = dec_str(n / 10);
        assert forall|i: int| 0 <= i < dec_str(n).len() implies dec_str(n)[i] != '\n' by {
            if i < prefix.len() {
                assert(dec_str(n)[i] == prefix[i]);
            } else {
                assert(dec_str(n)[i] == digit_char((n % 10) as int));
            }
        }
    }
}

proof fn lemma_newline_free_year_str(y: int)
    ensures
        newline_free(year_str(y)),
{
    lemma_newline_free_zero_pad((if y < 0 { -y } else { y }) as nat, 4);
    lemma_newline_free_dec_str((if y < 0 { -y } else { y }) as nat);
    if y < 0 {
        lemma_newline_free_concat(seq!['-'], year_mag_str((-y) as nat));
    }
}

proof fn lemma_newline_free_level_tag(l: LogLevel)
    ensures
        newline_free(level_tag(l)),
{
    reveal_strlit("[VERBOSE]\t");
    reveal_strlit("[INFO]\t\t");
    reveal_strlit("[ERROR]\t\t");
    reveal_strlit("[WARNING]\t");
    reveal_strlit("[DEBUG]\t\t");
    reveal_strlit("[TRACE]\t\t");
    reveal_strlit("[CRITICAL]\t");
}

proof fn lemma_newline_free_timestamp(cfg: TheLoggerConfig, ts: Timestamp)
    ensures
        newline_free(timestamp_section(cfg, ts)),
{
    lemma_newline_free_year_str(ts.year as int);
    lemma_newline_free_zero_pad(ts.month as nat, 2);
    lemma_newline_free_zero_pad(ts.day as nat, 2);
    lemma_newline_free_zero_pad(ts.hour as nat, 2);
    lemma_newline_free_zero_pad(ts.minute as nat, 2);
    lemma_newline_free_zero_pad(ts.second as nat, 2);
    lemma_newline_free_zero_pad(ts.micro as nat, 6);
    lemma_newline_free_zero_pad((ts.micro / 1000) as nat, 3);
    assert forall|i: int|
        0 <= i < timestamp_section(cfg, ts).len() implies timestamp_section(cfg, ts)[i]
        != '\n' by {
        let s = timestamp_section(cfg, ts);
        let d = date_part(cfg, ts);
        let t = time_part(cfg, ts);
        assert(s[i] == (d + t + seq!['\t'])[i]);
        if i < d.len() {
            assert(s[i] == d[i]);
        } else if i < d.len() + t.len() {
            assert(s[i] == t[i - d.len()]);
        } else {
            assert(s[i] == '\t');
        }
    }
}

proof fn lemma_newline_free_location(cfg: TheLoggerConfig, file: Seq<char>, line: u32, column: u32)
    requires
        newline_free(file),
    ensures
        newline_free(location_section(cfg, file, line, column)),
{
    lemma_newline_free_dec_str(line as nat);
    lemma_newline_free_dec_str(column as nat);
    let raw = location_raw(cfg, file, line, column);
    assert(newline_free(raw));
    let s = location_section(cfg, file, line, column);
    assert forall|i: int| 0 <= i < s.len() implies s[i] != '\n' by {
        if cfg.location_length < raw.len() {
            if i < cfg.location_length {
                assert(s[i] == raw[i]);
            } else {
                assert(s[i] == '\t');
            }
        } else if raw.len() > 0 {
            if i < raw.len() {
                assert(s[i] == raw[i]);
            } else {
                assert(s[i] == ' ');
            }
        }
    }
}

/// A rendered line is a single line: it is never empty, its last
/// character is the one newline, and — provided the file name and the
/// message contain no newline themselves — no other character of the
/// line is a newline.
pub proof fn lemma_log_line_is_single_line(
    cfg: TheLoggerConfig,
    ts: Timestamp,
    file: Seq<char>,
    line: u32,
    column: u32,
    msg: Seq<char>,
)
    requires
        newline_free(file),
        newline_free(msg),
    ensures
        log_line(cfg, ts, file, line, column, msg).len() > 0,
        log_line(cfg, ts, file, line, column, msg).last() == '\n',
        newline_free(
            log_line(cfg, ts, file, line, column, msg).take(
                log_line(cfg, ts, file, line, column, msg).len() - 1,
            ),
        ),
{
    lemma_newline_free_timestamp(cfg, ts);
    lemma_newline_free_level_tag(cfg.log_level);
    assert(newline_free(level_section(cfg)));
    lemma_newline_free_location(cfg, file, line, column);
    assert(newline_free(message_section(cfg, msg)));
    lemma_newline_free_concat(timestamp_section(cfg, ts), level_section(cfg));
    lemma_newline_free_concat(
        timestamp_section(cfg, ts) + level_section(cfg),
        location_section(cfg, file, line, column),
    );
    lemma_newline_free_concat(
        timestamp_section(cfg, ts) + level_section(cfg) + location_section(
            cfg,
            file,
            line,
            column,
        ),
        message_section(cfg, msg),
    );
    let body = timestamp_section(cfg, ts) + level_section(cfg) + location_section(
        cfg,
        file,
        line,
        column,
    ) + message_section(cfg, msg);
    let padded = if body.len() < cfg.log_content_length {
        body + spaces((cfg.log_content_length - body.len()) as nat)
    } else {
        body
    };
    if body.len() < cfg.log_content_length {
        lemma_newline_free_concat(body, spaces((cfg.log_content_length - body.len()) as nat));
    }
    assert(newline_free(padded));
    let l = log_line(cfg, ts, file, line, column, msg);
    assert(l =~= padded + seq!['\n']);
    assert(l.take(l.len() - 1) =~= padded);
}

// Executable rendering

/// The severity's display label.
fn level_tag_str(l: LogLevel) -> (r: &'static str)
    ensures
        r@ == level_tag(l),
{
    match l {
        LogLevel::Verbose => "[VERBOSE]\t",
        LogLevel::Information => "[INFO]\t\t",
        LogLevel::Error => "[ERROR]\t\t",
        LogLevel::Warning => "[WARNING]\t",
        LogLevel::Debug => "[DEBUG]\t\t",
        LogLevel::Trace => "[TRACE]\t\t",
        LogLevel::Critical => "[CRITICAL]\t",
    }
}

/// Appends the date portion of the timestamp section.
fn append_date(out: &mut String, cfg: &TheLoggerConfig, ts: &Timestamp)
    ensures
        final(out)@ == old(out)@ + date_part(*cfg, *ts),
{
    let ghost base = out@;
    let mut any_date = false;
    if !cfg.hide_years {
        append_year(out, ts.year);
        any_date = true;
    }
    if !cfg.hide_months {
        out.append("-");
        append_zero_pad(out, ts.month, 2);
        any_date = true;
    }
    if !cfg.hide_days {
        out.append("-");
        append_zero_pad(out, ts.day, 2);
        any_date = true;
    }
    if any_date {
        out.append(" ");
    }
    proof {
        reveal_strlit("-");
        reveal_strlit(" ");
        assert(out@ =~= base + date_part(*cfg, *ts));
    }
}

/// Appends the time portion of the timestamp section.
fn append_time(out: &mut String, cfg: &TheLoggerConfig, ts: &Timestamp)
    ensures
        final(out)@ == old(out)@ + time_part(*cfg, *ts),
{
    let ghost base = out@;
    if !cfg.hide_hours {
        append_zero_pad(out, ts.hour, 2);
    }
    if !cfg.hide_minutes {
        out.append(":");
        append_zero_pad(out, ts.minute, 2);
    }
    if !cfg.hide_seconds {
        out.append(":");
        append_zero_pad(out, ts.second, 2);
    }
    if !cfg.hide_millisecs {
        if !cfg.hide_microsecs {
            out.append(".");
            append_zero_pad(out, ts.micro, 6);
        } else {
            out.append(".");
            append_zero_pad(out, ts.micro / 1000, 3);
        }
    }
    proof {
        reveal_strlit(":");
        reveal_strlit(".");
        assert(out@ =~= base + time_part(*cfg, *ts));
    }
}

/// Appends the timestamp section.
fn append_timestamp(out: &mut String, cfg: &TheLoggerConfig, ts: &Timestamp)
    ensures
        final(out)@ == old(out)@ + timestamp_section(*cfg, *ts),
{
    append_date(out, cfg, ts);
    append_time(out, cfg, ts);
    out.append("\t");
    proof {
        reveal_strlit("\t");
        assert(out@ =~= old(out)@ + timestamp_section(*cfg, *ts));
    }
}

/// Appends the severity section.
fn append_level(out: &mut String, cfg: &TheLoggerConfig)
    ensures
        final(out)@ == old(out)@ + level_section(*cfg),
{
    if cfg.hide_level {
        out.append("\t");
        proof {
            reveal_strlit("\t");
            assert(out@ =~= old(out)@ + level_section(*cfg));
        }
    } else {
        out.append(level_tag_str(cfg.log_level));
    }
}

/// Builds the location string before the width rule.
fn build_location_raw(cfg: &TheLoggerConfig, file: &str, line: u32, column: u32) -> (r: String)
    ensures
        r@ == location_raw(*cfg, file@, line, column),
{
    let mut s = String::new();
    if !cfg.hide_file_name {
        s.append("@");
        s.append(file);
        if !cfg.hide_file_line {
            s.append(": ");
            append_dec(&mut s, line);
            if cfg.show_file_column {
                s.append("|");
                append_dec(&mut s, column);
            }
        }
    }
    proof {
        reveal_strlit("@");
        reveal_strlit(": ");
        reveal_strlit("|");
        assert(s@ =~= location_raw(*cfg, file@, line, column));
    }
    s
}

/// Appends the location section, applying the width rule.
fn append_location(out: &mut String, cfg: &TheLoggerConfig, file: &str, line: u32, column: u32)
    ensures
        final(out)@ == old(out)@ + location_section(*cfg, file@, line, column),
{
    let raw = build_location_raw(cfg, file, line, column);
    let raw_len: usize = raw.as_str().unicode_len();
    if cfg.location_length < raw_len {
        let cut = raw.as_str().substring_char(0, cfg.location_length);
        out.append(cut);
        out.append("\t\t");
        proof {
            reveal_strlit("\t\t");
            assert(out@ =~= old(out)@ + location_section(*cfg, file@, line, column));
        }
    } else if raw_len > 0 {
        out.append(raw.as_str());
        append_spaces(out, cfg.location_length - raw_len);
        proof {
            assert(out@ =~= old(out)@ + location_section(*cfg, file@, line, column));
        }
    }
}

/// Appends the message section, applying the width limit.
fn append_message(out: &mut String, cfg: &TheLoggerConfig, msg: &str)
    ensures
        final(out)@ == old(out)@ + message_section(*cfg, msg@),
{
    let msg_len: usize = msg.unicode_len();
    if cfg.log_content_length < msg_len {
        let cut = msg.substring_char(0, cfg.log_content_length);
        out.append(cut);
        proof {
            assert(out@ =~= old(out)@ + message_section(*cfg, msg@));
        }
    } else {
        out.append(msg);
    }
}

/// Renders one record: builds the timestamp, severity, location and
/// message sections from the given configuration snapshot, pads the line
/// to the configured content width, and terminates it with a newline.
/// The result is exactly [`log_line`] of the inputs, for every input.
pub fn compose_line(
    cfg: &TheLoggerConfig,
    ts: &Timestamp,
    file: &str,
    line: u32,
    column: u32,
    msg: &str,
) -> (r: String)
    ensures
        r@ == log_line(*cfg, *ts, file@, line, column, msg@),
{
    let mut out = String::new();
    append_timestamp(&mut out, cfg, ts);
    append_level(&mut out, cfg);
    append_location(&mut out, cfg, file, line, column);
    append_message(&mut out, cfg, msg);
    proof {
        assert(out@ =~= timestamp_section(*cfg, *ts) + level_section(*cfg) + location_section(
            *cfg,
            file@,
            line,
            column,
        ) + message_section(*cfg, msg@));
    }
    let ghost body = out@;
    let body_len: usize = out.as_str().unicode_len();
    if body_len < cfg.log_content_length {
        append_spaces(&mut out, cfg.log_content_length - body_len);
    }
    out.append("\n");
    proof {
        reveal_strlit("\n");
        assert(out@ =~= log_line(*cfg, *ts, file@, line, column, msg@));
    }
    out
}

} // verus!

