//! When a scheduled job runs next.
use crate::domain::models::CronSchedule;
use crate::text::{
    cat, decimal, has_prefix, is_ascii_digit, kept_opt, law_decimal_is_read_back, opt_text, parse_number, parsed_number, same, strip_prefix, after_prefix, texts,
    from_range, is_white_space, to_chars, trim_left, trim_non_empty_opt, trim, trimmed, white_space,
};
use vstd::prelude::*;

verus! {

broadcast use vstd::seq::group_seq_axioms;

/// The last millisecond that the calendar holds: the end of the year 262142.
pub const CALENDAR_LAST_MS: i64 = 8_210_266_876_799_999;

/// The milliseconds since the epoch that `chrono` reads from an RFC 3339 timestamp, or the text of
/// its error.
pub uninterp spec fn rfc3339_read(text: Seq<char>) -> Result<i64, Seq<char>>;

/// `chrono::DateTime::parse_from_rfc3339`, the result by its `timestamp_millis`. Claimed: the
/// result depends on the text alone.
#[verifier::external_body]
fn read_rfc3339(text: &str) -> (r: Result<i64, String>)
    ensures
        match r {
            Ok(ms) => rfc3339_read(text@) == Ok::<i64, Seq<char>>(ms),
            Err(error) => rfc3339_read(text@) == Err::<i64, Seq<char>>(error@),
        },
{
    chrono::DateTime::parse_from_rfc3339(text).map(|t| t.timestamp_millis()).map_err(
        |error| error.to_string(),
    )
}

/// `chrono::DateTime::<Utc>::from_timestamp_millis`, the result by its `minute`. Claimed: there is
/// a time for each millisecond up to the end of the year 262142, and its minute counts from the
/// full hour.
#[verifier::external_body]
fn utc_minute(ms: i64) -> (r: Option<u32>)
    requires
        ms >= 0,
    ensures
        r == (if ms <= CALENDAR_LAST_MS {
            Some(((ms as int / 60_000) % 60) as u32)
        } else {
            None
        }),
{
    chrono::DateTime::<chrono::Utc>::from_timestamp_millis(ms).map(
        |t| chrono::Timelike::minute(&t),
    )
}

// ---------------------------------------------------------------------------------------------
// Minutes
// ---------------------------------------------------------------------------------------------
/// Which minutes of the hour a job runs in.
#[derive(Debug, Clone, Copy, PartialEq, Eq, Structural)]
pub enum MinuteMatchMode {
    Any,
    Every(u32),
    Exact(u32),
}

/// Which minutes of the hour a job runs in.
#[derive(Debug, Clone, Copy, PartialEq, Eq, Structural)]
pub struct MinuteMatcher {
    pub mode: MinuteMatchMode,
}

/// The minute of the hour is one of the matcher's.
pub open spec fn minute_matches(mode: MinuteMatchMode, minute: int) -> bool {
    match mode {
        MinuteMatchMode::Any => true,
        MinuteMatchMode::Every(step) => minute % (step as int) == 0,
        MinuteMatchMode::Exact(value) => minute == value,
    }
}

/// A step or a minute that an hour has.
pub open spec fn mode_wf(mode: MinuteMatchMode) -> bool {
    match mode {
        MinuteMatchMode::Any => true,
        MinuteMatchMode::Every(step) => 1 <= step <= 59,
        MinuteMatchMode::Exact(value) => value <= 59,
    }
}

impl MinuteMatcher {
    /// Whether the minute of the hour is one of the matcher's.
    pub fn matches(&self, minute: u32) -> (r: bool)
        requires
            mode_wf(self.mode),
        ensures
            r == minute_matches(self.mode, minute as int),
    {
        match self.mode {
            MinuteMatchMode::Any => true,
            MinuteMatchMode::Every(step) => minute % step == 0,
            MinuteMatchMode::Exact(value) => minute == value,
        }
    }
}

/// The matcher that the minute field of an expression means, or what is wrong with it.
pub open spec fn minute_field(field: Seq<char>) -> Result<MinuteMatchMode, Seq<char>> {
    let t = trimmed(field);
    if t == "*"@ {
        Ok(MinuteMatchMode::Any)
    } else {
        match after_prefix(t, "*/"@) {
            Some(step) => match parsed_number(step, u32::MAX as nat) {
                None => Err("invalid minute step in cron expression"@),
                Some(n) => if 1 <= n <= 59 {
                    Ok(MinuteMatchMode::Every(n as u32))
                } else {
                    Err("minute step must be between 1 and 59"@)
                },
            },
            None => match parsed_number(t, u32::MAX as nat) {
                None => Err("invalid minute value in cron expression"@),
                Some(n) => if n <= 59 {
                    Ok(MinuteMatchMode::Exact(n as u32))
                } else {
                    Err("minute value must be between 0 and 59"@)
                },
            },
        }
    }
}

/// The matcher that the minute field of an expression means.
pub fn parse_minute_matcher(field: &str) -> (r: Result<MinuteMatcher, String>)
    ensures
        match minute_field(field@) {
            Ok(mode) => r == Ok::<MinuteMatcher, String>(MinuteMatcher { mode }) && mode_wf(mode),
            Err(message) => r is Err && r->Err_0@ == message,
        },
{
    let t = trim(field);
    if same(t.as_str(), "*") {
        return Ok(MinuteMatcher { mode: MinuteMatchMode::Any });
    }
    if let Some(step_text) = strip_prefix(t.as_str(), "*/") {
        let step: u64 = match parse_number(step_text.as_str(), u32::MAX as u64) {
            Some(n) => n,
            None => {
                return Err("invalid minute step in cron expression".to_owned());
            },
        };
        if step < 1 || step > 59 {
            return Err("minute step must be between 1 and 59".to_owned());
        }
        return Ok(MinuteMatcher { mode: MinuteMatchMode::Every(step as u32) });
    }
    let value: u64 = match parse_number(t.as_str(), u32::MAX as u64) {
        Some(n) => n,
        None => {
            return Err("invalid minute value in cron expression".to_owned());
        },
    };
    if value > 59 {
        return Err("minute value must be between 0 and 59".to_owned());
    }
    Ok(MinuteMatcher { mode: MinuteMatchMode::Exact(value as u32) })
}

// ---------------------------------------------------------------------------------------------
// Expressions
// ---------------------------------------------------------------------------------------------
/// How many characters there are before the first white space.
pub open spec fn word_len(s: Seq<char>) -> int
    decreases s.len(),
{
    if s.len() == 0 || is_white_space(s[0]) {
        0
    } else {
        1 + word_len(s.skip(1))
    }
}

/// The words of a text, between its white space.
pub open spec fn words(s: Seq<char>) -> Seq<Seq<char>>
    decreases s.len(),
    when true
    via words_decreases
{
    let t = trim_left(s, |c: char| is_white_space(c));
    if t.len() == 0 {
        Seq::empty()
    } else {
        seq![t.take(word_len(t))] + words(t.skip(word_len(t)))
    }
}

#[via_fn]
proof fn words_decreases(s: Seq<char>) {
    let t = trim_left(s, |c: char| is_white_space(c));
    crate::text::lemma_trim_left_shape(s, |c: char| is_white_space(c));
    if t.len() > 0 {
        lemma_word_len(t);
        assert(word_len(t) >= 1);
    }
}

proof fn lemma_word_len(s: Seq<char>)
    ensures
        0 <= word_len(s) <= s.len(),
        s.len() > 0 && !is_white_space(s[0]) ==> word_len(s) >= 1,
        forall|k: int| 0 <= k < word_len(s) ==> !is_white_space(#[trigger] s[k]),
        word_len(s) < s.len() ==> is_white_space(s[word_len(s)]),
    decreases s.len(),
{
    if s.len() > 0 && !is_white_space(s[0]) {
        lemma_word_len(s.skip(1));
        assert forall|k: int| 0 <= k < word_len(s) implies !is_white_space(#[trigger] s[k]) by {
            if k > 0 {
                assert(s.skip(1)[k - 1] == s[k]);
            }
        }
    }
}

proof fn lemma_word_len_is(s: Seq<char>, n: int)
    requires
        0 <= n <= s.len(),
        forall|k: int| 0 <= k < n ==> !is_white_space(#[trigger] s[k]),
        n < s.len() ==> is_white_space(s[n]),
    ensures
        word_len(s) == n,
{
    lemma_word_len(s);
    if word_len(s) < n {
        assert(!is_white_space(s[word_len(s)]));
    }
    if n < word_len(s) {
        assert(!is_white_space(s[n]));
    }
}

proof fn lemma_words_of_space(s: Seq<char>)
    requires
        s.len() > 0,
        is_white_space(s[0]),
    ensures
        words(s) == words(s.skip(1)),
{
}

/// The words of a text, between its white space.
pub fn split_words(s: &str) -> (r: Vec<String>)
    ensures
        texts(r@) == words(s@),
{
    let chars = to_chars(s);
    let n: usize = chars.len();
    let mut out: Vec<String> = Vec::new();
    let mut at: usize = 0;
    assert(chars@.skip(0) =~= s@);
    assert(texts(out@) + words(chars@.skip(0)) =~= words(s@));
    while at < n
        invariant
            n == chars@.len(),
            at <= n,
            texts(out@) + words(chars@.skip(at as int)) == words(s@),
        decreases n - at,
    {
        let ghost rest = chars@.skip(at as int);
        if white_space(chars[at]) {
            proof {
                lemma_words_of_space(rest);
                assert(rest.skip(1) =~= chars@.skip(at + 1));
            }
            at = at + 1;
            continue;
        }
        let start: usize = at;
        while at < n && !white_space(chars[at])
            invariant
                n == chars@.len(),
                start <= at <= n,
                forall|k: int| start <= k < at ==> !is_white_space(#[trigger] chars@[k]),
            decreases n - at,
        {
            at = at + 1;
        }
        assert(at > start);
        let word = from_range(&chars, start, at);
        proof {
            assert forall|k: int| 0 <= k < at - start implies !is_white_space(#[trigger] rest[k]) by {
                assert(rest[k] == chars@[start + k]);
            }
            lemma_word_len_is(rest, at - start);
            assert(trim_left(rest, |c: char| is_white_space(c)) == rest);
            assert(word@ =~= rest.take(at - start));
            assert(rest.skip(at - start) =~= chars@.skip(at as int));
            assert(words(rest) == seq![word@] + words(chars@.skip(at as int)));
        }
        let ghost so_far = out@;
        out.push(word);
        assert(texts(out@) =~= texts(so_far).push(word@));
        assert(texts(out@) + words(chars@.skip(at as int)) =~= texts(so_far) + words(rest));
    }
    assert(chars@.skip(at as int) =~= Seq::<char>::empty());
    assert(words(Seq::<char>::empty()) =~= Seq::<Seq<char>>::empty());
    assert(texts(out@) =~= words(s@));
    out
}

/// The matcher that an expression means: five fields, or six with the seconds first, all but the
/// minutes a star.
pub open spec fn expression(expr: Seq<char>) -> Result<MinuteMatchMode, Seq<char>> {
    let w = words(expr);
    let m = if w.len() == 6 {
        1int
    } else {
        0
    };
    if w.len() != 5 && w.len() != 6 {
        Err("cron expression must contain 5 or 6 fields"@)
    } else if w[m + 1] != "*"@ || w[m + 2] != "*"@ || w[m + 3] != "*"@ || w[m + 4] != "*"@ {
        Err("only minute-based cron expressions are supported currently"@)
    } else {
        minute_field(w[m])
    }
}

/// The first minute after the minute `from` that is one of the matcher's.
pub open spec fn is_next_minute(mode: MinuteMatchMode, from: int, minute: int) -> bool {
    &&& minute > from
    &&& minute_matches(mode, minute % 60)
    &&& forall|k: int| from < k < minute ==> !minute_matches(mode, #[trigger] (k % 60))
}

/// The time to wait for that minute stays within the calendar.
pub open spec fn cron_in_calendar(mode: MinuteMatchMode, from_ms: u64) -> bool {
    from_ms <= CALENDAR_LAST_MS ==> forall|minute: int| #[trigger]
        is_next_minute(mode, from_ms as int / 60_000, minute) ==> from_ms + (minute - from_ms as int
            / 60_000) * 60_000 <= CALENDAR_LAST_MS
}

/// What an expression gives as the next time after `from_ms`.
pub open spec fn cron_time_is(r: Result<u64, Seq<char>>, expr: Seq<char>, from_ms: u64) -> bool {
    match expression(expr) {
        Err(message) => r == Err::<u64, Seq<char>>(message),
        Ok(mode) => if from_ms > CALENDAR_LAST_MS {
            r == Err::<u64, Seq<char>>("invalid timestamp for cron computation"@)
        } else {
            r is Ok && r->Ok_0 % 60_000 == 0 && is_next_minute(
                mode,
                from_ms as int / 60_000,
                r->Ok_0 as int / 60_000,
            )
        },
    }
}

/// Every hour has a minute of each matcher.
proof fn lemma_minute_within_the_hour(mode: MinuteMatchMode, from: int) -> (minute: int)
    requires
        mode_wf(mode),
        from >= 0,
    ensures
        from < minute <= from + 60,
        minute_matches(mode, minute % 60),
{
    let target: int = match mode {
        MinuteMatchMode::Exact(value) => value as int,
        _ => 0,
    };
    let r = from % 60;
    let minute = if target > r {
        from - r + target
    } else {
        from - r + 60 + target
    };
    assert(minute % 60 == target);
    if let MinuteMatchMode::Every(step) = mode {
        assert(0int % (step as int) == 0) by (nonlinear_arith)
            requires
                step >= 1,
        ;
    }
    minute
}

/// The next time that an expression gives, in words the error where it gives none.
pub open spec fn words_of<T>(r: Result<T, String>) -> Result<T, Seq<char>> {
    match r {
        Ok(v) => Ok(v),
        Err(e) => Err(e@),
    }
}

/// The next time that an expression gives.
pub fn compute_next_cron_time(expr: &str, from_ms: u64) -> (r: Result<u64, String>)
    requires
        expression(expr@) is Ok ==> cron_in_calendar(expression(expr@)->Ok_0, from_ms),
    ensures
        cron_time_is(words_of(r), expr@, from_ms),
{
    let parts = split_words(expr);
    assert(texts(parts@).len() == parts@.len());
    if parts.len() != 5 && parts.len() != 6 {
        return Err("cron expression must contain 5 or 6 fields".to_owned());
    }
    let m: usize = if parts.len() == 6 {
        1
    } else {
        0
    };
    if !same(parts[m + 1].as_str(), "*") || !same(parts[m + 2].as_str(), "*") || !same(
        parts[m + 3].as_str(),
        "*",
    ) || !same(parts[m + 4].as_str(), "*") {
        return Err("only minute-based cron expressions are supported currently".to_owned());
    }
    let matcher = match parse_minute_matcher(parts[m].as_str()) {
        Ok(matcher) => matcher,
        Err(message) => {
            return Err(message);
        },
    };
    let ghost mode = expression(expr@)->Ok_0;
    assert(mode == matcher.mode);
    let start: i64 = if from_ms <= i64::MAX as u64 {
        from_ms as i64
    } else {
        i64::MAX
    };
    if utc_minute(start).is_none() {
        return Err("invalid timestamp for cron computation".to_owned());
    }
    let ghost from = from_ms as int / 60_000;
    let ghost soon = lemma_minute_within_the_hour(mode, from);
    let mut offset: i64 = 1;
    while offset <= 10_080
        invariant
            1 <= offset <= 10_081,
            0 <= start <= CALENDAR_LAST_MS,
            start == from_ms,
            from == from_ms as int / 60_000,
            mode == matcher.mode,
            mode_wf(mode),
            expression(expr@) == Ok::<MinuteMatchMode, Seq<char>>(mode),
            cron_in_calendar(mode, from_ms),
            from < soon <= from + 60,
            minute_matches(mode, soon % 60),
            forall|k: int| from < k < from + offset ==> !minute_matches(mode, #[trigger] (k % 60)),
        decreases 10_081 - offset,
    {
        let candidate: i64 = start + offset * 60_000;
        let ghost at = from + offset;
        assert(candidate as int / 60_000 == at);
        match utc_minute(candidate) {
            Some(minute) => {
                if matcher.matches(minute) {
                    let ms: i64 = candidate - candidate % 60_000;
                    assert(ms as int / 60_000 == at);
                    assert(ms % 60_000 == 0);
                    assert(is_next_minute(mode, from, at));
                    return Ok(ms as u64);
                }
                assert(!minute_matches(mode, at % 60));
            },
            None => {
                proof {
                    lemma_first_exists(mode, from, at, soon);
                    let first = choose|first: int| is_next_minute(mode, from, first) && first >= at;
                    assert(is_next_minute(mode, from, first));
                    assert(from_ms + (first - from) * 60_000 <= CALENDAR_LAST_MS);
                    assert(false);
                }
            },
        }
        proof {
            if at == soon {
                assert(!minute_matches(mode, soon % 60));
            }
        }
        offset = offset + 1;
    }
    assert(!minute_matches(mode, soon % 60));
    Err("unable to compute next cron occurrence in 7-day search window".to_owned())
}

proof fn lemma_first_exists(mode: MinuteMatchMode, from: int, at: int, soon: int)
    requires
        from < at,
        forall|k: int| from < k < at ==> !minute_matches(mode, #[trigger] (k % 60)),
        from < soon,
        minute_matches(mode, soon % 60),
    ensures
        exists|first: int| is_next_minute(mode, from, first) && first >= at,
    decreases soon - at,
{
    if soon < at {
        assert(!minute_matches(mode, soon % 60));
    } else if minute_matches(mode, at % 60) {
        assert(is_next_minute(mode, from, at) && at >= at);
    } else {
        lemma_first_exists(mode, from, at + 1, soon);
        let first = choose|first: int| is_next_minute(mode, from, first) && first >= at + 1;
        assert(is_next_minute(mode, from, first) && first >= at);
    }
}

// ---------------------------------------------------------------------------------------------
// Schedules
// ---------------------------------------------------------------------------------------------
/// The time that an RFC 3339 timestamp means, from what was read of it.
pub open spec fn timestamp_model(read: Result<i64, Seq<char>>) -> Result<u64, Seq<char>> {
    match read {
        Err(error) => Err("invalid RFC3339 timestamp: "@ + error),
        Ok(ms) => if ms < 0 {
            Err("timestamp must be >= unix epoch"@)
        } else {
            Ok(ms as u64)
        },
    }
}

/// The time that an RFC 3339 timestamp means, from what was read of it.
pub fn timestamp_of(read: Result<i64, String>) -> (r: Result<u64, String>)
    ensures
        words_of(r) == timestamp_model(words_of(read)),
{
    match read {
        Err(error) => Err(cat("invalid RFC3339 timestamp: ", error.as_str())),
        Ok(ms) => if ms < 0 {
            Err("timestamp must be >= unix epoch".to_owned())
        } else {
            Ok(ms as u64)
        },
    }
}

/// The time that an RFC 3339 timestamp means.
pub fn parse_rfc3339_ms(value: &str) -> (r: Result<u64, String>)
    ensures
        words_of(r) == timestamp_model(rfc3339_read(value@)),
{
    timestamp_of(read_rfc3339(value))
}

/// The run of a fixed time: itself while it is to come.
pub open spec fn at_time(at: Result<u64, Seq<char>>, from_ms: u64) -> Result<
    Option<u64>,
    Seq<char>,
> {
    match at {
        Err(message) => Err(message),
        Ok(ms) => Ok(
            if ms > from_ms {
                Some(ms)
            } else {
                None
            },
        ),
    }
}

/// The sum, or the largest number where it is larger.
pub open spec fn capped(n: int) -> u64 {
    if n > u64::MAX {
        u64::MAX
    } else {
        n as u64
    }
}

/// The next run of an interval: from the anchor in whole steps, or one step from now.
pub open spec fn every_time(every: Option<u64>, anchor: Option<u64>, from_ms: u64) -> Result<
    Option<u64>,
    Seq<char>,
> {
    match every {
        None => Err("schedule.everyMs is required for kind=every"@),
        Some(every) => if every == 0 {
            Err("schedule.everyMs must be > 0"@)
        } else {
            Ok(
                Some(
                    match anchor {
                        None => capped(from_ms + every),
                        Some(anchor) => if from_ms < anchor {
                            anchor
                        } else {
                            capped(anchor + ((from_ms - anchor) / (every as int) + 1) * every)
                        },
                    },
                ),
            )
        },
    }
}

/// The schedule's next run stays within the calendar.
pub open spec fn in_calendar(schedule: CronSchedule, from_ms: u64) -> bool {
    schedule.kind@ == "cron"@ && kept_opt(opt_text(schedule.expr)) is Some && expression(
        kept_opt(opt_text(schedule.expr))->0,
    ) is Ok ==> cron_in_calendar(
        expression(kept_opt(opt_text(schedule.expr))->0)->Ok_0,
        from_ms,
    )
}

/// What a schedule gives as its next run after `from_ms`.
pub open spec fn next_run_is(
    r: Result<Option<u64>, Seq<char>>,
    schedule: CronSchedule,
    from_ms: u64,
) -> bool {
    if schedule.kind@ == "at"@ {
        r == match kept_opt(opt_text(schedule.at)) {
            None => Err("schedule.at is required for kind=at"@),
            Some(at) => at_time(timestamp_model(rfc3339_read(at)), from_ms),
        }
    } else if schedule.kind@ == "every"@ {
        r == every_time(schedule.every_ms, schedule.anchor_ms, from_ms)
    } else if schedule.kind@ == "cron"@ {
        match kept_opt(opt_text(schedule.expr)) {
            None => r == Err::<Option<u64>, Seq<char>>(
                "schedule.expr is required for kind=cron"@,
            ),
            Some(expr) => match r {
                Ok(Some(ms)) => cron_time_is(Ok(ms), expr, from_ms),
                Ok(None) => false,
                Err(message) => cron_time_is(Err(message), expr, from_ms),
            },
        }
    } else if schedule.kind@ == "once"@ {
        r == Ok::<Option<u64>, Seq<char>>(None)
    } else {
        r == Err::<Option<u64>, Seq<char>>("unsupported schedule kind: "@ + schedule.kind@)
    }
}

/// The next run of an interval.
fn next_every(every: Option<u64>, anchor: Option<u64>, from_ms: u64) -> (r: Result<
    Option<u64>,
    String,
>)
    ensures
        words_of(r) == every_time(every, anchor, from_ms),
{
    let every: u64 = match every {
        Some(every) => every,
        None => {
            return Err("schedule.everyMs is required for kind=every".to_owned());
        },
    };
    if every == 0 {
        return Err("schedule.everyMs must be > 0".to_owned());
    }
    match anchor {
        None => Ok(Some(from_ms.saturating_add(every))),
        Some(anchor) => {
            if from_ms < anchor {
                return Ok(Some(anchor));
            }
            let elapsed: u64 = from_ms - anchor;
            let steps: u64 = elapsed / every;
            assert(steps * every <= elapsed) by (nonlinear_arith)
                requires
                    every > 0,
                    steps == elapsed / every,
            ;
            assert((steps + 1) * every == steps * every + every) by (nonlinear_arith);
            let whole: u64 = steps * every;
            Ok(Some((anchor + whole).saturating_add(every)))
        },
    }
}

/// When the schedule runs next after `from_ms`; never again where there is no such time.
pub fn compute_next_run_ms(schedule: &CronSchedule, from_ms: u64) -> (r: Result<Option<u64>, String>)
    requires
        in_calendar(*schedule, from_ms),
    ensures
        next_run_is(words_of(r), *schedule, from_ms),
{
    let kind = schedule.kind.as_str();
    if same(kind, "at") {
        let at = match trim_non_empty_opt(&schedule.at) {
            Some(at) => at,
            None => {
                return Err("schedule.at is required for kind=at".to_owned());
            },
        };
        return match parse_rfc3339_ms(at.as_str()) {
            Err(message) => Err(message),
            Ok(ms) => if ms > from_ms {
                Ok(Some(ms))
            } else {
                Ok(None)
            },
        };
    }
    if same(kind, "every") {
        return next_every(schedule.every_ms, schedule.anchor_ms, from_ms);
    }
    if same(kind, "cron") {
        let expr = match trim_non_empty_opt(&schedule.expr) {
            Some(expr) => expr,
            None => {
                return Err("schedule.expr is required for kind=cron".to_owned());
            },
        };
        return match compute_next_cron_time(expr.as_str(), from_ms) {
            Ok(ms) => Ok(Some(ms)),
            Err(message) => Err(message),
        };
    }
    if same(kind, "once") {
        return Ok(None);
    }
    Err(cat("unsupported schedule kind: ", kind))
}

// ---------------------------------------------------------------------------------------------
// Laws
// ---------------------------------------------------------------------------------------------
/// A next run lies after the time that it is counted from, but for an interval whose next step is
/// beyond the largest number.
pub proof fn law_next_run_is_later(schedule: CronSchedule, from_ms: u64, next: u64)
    requires
        next_run_is(Ok(Some(next)), schedule, from_ms),
        next < u64::MAX,
    ensures
        next > from_ms,
{
    reveal_strlit("at");
    reveal_strlit("every");
    reveal_strlit("cron");
    reveal_strlit("once");
    if schedule.kind@ == "every"@ {
        assert("every"@.len() != "at"@.len());
        let every = schedule.every_ms->0;
        if let Some(anchor) = schedule.anchor_ms {
            if from_ms >= anchor {
                law_interval_is_aligned(every, anchor, from_ms);
            }
        }
    }
}

/// Where a schedule runs again after a time, it runs again after every earlier time, and no later.
pub proof fn law_next_run_is_monotone(
    schedule: CronSchedule,
    from_ms: u64,
    later_ms: u64,
    next: Result<Option<u64>, Seq<char>>,
    later_next: u64,
)
    requires
        from_ms <= later_ms,
        next_run_is(next, schedule, from_ms),
        next_run_is(Ok(Some(later_next)), schedule, later_ms),
    ensures
        next matches Ok(Some(ms)) && ms <= later_next,
{
    if schedule.kind@ == "at"@ {
    } else if schedule.kind@ == "every"@ {
        let every = schedule.every_ms->0;
        if let Some(anchor) = schedule.anchor_ms {
            if from_ms >= anchor {
                let e = every as int;
                let a = from_ms - anchor;
                let b = later_ms - anchor;
                assert((a / e + 1) * e <= (b / e + 1) * e) by (nonlinear_arith)
                    requires
                        e > 0,
                        a <= b,
                ;
            } else if later_ms >= anchor {
                law_interval_is_aligned(every, anchor, later_ms);
            }
        }
    } else if schedule.kind@ == "cron"@ {
        let mode = expression(kept_opt(opt_text(schedule.expr))->0)->Ok_0;
        let minute = next->Ok_0->0 as int / 60_000;
        let later = later_next as int / 60_000;
        if later < minute {
            assert(!minute_matches(mode, later % 60));
        }
    }
}

/// The next step of an interval is the first one after now, counted from its anchor.
pub proof fn law_interval_is_aligned(every: u64, anchor: u64, from_ms: u64)
    requires
        every > 0,
        from_ms >= anchor,
    ensures
        ({
            let next = anchor + ((from_ms - anchor) / (every as int) + 1) * every;
            &&& (next - anchor) % (every as int) == 0
            &&& from_ms < next <= from_ms + every
        }),
{
    let e = every as int;
    let d = from_ms - anchor;
    let q = d / e;
    assert(q * e <= d < (q + 1) * e) by (nonlinear_arith)
        requires
            e > 0,
            q == d / e,
    ;
    assert((q + 1) * e == q * e + e) by (nonlinear_arith);
    assert(((q + 1) * e) % e == 0) by (nonlinear_arith)
        requires
            e > 0,
    ;
}

/// The next minute of an expression comes within the hour.
pub proof fn law_cron_runs_within_the_hour(mode: MinuteMatchMode, from: int, minute: int)
    requires
        mode_wf(mode),
        from >= 0,
        is_next_minute(mode, from, minute),
    ensures
        minute <= from + 60,
{
    let soon = lemma_minute_within_the_hour(mode, from);
    if minute > soon {
        assert(!minute_matches(mode, soon % 60));
    }
}

/// Up to an hour before its end, and after it, the calendar leaves room for every schedule.
pub proof fn law_calendar_has_room(schedule: CronSchedule, from_ms: u64)
    requires
        from_ms <= CALENDAR_LAST_MS - 3_600_000 || from_ms > CALENDAR_LAST_MS,
    ensures
        in_calendar(schedule, from_ms),
{
    if kept_opt(opt_text(schedule.expr)) is Some && expression(
        kept_opt(opt_text(schedule.expr))->0,
    ) is Ok {
        let expr = kept_opt(opt_text(schedule.expr))->0;
        let mode = expression(expr)->Ok_0;
        assert(mode_wf(mode));
        assert forall|minute: int| #[trigger]
            is_next_minute(mode, from_ms as int / 60_000, minute) && from_ms <= CALENDAR_LAST_MS implies from_ms + (
        minute - from_ms as int / 60_000) * 60_000 <= CALENDAR_LAST_MS by {
            law_cron_runs_within_the_hour(mode, from_ms as int / 60_000, minute);
        }
    }
}

/// The next minute of an expression is one minute and no other.
pub proof fn law_next_minute_is_unique(mode: MinuteMatchMode, from: int, a: int, b: int)
    requires
        is_next_minute(mode, from, a),
        is_next_minute(mode, from, b),
    ensures
        a == b,
{
    if a < b {
        assert(!minute_matches(mode, a % 60));
    }
    if b < a {
        assert(!minute_matches(mode, b % 60));
    }
}

/// The words of a text that begins with a word are that word and those of the rest.
proof fn lemma_first_word(word: Seq<char>, rest: Seq<char>)
    requires
        word.len() > 0,
        forall|k: int| 0 <= k < word.len() ==> !is_white_space(#[trigger] word[k]),
        rest.len() > 0 ==> is_white_space(rest[0]),
    ensures
        words(word + rest) == seq![word] + words(rest),
{
    let s = word + rest;
    assert(s[0] == word[0]);
    assert forall|k: int| 0 <= k < word.len() implies !is_white_space(#[trigger] s[k]) by {
        assert(s[k] == word[k]);
    }
    if rest.len() > 0 {
        assert(s[word.len() as int] == rest[0]);
    }
    lemma_word_len_is(s, word.len() as int);
    assert(trim_left(s, |c: char| is_white_space(c)) == s);
    assert(s.take(word.len() as int) =~= word);
    assert(s.skip(word.len() as int) =~= rest);
}

/// Four stars behind a word give five words.
proof fn lemma_four_stars(word: Seq<char>)
    requires
        word.len() > 0,
        forall|k: int| 0 <= k < word.len() ==> !is_white_space(#[trigger] word[k]),
    ensures
        words(word + " * * * *"@) == seq![word, "*"@, "*"@, "*"@, "*"@],
{
    reveal_strlit(" * * * *");
    reveal_strlit("*");
    let star = "*"@;
    let t4 = " * * * *"@;
    let t3 = t4.skip(2);
    let t2 = t3.skip(2);
    let t1 = t2.skip(2);
    let none = Seq::<char>::empty();
    assert(words(none) =~= Seq::<Seq<char>>::empty());
    lemma_first_word(word, t4);
    assert(t4.skip(1) =~= star + t3);
    assert(t3.skip(1) =~= star + t2);
    assert(t2.skip(1) =~= star + t1);
    assert(t1.skip(1) =~= star + none);
    lemma_words_of_space(t4);
    lemma_words_of_space(t3);
    lemma_words_of_space(t2);
    lemma_words_of_space(t1);
    lemma_first_word(star, t3);
    lemma_first_word(star, t2);
    lemma_first_word(star, t1);
    lemma_first_word(star, none);
    assert(words(word + t4) =~= seq![word, star, star, star, star]);
}

/// What an expression of a minute field and four stars means.
proof fn lemma_field_and_stars(field: Seq<char>)
    requires
        field.len() > 0,
        forall|k: int| 0 <= k < field.len() ==> !is_white_space(#[trigger] field[k]),
    ensures
        expression(field + " * * * *"@) == minute_field(field),
        kept_opt(Some(field + " * * * *"@)) == Some(field + " * * * *"@),
        trimmed(field) == field,
{
    let e = field + " * * * *"@;
    lemma_four_stars(field);
    reveal_strlit(" * * * *");
    assert(e[0] == field[0]);
    assert(e.last() == '*');
    assert(field.last() == field[field.len() - 1]);
    crate::text::lemma_trim_both_fixed(e, |c: char| is_white_space(c));
    crate::text::lemma_trim_both_fixed(field, |c: char| is_white_space(c));
}

/// The field of a step.
proof fn lemma_step_field(n: nat)
    ensures
        ({
            let field = "*/"@ + decimal(n);
            &&& field.len() > 0
            &&& forall|k: int| 0 <= k < field.len() ==> !is_white_space(#[trigger] field[k])
            &&& minute_field(field) == (if 1 <= n <= 59 {
                Ok::<MinuteMatchMode, Seq<char>>(MinuteMatchMode::Every(n as u32))
            } else if n <= u32::MAX {
                Err("minute step must be between 1 and 59"@)
            } else {
                Err("invalid minute step in cron expression"@)
            })
        }),
{
    reveal_strlit("*/");
    reveal_strlit("*");
    let field = "*/"@ + decimal(n);
    law_decimal_is_read_back(n, u32::MAX as nat);
    assert forall|k: int| 0 <= k < field.len() implies !is_white_space(#[trigger] field[k]) by {
        if k >= 2 {
            assert(field[k] == decimal(n)[k - 2]);
        }
    }
    crate::text::lemma_trim_both_fixed(field, |c: char| is_white_space(c));
    assert(field.take(2) =~= "*/"@);
    assert(field.skip(2) =~= decimal(n));
    assert(field.len() != "*"@.len());
}

/// The field of one minute.
proof fn lemma_minute_value_field(n: nat)
    ensures
        ({
            let field = decimal(n);
            &&& field.len() > 0
            &&& forall|k: int| 0 <= k < field.len() ==> !is_white_space(#[trigger] field[k])
            &&& minute_field(field) == (if n <= 59 {
                Ok::<MinuteMatchMode, Seq<char>>(MinuteMatchMode::Exact(n as u32))
            } else if n <= u32::MAX {
                Err("minute value must be between 0 and 59"@)
            } else {
                Err("invalid minute value in cron expression"@)
            })
        }),
{
    reveal_strlit("*/");
    reveal_strlit("*");
    let field = decimal(n);
    law_decimal_is_read_back(n, u32::MAX as nat);
    assert(is_ascii_digit(field[0]));
    assert forall|k: int| 0 <= k < field.len() implies !is_white_space(#[trigger] field[k]) by {
        assert(is_ascii_digit(field[k]));
    }
    crate::text::lemma_trim_both_fixed(field, |c: char| is_white_space(c));
    if has_prefix(field, "*/"@) {
        assert(field.take(2)[0] == field[0]);
    }
    assert("*"@[0] == '*');
}

/// A job with the expression `*/n * * * *` runs at the start of each minute of the hour that is a
/// multiple of `n`, and of no other: never more than `n` minutes after the minute it is asked in, and
/// exactly `n` after a minute that is a multiple while the hour has another one.
pub proof fn law_steps_of_minutes(
    n: nat,
    schedule: &CronSchedule,
    from_ms: u64,
    r: Result<Option<u64>, String>,
)
    requires
        call_ensures(compute_next_run_ms, (schedule, from_ms), r),
        1 <= n <= 59,
        from_ms <= CALENDAR_LAST_MS,
        schedule.kind@ == "cron"@,
        opt_text(schedule.expr) == Some("*/"@ + decimal(n) + " * * * *"@),
    ensures
        ({
            let minute = from_ms as int / 60_000;
            let next = r->Ok_0->0;
            let then_minute = next as int / 60_000;
            &&& r matches Ok(Some(_))
            &&& next % 60_000 == 0
            &&& minute < then_minute <= minute + n
            &&& (then_minute % 60) % (n as int) == 0
            &&& forall|k: int| minute < k < then_minute ==> (#[trigger] (k % 60)) % (n as int) != 0
            &&& (minute % 60) % (n as int) == 0 && minute % 60 + n < 60 ==> then_minute == minute + n
        }),
{
    lemma_kinds();
    lemma_step_field(n);
    lemma_field_and_stars("*/"@ + decimal(n));
    let minute = from_ms as int / 60_000;
    let then_minute = r->Ok_0->0 as int / 60_000;
    let e = n as int;
    let q = minute % 60;
    let above = (q / e + 1) * e;
    assert(above % e == 0 && q < above <= q + e) by (nonlinear_arith)
        requires
            e > 0,
            q >= 0,
            above == (q / e + 1) * e,
    ;
    assert(0int % e == 0) by (nonlinear_arith)
        requires
            e > 0,
    ;
    let soon = if above < 60 {
        minute - q + above
    } else {
        minute - q + 60
    };
    assert(soon % 60 == (if above < 60 {
        above
    } else {
        0
    }));
    if then_minute > soon {
        assert(!minute_matches(MinuteMatchMode::Every(n as u32), soon % 60));
    }
    if q % e == 0 && q + e < 60 {
        assert(above == q + e) by (nonlinear_arith)
            requires
                e > 0,
                q >= 0,
                q % e == 0,
                above == (q / e + 1) * e,
        ;
        if then_minute < soon {
            let t = then_minute % 60;
            assert(t == then_minute - minute + q);
            assert(t % e != 0) by (nonlinear_arith)
                requires
                    e > 0,
                    q >= 0,
                    q % e == 0,
                    q < t < q + e,
            ;
        }
    }
}

/// A step of zero, or of an hour and more, is refused, and so is a minute that no hour has.
pub proof fn law_hours_have_sixty_minutes(
    n: nat,
    step: bool,
    schedule: &CronSchedule,
    from_ms: u64,
    r: Result<Option<u64>, String>,
)
    requires
        call_ensures(compute_next_run_ms, (schedule, from_ms), r),
        n >= 60 || (step && n == 0),
        schedule.kind@ == "cron"@,
        opt_text(schedule.expr) == Some(
            (if step {
                "*/"@
            } else {
                ""@
            }) + decimal(n) + " * * * *"@,
        ),
    ensures
        r is Err,
{
    reveal_strlit("");
    lemma_kinds();
    if step {
        lemma_step_field(n);
        lemma_field_and_stars("*/"@ + decimal(n));
    } else {
        lemma_minute_value_field(n);
        lemma_field_and_stars(decimal(n));
        assert(""@ + decimal(n) =~= decimal(n));
    }
}

/// A job with the expression `n * * * *` runs at the start of minute `n` of the hour: the first that
/// comes, within the hour.
pub proof fn law_one_minute_of_the_hour(
    n: nat,
    schedule: &CronSchedule,
    from_ms: u64,
    r: Result<Option<u64>, String>,
)
    requires
        call_ensures(compute_next_run_ms, (schedule, from_ms), r),
        n <= 59,
        from_ms <= CALENDAR_LAST_MS,
        schedule.kind@ == "cron"@,
        opt_text(schedule.expr) == Some(decimal(n) + " * * * *"@),
    ensures
        r matches Ok(Some(next)) && next % 60_000 == 0 && (next as int / 60_000) % 60 == n && from_ms
            < next <= from_ms + 3_600_000,
{
    lemma_kinds();
    lemma_minute_value_field(n);
    lemma_field_and_stars(decimal(n));
    let minute = from_ms as int / 60_000;
    let then_minute = r->Ok_0->0 as int / 60_000;
    law_cron_runs_within_the_hour(MinuteMatchMode::Exact(n as u32), minute, then_minute);
}

/// A job with the expression `* * * * *` runs at the start of the next minute.
pub proof fn law_every_minute(schedule: &CronSchedule, from_ms: u64, r: Result<Option<u64>, String>)
    requires
        call_ensures(compute_next_run_ms, (schedule, from_ms), r),
        from_ms <= CALENDAR_LAST_MS,
        schedule.kind@ == "cron"@,
        opt_text(schedule.expr) == Some("*"@ + " * * * *"@),
    ensures
        r matches Ok(Some(next)) && next == (from_ms / 60_000 + 1) * 60_000,
{
    lemma_kinds();
    reveal_strlit("*");
    lemma_field_and_stars("*"@);
    let minute = from_ms as int / 60_000;
    let then_minute = r->Ok_0->0 as int / 60_000;
    if then_minute > minute + 1 {
        assert(!minute_matches(MinuteMatchMode::Any, (minute + 1) % 60));
    }
}

/// A field of seconds before the others makes no difference.
pub proof fn law_seconds_make_no_difference(seconds: Seq<char>, field: Seq<char>)
    requires
        seconds.len() > 0,
        field.len() > 0,
        forall|k: int| 0 <= k < seconds.len() ==> !is_white_space(#[trigger] seconds[k]),
        forall|k: int| 0 <= k < field.len() ==> !is_white_space(#[trigger] field[k]),
    ensures
        expression(seconds + (seq![' '] + (field + " * * * *"@))) == expression(field + " * * * *"@),
{
    let tail = field + " * * * *"@;
    let gap = seq![' '] + tail;
    lemma_four_stars(field);
    lemma_first_word(seconds, gap);
    lemma_words_of_space(gap);
    assert(gap.skip(1) =~= tail);
}

/// A job of a fixed time runs at that time while it is to come, and never again then.
pub proof fn law_fixed_times(
    schedule: &CronSchedule,
    from_ms: u64,
    at: Seq<char>,
    ms: i64,
    r: Result<Option<u64>, String>,
)
    requires
        call_ensures(compute_next_run_ms, (schedule, from_ms), r),
        schedule.kind@ == "at"@,
        opt_text(schedule.at) == Some(at),
        at.len() > 0 && !is_white_space(at[0]) && !is_white_space(at.last()),
        rfc3339_read(at) == Ok::<i64, Seq<char>>(ms),
        ms >= 0,
    ensures
        ms > from_ms ==> r == Ok::<Option<u64>, String>(Some(ms as u64)),
        ms <= from_ms ==> r == Ok::<Option<u64>, String>(None),
{
    crate::text::lemma_trim_both_fixed(at, |c: char| is_white_space(c));
}

/// A job of an interval runs at its anchor while that is to come, and otherwise a whole number of
/// intervals after the anchor, within one interval from now; without an anchor one interval from
/// now. No time is beyond the largest number.
pub proof fn law_intervals(
    schedule: &CronSchedule,
    every: u64,
    from_ms: u64,
    r: Result<Option<u64>, String>,
)
    requires
        call_ensures(compute_next_run_ms, (schedule, from_ms), r),
        schedule.kind@ == "every"@,
        schedule.every_ms == Some(every),
        every > 0,
    ensures
        r matches Ok(Some(next)) && match schedule.anchor_ms {
            None => next == from_ms + every || (next == u64::MAX && from_ms + every > u64::MAX),
            Some(anchor) => if from_ms < anchor {
                next == anchor
            } else {
                next == u64::MAX || (from_ms < next <= from_ms + every && (next - anchor) % (
                every as int) == 0)
            },
        },
        r matches Ok(Some(next)) && (next == u64::MAX ==> schedule.anchor_ms == Some(u64::MAX)
            || from_ms + every >= u64::MAX),
{
    lemma_kinds();
    if let Some(anchor) = schedule.anchor_ms {
        if from_ms >= anchor {
            law_interval_is_aligned(every, anchor, from_ms);
        }
    }
}

/// The kinds of schedules differ.
proof fn lemma_kinds()
    ensures
        "cron"@ != "at"@,
        "cron"@ != "every"@,
        "every"@ != "at"@,
{
    reveal_strlit("cron");
    reveal_strlit("at");
    reveal_strlit("every");
    assert("cron"@.len() == 4 && "at"@.len() == 2 && "every"@.len() == 5);
}

} // verus!
