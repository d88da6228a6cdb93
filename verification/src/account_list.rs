//! One- or two-line summaries of a stored account: who it is, how it signs
//! in, and how much of its usage limits is left.

use vstd::prelude::*;
use crate::text::{decimal, push_decimal};

verus! {

/// How an account signs in.
#[derive(Debug, Clone, Copy, PartialEq, Eq, Structural)]
pub enum AuthMode {
    ApiKey,
    Chatgpt,
}

/// The name under which a sign-in mode is shown.
pub open spec fn auth_mode_text(mode: AuthMode) -> Seq<char> {
    match mode {
        AuthMode::ApiKey => "ApiKey"@,
        AuthMode::Chatgpt => "Chatgpt"@,
    }
}

impl AuthMode {
    /// The name under which this sign-in mode is shown.
    pub fn label(self) -> (s: &'static str)
        ensures
            s@ == auth_mode_text(self),
    {
        match self {
            AuthMode::ApiKey => "ApiKey",
            AuthMode::Chatgpt => "Chatgpt",
        }
    }
}

/// One usage-limit window: the share used so far, its length, and when it
/// resets (seconds since the Unix epoch).
#[derive(Debug, Clone, Copy, PartialEq, Eq, Structural)]
pub struct RateLimitWindow {
    pub used_percent: i32,
    pub window_duration_mins: Option<i64>,
    pub resets_at: Option<i64>,
}

/// The usage limits of an account: a short (five-hour) window and a weekly one.
#[derive(Debug, Clone, PartialEq, Eq)]
pub struct RateLimitSnapshot {
    pub limit_id: Option<String>,
    pub limit_name: Option<String>,
    pub primary: Option<RateLimitWindow>,
    pub secondary: Option<RateLimitWindow>,
}

/// An account as it is stored.
#[derive(Debug, Clone, PartialEq, Eq)]
pub struct StoredAccount {
    pub account_id: String,
    pub label: String,
    pub auth_mode: AuthMode,
    pub email: Option<String>,
    pub active: bool,
    pub rate_limits: Option<RateLimitSnapshot>,
}

/// Time left until a reset, `seconds` from now, in its largest two units:
/// `now` when the reset is due, otherwise whole minutes rounded up, then
/// hours and minutes, then days and hours, leaving out a zero second unit.
pub open spec fn reset_label(seconds: int) -> Seq<char> {
    if seconds <= 0 {
        "now"@
    } else {
        let minutes = (seconds + 59) / 60;
        if minutes < 60 {
            decimal(minutes as nat) + "m"@
        } else {
            let hours = minutes / 60;
            let rem_minutes = minutes % 60;
            if hours < 24 {
                if rem_minutes == 0 {
                    decimal(hours as nat) + "h"@
                } else {
                    decimal(hours as nat) + "h "@ + decimal(rem_minutes as nat) + "m"@
                }
            } else {
                let days = hours / 24;
                let rem_hours = hours % 24;
                if rem_hours == 0 {
                    decimal(days as nat) + "d"@
                } else {
                    decimal(days as nat) + "d "@ + decimal(rem_hours as nat) + "h"@
                }
            }
        }
    }
}

/// `x` held within the range of `i64`, as a saturating `i64` operation gives it.
pub open spec fn saturate_i64(x: int) -> int {
    if x > i64::MAX {
        i64::MAX as int
    } else if x < i64::MIN {
        i64::MIN as int
    } else {
        x
    }
}

/// The time left from `captured_at` until `reset_at` (both seconds since
/// the Unix epoch), as `reset_label` spells it.
pub fn reset_duration_label(reset_at: i64, captured_at: i64) -> (label: String)
    ensures
        label@ == reset_label(saturate_i64(reset_at - captured_at)),
{
    let diff: i128 = reset_at as i128 - captured_at as i128;
    if diff <= 0 {
        return String::from_str("now");
    }
    let seconds: u64 = if diff > i64::MAX as i128 {
        i64::MAX as u64
    } else {
        diff as u64
    };
    assert(seconds as int == saturate_i64(reset_at - captured_at));
    let minutes: u64 = seconds / 60 + if seconds % 60 != 0 {
        1
    } else {
        0
    };
    assert(minutes as int == (seconds + 59) / 60);
    let mut label = String::new();
    if minutes < 60 {
        push_decimal(&mut label, minutes);
        label.append("m");
        return label;
    }
    let hours = minutes / 60;
    let remaining_minutes = minutes % 60;
    if hours < 24 {
        push_decimal(&mut label, hours);
        if remaining_minutes == 0 {
            label.append("h");
        } else {
            label.append("h ");
            push_decimal(&mut label, remaining_minutes);
            label.append("m");
        }
        return label;
    }
    let days = hours / 24;
    let remaining_hours = hours % 24;
    push_decimal(&mut label, days);
    if remaining_hours == 0 {
        label.append("d");
    } else {
        label.append("d ");
        push_decimal(&mut label, remaining_hours);
        label.append("h");
    }
    label
}

/// Whether `secs` (seconds since the Unix epoch) falls within chrono's
/// representable range: from 1 January of year -262143 (`NaiveDate::MIN`),
/// 00:00:00 UTC, to 31 December of year 262142 (`NaiveDate::MAX`),
/// 23:59:59 UTC.
pub open spec fn utc_seconds_representable(secs: int) -> bool {
    -8_334_601_228_800 <= secs <= 8_210_266_876_799
}

/// Calls `chrono::DateTime::<Utc>::from_timestamp(secs, 0)` and reads the
/// date back with `DateTime::timestamp`. It yields a value exactly when the
/// date lies within chrono's range, and that value is `secs` again (chrono
/// documents that the two round-trip).
#[verifier::external_body]
fn utc_timestamp_checked(secs: i64) -> (t: Option<i64>)
    ensures
        t is Some <==> utc_seconds_representable(secs as int),
        t matches Some(x) ==> x == secs,
{
    match chrono::DateTime::<chrono::Utc>::from_timestamp(secs, 0) {
        Some(dt) => Some(dt.timestamp()),
        None => None,
    }
}

/// The time-to-reset text of a window, when it has a representable reset time.
pub open spec fn reset_text(window: RateLimitWindow, captured_at: i64) -> Option<Seq<char>> {
    match window.resets_at {
        Some(secs) => if utc_seconds_representable(secs as int) {
            Some(reset_label(saturate_i64(secs - captured_at)))
        } else {
            None
        },
        None => None,
    }
}

/// The time left until `window` resets, seen at `captured_at`.
pub fn formatted_reset(window: &RateLimitWindow, captured_at: i64) -> (text: Option<String>)
    ensures
        text.deep_view() == reset_text(*window, captured_at),
{
    match window.resets_at {
        Some(secs) => match utc_timestamp_checked(secs) {
            Some(reset_at) => Some(reset_duration_label(reset_at, captured_at)),
            None => None,
        },
        None => None,
    }
}

/// The share of a window that is left, in percent, held within 0..=100.
pub open spec fn percent_left(used_percent: i32) -> int {
    let left = 100 - used_percent;
    if left < 0 {
        0
    } else if left > 100 {
        100
    } else {
        left
    }
}

/// `{label} {left}% left`, followed by ` (resets {when})` when the window
/// has a representable reset time.
pub open spec fn window_text(label: Seq<char>, window: RateLimitWindow, captured_at: i64) -> Seq<
    char,
> {
    label + " "@ + decimal(percent_left(window.used_percent) as nat) + "% left"@ + match reset_text(
        window,
        captured_at,
    ) {
        Some(when) => " (resets "@ + when + ")"@,
        None => Seq::empty(),
    }
}

/// One window's line: its label, the share left and when it resets.
pub fn window_summary(label: &str, window: &RateLimitWindow, captured_at: i64) -> (summary: String)
    ensures
        summary@ == window_text(label@, *window, captured_at),
{
    let used = window.used_percent as i64;
    let left: i64 = if 100 - used < 0 {
        0
    } else if 100 - used > 100 {
        100
    } else {
        100 - used
    };
    let mut summary = String::from_str(label);
    summary.append(" ");
    push_decimal(&mut summary, left as u64);
    summary.append("% left");
    let ghost before = summary@;
    match formatted_reset(window, captured_at) {
        Some(when) => {
            summary.append(" (resets ");
            summary.append(when.as_str());
            summary.append(")");
        },
        None => {
            assert(summary@ =~= before + Seq::<char>::empty());
        },
    }
    summary
}

/// The summary of both windows: the five-hour one and the weekly one, joined
/// by `; ` when both are present.
pub open spec fn rate_limit_text(snapshot: RateLimitSnapshot, captured_at: i64) -> Option<
    Seq<char>,
> {
    let primary = match snapshot.primary {
        Some(w) => Some(window_text("5h"@, w, captured_at)),
        None => None::<Seq<char>>,
    };
    let secondary = match snapshot.secondary {
        Some(w) => Some(window_text("weekly"@, w, captured_at)),
        None => None::<Seq<char>>,
    };
    match (primary, secondary) {
        (Some(p), Some(s)) => Some(p + "; "@ + s),
        (Some(p), None) => Some(p),
        (None, Some(s)) => Some(s),
        (None, None) => None,
    }
}

/// The usage summary of `snapshot` seen at `captured_at` (seconds since the
/// Unix epoch); `None` when it holds no window.
pub fn rate_limit_summary(snapshot: &RateLimitSnapshot, captured_at: i64) -> (summary: Option<
    String,
>)
    ensures
        summary.deep_view() == rate_limit_text(*snapshot, captured_at),
{
    let primary = match &snapshot.primary {
        Some(w) => Some(window_summary("5h", w, captured_at)),
        None => None,
    };
    let secondary = match &snapshot.secondary {
        Some(w) => Some(window_summary("weekly", w, captured_at)),
        None => None,
    };
    match (primary, secondary) {
        (Some(p), Some(s)) => {
            let mut both = p;
            both.append("; ");
            both.append(s.as_str());
            Some(both)
        },
        (Some(p), None) => Some(p),
        (None, Some(s)) => Some(s),
        (None, None) => None,
    }
}

/// The name shown for an account: its e-mail address when known, otherwise
/// its label.
pub open spec fn shown_name(account: StoredAccount) -> Seq<char> {
    match account.email {
        Some(email) => email@,
        None => account.label@,
    }
}

/// `{*| } {id} [{mode}] {name}`: a star marks the active account.
pub open spec fn title_text(account: StoredAccount) -> Seq<char> {
    (if account.active {
        "*"@
    } else {
        " "@
    }) + " "@ + account.account_id@ + " ["@ + auth_mode_text(account.auth_mode) + "] "@
        + shown_name(account)
}

/// The second line: the usage summary when there is one, otherwise, for the
/// active account only, a note that usage is unknown.
pub open spec fn details_text(account: StoredAccount, captured_at: i64) -> Option<Seq<char>> {
    let usage = match account.rate_limits {
        Some(snapshot) => rate_limit_text(snapshot, captured_at),
        None => None,
    };
    match usage {
        Some(u) => Some(u),
        None => if account.active {
            Some("Usage stats unavailable."@)
        } else {
            None
        },
    }
}

/// The title line of an account and its details line, the usage seen at
/// `captured_at` (seconds since the Unix epoch).
pub fn account_summary_lines(account: &StoredAccount, captured_at: i64) -> (lines: (
    String,
    Option<String>,
))
    ensures
        lines.0@ == title_text(*account),
        lines.1.deep_view() == details_text(*account, captured_at),
{
    let mut title = String::from_str(if account.active {
        "*"
    } else {
        " "
    });
    title.append(" ");
    title.append(account.account_id.as_str());
    title.append(" [");
    title.append(account.auth_mode.label());
    title.append("] ");
    match &account.email {
        Some(email) => title.append(email.as_str()),
        None => title.append(account.label.as_str()),
    }
    let usage = match &account.rate_limits {
        Some(snapshot) => rate_limit_summary(snapshot, captured_at),
        None => None,
    };
    let details = match usage {
        Some(u) => Some(u),
        None => if account.active {
            Some(String::from_str("Usage stats unavailable."))
        } else {
            None
        },
    };
    (title, details)
}

/// The time left is spelled `now` exactly when the reset is not later than
/// the moment the summary is taken.
pub proof fn lemma_reset_label_now_iff_due(seconds: int)
    ensures
        (reset_label(seconds) == "now"@) <==> seconds <= 0,
{
    reveal_strlit("now");
    reveal_strlit("m");
    reveal_strlit("h");
    reveal_strlit("d");
    let label = reset_label(seconds);
    if seconds > 0 {
        assert(label.last() == 'm' || label.last() == 'h' || label.last() == 'd');
        assert(label != "now"@) by {
            if label == "now"@ {
                assert(label.last() == 'w');
            }
        }
    }
}

/// A usage summary is given exactly when the snapshot holds a window.
pub proof fn lemma_rate_limit_summary_present_iff_window(snapshot: RateLimitSnapshot, captured_at: i64)
    ensures
        rate_limit_text(snapshot, captured_at) is Some <==> (snapshot.primary is Some
            || snapshot.secondary is Some),
{
}

/// An account has a details line exactly when it is the active one or a
/// usage summary is known for it.
pub proof fn lemma_details_present_iff_active_or_usage(account: StoredAccount, captured_at: i64)
    ensures
        details_text(account, captured_at) is Some <==> (account.active || (account.rate_limits
            matches Some(snapshot) && rate_limit_text(snapshot, captured_at) is Some)),
{
}

/// How the time left is spelled, in terms of the whole minutes left
/// `m` (the seconds left rounded up): below an hour `{m}m`; below a day
/// `{h}h` or `{h}h {min}m`, with `h` full hours (always below 24) and `min`
/// the minutes beyond them; from a full day on `{d}d` or `{d}d {h}h`, with
/// `d` full days and `h` the full hours beyond them.
pub proof fn lemma_reset_label_units(seconds: int)
    requires
        seconds > 0,
    ensures
        ({
            let m = (seconds + 59) / 60;
            let days = m / 1440;
            let hours_past_day = (m % 1440) / 60;
            let hours = m / 60;
            let minutes_past_hour = m % 60;
            &&& m < 60 ==> reset_label(seconds) == decimal(m as nat) + "m"@
            &&& 60 <= m < 1440 ==> hours < 24 && reset_label(seconds) == if minutes_past_hour
                == 0 {
                decimal(hours as nat) + "h"@
            } else {
                decimal(hours as nat) + "h "@ + decimal(minutes_past_hour as nat) + "m"@
            }
            &&& m >= 1440 ==> days >= 1 && hours_past_day < 24 && reset_label(seconds) == if hours_past_day
                == 0 {
                decimal(days as nat) + "d"@
            } else {
                decimal(days as nat) + "d "@ + decimal(hours_past_day as nat) + "h"@
            }
        }),
{
    let m = (seconds + 59) / 60;
    assert(m >= 1);
    let q = m / 1440;
    let r = m % 1440;
    assert(m == 1440 * q + r && 0 <= r < 1440);
    assert(m / 60 == 24 * q + r / 60) by (nonlinear_arith)
        requires
            m == 1440 * q + r,
            0 <= r < 1440,
    ;
    assert((m / 60) / 24 == q);
    assert((m / 60) % 24 == r / 60);
}

/// The title line names the account's e-mail address whenever it has one
/// and its label only when it has none, whether or not the account is
/// active; only the leading mark depends on that.
pub proof fn lemma_title_names_email_or_label(account: StoredAccount)
    ensures
        title_text(account) == (if account.active {
            "*"@
        } else {
            " "@
        }) + " "@ + account.account_id@ + " ["@ + auth_mode_text(account.auth_mode) + "] "@
            + match account.email {
            Some(email) => email@,
            None => account.label@,
        },
        title_text(account).skip(1) == title_text(
            StoredAccount { active: !account.active, ..account },
        ).skip(1),
{
    reveal_strlit("*");
    reveal_strlit(" ");
    let flipped = StoredAccount { active: !account.active, ..account };
    let rest = " "@ + account.account_id@ + " ["@ + auth_mode_text(account.auth_mode) + "] "@
        + shown_name(account);
    assert(title_text(account) =~= (if account.active {
        "*"@
    } else {
        " "@
    }) + rest);
    assert(title_text(flipped) =~= (if flipped.active {
        "*"@
    } else {
        " "@
    }) + rest);
    assert(title_text(account).skip(1) =~= rest);
    assert(title_text(flipped).skip(1) =~= rest);
}

/// One window's line spelled out: `{label} {left}% left`, then
/// ` (resets {when})` exactly when the window has a reset time that chrono
/// can represent.
pub proof fn lemma_window_line(label: Seq<char>, window: RateLimitWindow, captured_at: i64)
    ensures
        window.resets_at is Some && utc_seconds_representable(window.resets_at->0 as int)
            ==> window_text(label, window, captured_at) == label + " "@ + decimal(
            percent_left(window.used_percent) as nat,
        ) + "% left"@ + " (resets "@ + reset_label(
            saturate_i64(window.resets_at->0 - captured_at),
        ) + ")"@,
        !(window.resets_at is Some && utc_seconds_representable(window.resets_at->0 as int))
            ==> window_text(label, window, captured_at) == label + " "@ + decimal(
            percent_left(window.used_percent) as nat,
        ) + "% left"@,
{
    let head = label + " "@ + decimal(percent_left(window.used_percent) as nat) + "% left"@;
    if !(window.resets_at is Some && utc_seconds_representable(window.resets_at->0 as int)) {
        assert(head + Seq::<char>::empty() =~= head);
    }
}

/// The summary of a snapshot with both windows is the summary of the
/// five-hour window alone, `; `, and the summary of the weekly window alone;
/// each window's own line is kept whole, reset time included.
pub proof fn lemma_summary_joins_window_lines(snapshot: RateLimitSnapshot, captured_at: i64)
    requires
        snapshot.primary is Some,
        snapshot.secondary is Some,
    ensures
        rate_limit_text(snapshot, captured_at) == Some(
            window_text("5h"@, snapshot.primary->0, captured_at) + "; "@ + window_text(
                "weekly"@,
                snapshot.secondary->0,
                captured_at,
            ),
        ),
        rate_limit_text(snapshot, captured_at) == Some(
            rate_limit_text(RateLimitSnapshot { secondary: None, ..snapshot }, captured_at)->0
                + "; "@ + rate_limit_text(
                RateLimitSnapshot { primary: None, ..snapshot },
                captured_at,
            )->0,
        ),
{
}

} // verus!
