use codex_update::account_list::account_summary_lines;
use codex_update::account_list::formatted_reset;
use codex_update::account_list::rate_limit_summary;
use codex_update::account_list::reset_duration_label;
use codex_update::account_list::window_summary;
use codex_update::account_list::AuthMode;
use codex_update::account_list::RateLimitSnapshot;
use codex_update::account_list::RateLimitWindow;
use codex_update::account_list::StoredAccount;

fn window(used_percent: i32, resets_at: Option<i64>) -> RateLimitWindow {
    RateLimitWindow {
        used_percent,
        window_duration_mins: Some(300),
        resets_at,
    }
}

#[test]
fn account_summary_includes_active_rate_limits() {
    let account = StoredAccount {
        account_id: "acct-1".to_string(),
        label: "Work".to_string(),
        auth_mode: AuthMode::Chatgpt,
        email: Some("work@example.com".to_string()),
        active: true,
        rate_limits: Some(RateLimitSnapshot {
            limit_id: Some("codex".to_string()),
            limit_name: Some("Codex".to_string()),
            primary: Some(RateLimitWindow {
                used_percent: 42,
                window_duration_mins: Some(300),
                resets_at: None,
            }),
            secondary: Some(RateLimitWindow {
                used_percent: 88,
                window_duration_mins: Some(10080),
                resets_at: None,
            }),
        }),
    };

    let captured_at: i64 = 1_700_000_000;
    let (title, details) = account_summary_lines(&account, captured_at);

    assert_eq!(title, "* acct-1 [Chatgpt] work@example.com");
    assert_eq!(details, Some("5h 58% left; weekly 12% left".to_string()));
}

#[test]
fn inactive_account_without_limits_has_one_line() {
    let account = StoredAccount {
        account_id: "acct-2".to_string(),
        label: "Personal".to_string(),
        auth_mode: AuthMode::ApiKey,
        email: None,
        active: false,
        rate_limits: None,
    };
    let (title, details) = account_summary_lines(&account, 1_700_000_000);
    assert_eq!(title, "  acct-2 [ApiKey] Personal");
    assert_eq!(details, None);
}

#[test]
fn active_account_without_limits_notes_missing_usage() {
    let account = StoredAccount {
        account_id: "acct-3".to_string(),
        label: "Team".to_string(),
        auth_mode: AuthMode::ApiKey,
        email: None,
        active: true,
        rate_limits: Some(RateLimitSnapshot {
            limit_id: None,
            limit_name: None,
            primary: None,
            secondary: None,
        }),
    };
    let (title, details) = account_summary_lines(&account, 1_700_000_000);
    assert_eq!(title, "* acct-3 [ApiKey] Team");
    assert_eq!(details, Some("Usage stats unavailable.".to_string()));
}

#[test]
fn reset_labels_use_two_largest_units() {
    let now: i64 = 1_700_000_000;
    assert_eq!(reset_duration_label(now, now), "now");
    assert_eq!(reset_duration_label(now - 30, now), "now");
    assert_eq!(reset_duration_label(now + 1, now), "1m");
    assert_eq!(reset_duration_label(now + 60, now), "1m");
    assert_eq!(reset_duration_label(now + 61, now), "2m");
    assert_eq!(reset_duration_label(now + 59 * 60 + 1, now), "1h");
    assert_eq!(reset_duration_label(now + 2 * 3600 + 5 * 60, now), "2h 5m");
    assert_eq!(reset_duration_label(now + 3 * 86400, now), "3d");
    assert_eq!(reset_duration_label(now + 86400 + 2 * 3600 + 1, now), "1d 2h");
    assert_eq!(reset_duration_label(i64::MAX, i64::MIN), "106751991167300d 15h");
}

#[test]
fn window_summary_clamps_and_shows_reset() {
    let now: i64 = 1_700_000_000;
    assert_eq!(window_summary("5h", &window(42, None), now), "5h 58% left");
    assert_eq!(window_summary("5h", &window(130, None), now), "5h 0% left");
    assert_eq!(window_summary("weekly", &window(-20, None), now), "weekly 100% left");
    assert_eq!(
        window_summary("5h", &window(10, Some(now + 90)), now),
        "5h 90% left (resets 2m)"
    );
    assert_eq!(
        window_summary("weekly", &window(50, Some(now - 5)), now),
        "weekly 50% left (resets now)"
    );
}

#[test]
fn unrepresentable_reset_time_is_left_out() {
    let now: i64 = 1_700_000_000;
    assert_eq!(formatted_reset(&window(0, Some(i64::MAX)), now), None);
    assert_eq!(formatted_reset(&window(0, None), now), None);
    assert_eq!(
        formatted_reset(&window(0, Some(now + 3600)), now),
        Some("1h".to_string())
    );
    assert_eq!(window_summary("5h", &window(1, Some(i64::MIN)), now), "5h 99% left");
    assert_eq!(
        formatted_reset(&window(0, Some(8_210_266_876_799)), 8_210_266_876_799),
        Some("now".to_string())
    );
    assert_eq!(formatted_reset(&window(0, Some(8_210_266_876_800)), now), None);
    assert_eq!(
        formatted_reset(&window(0, Some(-8_334_601_228_800)), -8_334_601_228_800),
        Some("now".to_string())
    );
    assert_eq!(formatted_reset(&window(0, Some(-8_334_601_228_801)), now), None);
}

#[test]
fn rate_limit_summary_joins_present_windows() {
    let now: i64 = 1_700_000_000;
    let only_weekly = RateLimitSnapshot {
        limit_id: None,
        limit_name: None,
        primary: None,
        secondary: Some(window(25, Some(now + 2 * 86400))),
    };
    assert_eq!(
        rate_limit_summary(&only_weekly, now),
        Some("weekly 75% left (resets 2d)".to_string())
    );
    let only_short = RateLimitSnapshot {
        limit_id: None,
        limit_name: None,
        primary: Some(window(0, None)),
        secondary: None,
    };
    assert_eq!(rate_limit_summary(&only_short, now), Some("5h 100% left".to_string()));
    let none = RateLimitSnapshot {
        limit_id: None,
        limit_name: None,
        primary: None,
        secondary: None,
    };
    assert_eq!(rate_limit_summary(&none, now), None);
}
