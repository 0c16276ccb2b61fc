use sb_daily_habits::error::{check_response, HabitsError};
use sb_daily_habits::notion_client::{create_page_url, query_url, NotionClient};
use sb_daily_habits::retry::{with_retry, RetryRun};

fn http(timeout: bool, connect: bool) -> HabitsError {
    HabitsError::Http { message: "boom".to_string(), timeout, connect }
}

#[test]
fn messages_name_the_failure() {
    let api = HabitsError::NotionApi { status: 401, body: "{\"message\":\"API token is invalid.\"}".to_string() };
    assert_eq!(api.message(), "Notion API error 401: {\"message\":\"API token is invalid.\"}");
    assert_eq!(
        HabitsError::NoDayEntry.message(),
        "No day entry found in Notion for today. Did you create today's page?"
    );
    assert_eq!(HabitsError::MissingResultsArray.message(), "Notion response missing 'results' array");
    assert_eq!(http(true, false).message(), "HTTP request failed: boom");
    assert_eq!(HabitsError::Json("bad".to_string()).message(), "JSON parse error: bad");
    assert_eq!(HabitsError::Config("gone".to_string()).message(), "Failed to load configuration: gone");
    assert_eq!(HabitsError::NotionApi { status: 0, body: String::new() }.message(), "Notion API error 0: ");
    assert_eq!(HabitsError::NotionApi { status: 65535, body: "x".to_string() }.message(), "Notion API error 65535: x");
}

#[test]
fn only_2xx_statuses_succeed() {
    assert_eq!(check_response(200, "a".to_string()).unwrap(), "a");
    assert_eq!(check_response(299, "b".to_string()).unwrap(), "b");
    assert!(matches!(check_response(199, String::new()), Err(HabitsError::NotionApi { status: 199, .. })));
    assert!(matches!(check_response(300, String::new()), Err(HabitsError::NotionApi { status: 300, .. })));
    assert!(matches!(check_response(404, String::new()), Err(HabitsError::NotionApi { status: 404, .. })));
}

#[test]
fn transient_failures_are_retried_three_times() {
    let mut run = RetryRun::new();
    assert_eq!(run.after_failure(&http(true, false)), Some(2));
    assert_eq!(run.after_failure(&http(false, true)), Some(5));
    assert_eq!(run.after_failure(&http(true, true)), Some(10));
    assert_eq!(run.after_failure(&http(true, false)), None);
}

#[test]
fn permanent_failures_are_not_retried() {
    let mut run = RetryRun::new();
    assert_eq!(run.after_failure(&http(false, false)), None);
    assert_eq!(run.after_failure(&HabitsError::NoDayEntry), None);
    assert_eq!(run.after_failure(&HabitsError::NotionApi { status: 500, body: String::new() }), None);
    assert!(!HabitsError::Json(String::new()).is_retryable());
    assert!(http(false, true).is_retryable());
}

#[test]
fn client_keeps_what_it_was_given() {
    let c = NotionClient::new("u", "t", "v", "d", "m", "h", "s");
    assert_eq!(c.base_url, "u");
    assert_eq!(c.token, "t");
    assert_eq!(c.version, "v");
    assert_eq!(c.daily_database_id, "d");
    assert_eq!(c.habits_master_database_id, "m");
    assert_eq!(c.habits_database_id, "h");
    assert_eq!(c.daily_stats_page_id, "s");
    assert_eq!(query_url("https://api.notion.com/v1", "db"), "https://api.notion.com/v1/databases/db/query");
    assert_eq!(create_page_url("https://api.notion.com/v1"), "https://api.notion.com/v1/pages");
}

// The state threaded through a retried run: the outcomes still to come, the
// number of calls made and the waits asked for.
struct Script {
    outcomes: Vec<Result<u32, HabitsError>>,
    calls: usize,
    waits: Vec<u64>,
}

// Runs `with_retry` over the given outcomes, one per call; returns the result,
// the number of calls and the waits.
fn run_with(outcomes: Vec<Result<u32, HabitsError>>) -> (Result<u32, HabitsError>, usize, Vec<u64>) {
    let f = |mut s: Script| {
        s.calls += 1;
        let outcome = s.outcomes.remove(0);
        (s, outcome)
    };
    let wait = |mut s: Script, secs: u64| {
        s.waits.push(secs);
        s
    };
    let (end, r) = with_retry(Script { outcomes, calls: 0, waits: Vec::new() }, &f, &wait);
    (r, end.calls, end.waits)
}

#[test]
fn retry_stops_at_first_success() {
    let (r, calls, waits) = run_with(vec![Err(http(true, false)), Ok(7)]);
    assert_eq!(r.unwrap(), 7);
    assert_eq!(calls, 2);
    assert_eq!(waits, vec![2]);
}

#[test]
fn retry_stops_at_first_permanent_failure() {
    let (r, calls, waits) = run_with(vec![Err(http(false, true)), Err(HabitsError::NoDayEntry), Ok(1)]);
    assert!(matches!(r, Err(HabitsError::NoDayEntry)));
    assert_eq!(calls, 2);
    assert_eq!(waits, vec![2]);
}

#[test]
fn retry_gives_up_after_the_fourth_attempt() {
    let (r, calls, waits) = run_with(vec![
        Err(http(true, false)),
        Err(http(true, false)),
        Err(http(true, false)),
        Err(http(false, true)),
        Ok(1),
    ]);
    assert!(matches!(r, Err(HabitsError::Http { connect: true, .. })));
    assert_eq!(calls, 4);
    assert_eq!(waits, vec![2, 5, 10]);
}

#[test]
fn retry_returns_immediate_success() {
    let (r, calls, waits) = run_with(vec![Ok(3)]);
    assert_eq!(r.unwrap(), 3);
    assert_eq!(calls, 1);
    assert!(waits.is_empty());
}
