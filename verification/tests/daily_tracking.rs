use chrono::Datelike;
use sb_daily_habits::daily_tracking::{format_date, parse_today_id, today_id_from_response, today_query};
use sb_daily_habits::error::HabitsError;
use sb_daily_habits::notion_client::{HttpMethod, NotionClient};
use serde_json::Value;

#[test]
fn test_parse_today_id_returns_first_result() {
    let json = r#"{
        "object": "list",
        "results": [
            { "id": "abc-123", "object": "page" }
        ]
    }"#;

    let id = parse_today_id(json).expect("Should parse successfully");
    assert_eq!(id, "abc-123");
}

#[test]
fn test_parse_today_id_returns_first_when_multiple_results() {
    let json = r#"{
        "results": [
            { "id": "first-id" },
            { "id": "second-id" }
        ]
    }"#;

    let id = parse_today_id(json).expect("Should parse successfully");
    assert_eq!(id, "first-id");
}

#[test]
fn test_parse_today_id_errors_on_empty_results() {
    let json = r#"{ "results": [] }"#;

    let result = parse_today_id(json);
    assert!(result.is_err());
    let err = result.unwrap_err().message();
    assert!(
        err.contains("No day entry"),
        "Error should mention missing day entry, got: {}",
        err
    );
}

#[test]
fn test_parse_today_id_errors_on_invalid_json() {
    let result = parse_today_id("not valid json {{{");
    assert!(result.is_err());
}

#[test]
fn test_date_format_shape() {
    let today = chrono::Local::now().date_naive();
    let formatted = format_date(today.year(), today.month(), today.day());
    let parts: Vec<&str> = formatted.split('-').collect();

    assert_eq!(parts.len(), 3, "Date should have 3 parts separated by '-'");
    assert_eq!(parts[0].len(), 4, "Year should be 4 digits");
    assert_eq!(parts[1].len(), 2, "Month should be 2 digits");
    assert_eq!(parts[2].len(), 2, "Day should be 2 digits");
}

#[test]
fn dates_are_written_as_chrono_writes_them() {
    assert_eq!(format_date(2024, 3, 7), "2024-03-07");
    assert_eq!(format_date(5, 12, 31), "0005-12-31");
    assert_eq!(format_date(12345, 1, 1), "+12345-01-01");
    assert_eq!(format_date(-44, 3, 15), "-0044-03-15");
}

#[test]
fn pages_must_have_string_ids() {
    assert!(matches!(parse_today_id(r#"{ "results": [ { "id": "a" }, { "name": "b" } ] }"#), Err(HabitsError::Json(_))));
    assert!(matches!(parse_today_id(r#"{ "results": [ { "id": 7 } ] }"#), Err(HabitsError::Json(_))));
    assert!(matches!(parse_today_id(r#"{ "object": "list" }"#), Err(HabitsError::MissingResultsArray)));
    assert!(matches!(parse_today_id(r#"{ "results": {} }"#), Err(HabitsError::MissingResultsArray)));
    let err = parse_today_id(r#"{ "object": "list" }"#).unwrap_err();
    assert!(err.message().contains("results"));
    assert_eq!(parse_today_id(r#"[[["array-form-id"]]]"#).unwrap(), "array-form-id");
}

#[test]
fn today_query_filters_on_creation_date() {
    let client = NotionClient::new("http://x", "t", "v", "daily-db-id", "m", "h", "s");
    let req = today_query(&client, "2024-03-07");
    assert_eq!(req.url, "http://x/databases/daily-db-id/query");
    assert_eq!(req.method, HttpMethod::Post);
    assert_eq!(
        req.headers,
        vec![
            ("Authorization".to_string(), "t".to_string()),
            ("Notion-Version".to_string(), "v".to_string()),
            ("Content-Type".to_string(), "application/json".to_string()),
        ]
    );
    let body: Value = serde_json::from_str(&req.body).unwrap();
    assert_eq!(body["filter"]["and"][0]["timestamp"], "created_time");
    assert_eq!(body["filter"]["and"][0]["created_time"]["equals"], "2024-03-07");
    assert_eq!(body["sorts"][0]["property"], "Date");
    assert_eq!(body["sorts"][0]["direction"], "descending");
}

#[test]
fn today_reply_status_decides() {
    let bad = today_id_from_response(200, "not valid json {{{".to_string()).unwrap_err();
    let direct = parse_today_id("not valid json {{{").unwrap_err();
    assert_eq!(bad.message(), direct.message());
    assert!(bad.message().starts_with("JSON parse error: "));
    let ok = today_id_from_response(200, r#"{"results":[{"id":"today-page-id-abc"}]}"#.to_string());
    assert_eq!(ok.unwrap(), "today-page-id-abc");
    let err = today_id_from_response(401, r#"{"message":"API token is invalid."}"#.to_string()).unwrap_err();
    assert!(err.message().contains("401"));
    let empty = today_id_from_response(200, r#"{"results":[]}"#.to_string()).unwrap_err();
    assert!(empty.message().contains("No day entry"));
}
