use sb_daily_habits::daily_habits::{
    build_create_habit_query, create_habit_request, created_from_response, day_entries_query,
    existing_ids_from_response, habit_entry_query, habit_exists_from_response, habits_to_create,
    parse_existing_habit_ids, parse_habit_exists,
};
use sb_daily_habits::error::HabitsError;
use sb_daily_habits::notion_client::{HttpMethod, NotionClient};
use serde_json::Value;

// Helper to call build_create_habit_query with fixed test values.
fn make_query() -> Value {
    let body = build_create_habit_query(
        "habit-id-123",
        "today-id-456",
        "Morning Run",
        "stats-id-789",
        "habits-db-id-abc",
    );
    serde_json::from_str(&body).expect("the body should be JSON")
}

fn client() -> NotionClient {
    NotionClient::new(
        "https://api.notion.com/v1",
        "Bearer test-token",
        "2022-06-28",
        "daily-db-id",
        "habits-master-db-id",
        "habits-db-id",
        "stats-page-id",
    )
}

#[test]
fn test_query_contains_habit_name_in_title() {
    let query = make_query();
    let content = query["properties"]["Name"]["title"][0]["text"]["content"]
        .as_str()
        .expect("title content should be a string");
    assert_eq!(content, "Morning Run");
}

#[test]
fn test_query_contains_correct_habit_relation() {
    let query = make_query();
    let id = query["properties"]["Habit"]["relation"][0]["id"]
        .as_str()
        .expect("Habit relation id should be a string");
    assert_eq!(id, "habit-id-123");
}

#[test]
fn test_query_contains_correct_day_relation() {
    let query = make_query();
    let id = query["properties"]["Day"]["relation"][0]["id"]
        .as_str()
        .expect("Day relation id should be a string");
    assert_eq!(id, "today-id-456");
}

#[test]
fn test_query_contains_correct_stats_relation() {
    let query = make_query();
    let id = query["properties"]["stats"]["relation"][0]["id"]
        .as_str()
        .expect("stats relation id should be a string");
    assert_eq!(id, "stats-id-789");
}

#[test]
fn test_query_contains_correct_parent_database() {
    let query = make_query();
    let db_id = query["parent"]["database_id"]
        .as_str()
        .expect("parent database_id should be a string");
    assert_eq!(db_id, "habits-db-id-abc");
}

#[test]
fn create_body_is_exactly_what_serde_json_writes() {
    let body = build_create_habit_query("h", "t", "Morning Run", "s", "d");
    let written_by_hand = r#"{
        "parent": { "database_id": "d" },
        "properties": {
            "Name": { "title": [ { "text": { "content": "Morning Run" } } ] },
            "Habit": { "relation": [ { "id": "h" } ] },
            "Day": { "relation": [ { "id": "t" } ] },
            "stats": { "relation": [ { "id": "s" } ] }
        }
    }"#;
    let expected: Value = serde_json::from_str(written_by_hand).unwrap();
    assert_eq!(body, expected.to_string());
}

#[test]
fn create_body_escapes_quotes_in_names() {
    let body = build_create_habit_query("h", "t", "Say \"hi\"\n", "s", "d");
    let query: Value = serde_json::from_str(&body).expect("escaped body should be JSON");
    assert_eq!(
        query["properties"]["Name"]["title"][0]["text"]["content"].as_str(),
        Some("Say \"hi\"\n")
    );
    assert!(body.contains("\\\"hi\\\""));
}

#[test]
fn control_characters_are_escaped_as_serde_json_does() {
    let body = build_create_habit_query("h", "t", "a\"b\\c\u{1}\u{8}\t\u{1f}é", "s", "d");
    assert!(body.contains(r#""content":"a\"b\\c\u0001\b\t\u001fé""#));
}

#[test]
fn create_request_goes_to_pages_with_client_ids() {
    let req = create_habit_request(&client(), "habit-id", "today-id", "Morning Run");
    assert_eq!(req.url, "https://api.notion.com/v1/pages");
    assert_eq!(req.method, HttpMethod::Post);
    assert_eq!(
        req.headers,
        vec![
            ("Authorization".to_string(), "Bearer test-token".to_string()),
            ("Notion-Version".to_string(), "2022-06-28".to_string()),
            ("Content-Type".to_string(), "application/json".to_string()),
        ]
    );
    let body: Value = serde_json::from_str(&req.body).unwrap();
    assert_eq!(body["parent"]["database_id"], "habits-db-id");
    assert_eq!(body["properties"]["stats"]["relation"][0]["id"], "stats-page-id");
    assert_eq!(body["properties"]["Habit"]["relation"][0]["id"], "habit-id");
    assert_eq!(body["properties"]["Day"]["relation"][0]["id"], "today-id");
}

#[test]
fn create_reply_status_decides() {
    assert!(created_from_response(200, "{\"id\":\"new-page-id\"}".to_string()).is_ok());
    let err = created_from_response(401, "{}".to_string()).unwrap_err();
    assert!(err.message().contains("401"));
    assert!(matches!(err, HabitsError::NotionApi { status: 401, .. }));
}

#[test]
fn habit_entry_query_filters_on_habit_and_day() {
    let req = habit_entry_query(&client(), "habit-id-123", "today-id-456");
    assert_eq!(req.url, "https://api.notion.com/v1/databases/habits-db-id/query");
    let body: Value = serde_json::from_str(&req.body).unwrap();
    assert_eq!(body["filter"]["and"][0]["property"], "Habit");
    assert_eq!(body["filter"]["and"][0]["relation"]["contains"], "habit-id-123");
    assert_eq!(body["filter"]["and"][1]["property"], "Day");
    assert_eq!(body["filter"]["and"][1]["relation"]["contains"], "today-id-456");
}

#[test]
fn habit_exists_when_entry_found() {
    let exists = parse_habit_exists(r#"{ "results": [ { "id": "existing-entry-id" } ] }"#).unwrap();
    assert!(exists, "Should return true when entry already exists");
}

#[test]
fn habit_does_not_exist_when_no_entry() {
    let exists = parse_habit_exists(r#"{ "results": [] }"#).unwrap();
    assert!(!exists, "Should return false when no entry exists");
}

#[test]
fn habit_exists_errors() {
    assert!(matches!(parse_habit_exists("{ bad json"), Err(HabitsError::Json(_))));
    assert!(matches!(parse_habit_exists(r#"{ "object": "list" }"#), Err(HabitsError::MissingResultsArray)));
    let err = habit_exists_from_response(401, String::new()).unwrap_err();
    assert!(err.message().contains("401"));
    assert_eq!(habit_exists_from_response(200, r#"{"results":[{}]}"#.to_string()).unwrap(), true);
}

#[test]
fn day_entries_query_filters_on_day() {
    let req = day_entries_query(&client(), "today-id");
    assert_eq!(req.url, "https://api.notion.com/v1/databases/habits-db-id/query");
    assert_eq!(req.body, r#"{"filter":{"property":"Day","relation":{"contains":"today-id"}}}"#);
}

#[test]
fn existing_ids_are_read_from_habit_relations() {
    let json = r#"{
        "results": [
            { "id": "e1", "properties": { "Habit": { "relation": [ { "id": "habit-1" } ] } } },
            { "id": "e2", "properties": { "Habit": { "relation": [] } } },
            { "id": "e3", "properties": { "Habit": { "relation": [ { "id": "habit-3" } ] } } }
        ]
    }"#;
    let ids = parse_existing_habit_ids(json).unwrap();
    assert_eq!(ids, vec!["habit-1".to_string(), "habit-3".to_string()]);
    assert!(matches!(parse_existing_habit_ids(r#"{"results": 3}"#), Err(HabitsError::MissingResultsArray)));
    assert!(existing_ids_from_response(500, String::new()).unwrap_err().message().contains("500"));
}

fn pair(id: &str, name: &str) -> (String, String) {
    (id.to_string(), name.to_string())
}

#[test]
fn habits_with_entries_are_skipped() {
    let habits = vec![pair("a", "A"), pair("b", "B"), pair("c", "C")];
    let existing = vec!["b".to_string()];
    assert_eq!(habits_to_create(&habits, &existing), vec![pair("a", "A"), pair("c", "C")]);
}

#[test]
fn second_run_creates_nothing() {
    let habits = vec![pair("a", "A"), pair("b", "B"), pair("c", "C")];
    let mut existing = vec!["b".to_string()];
    let first = habits_to_create(&habits, &existing);
    for (id, _) in &first {
        existing.push(id.clone());
    }
    assert!(habits_to_create(&habits, &existing).is_empty());
}

#[test]
fn every_habit_is_created_on_a_fresh_day() {
    let habits = vec![pair("a", "A"), pair("b", "B")];
    assert_eq!(habits_to_create(&habits, &Vec::new()), habits);
}
