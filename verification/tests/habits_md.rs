use sb_daily_habits::error::HabitsError;
use sb_daily_habits::habits_md::{active_habits_query, habits_from_response, parse_habits_response};
use sb_daily_habits::notion_client::NotionClient;

#[test]
fn test_parse_habits_returns_id_and_name() {
    let json = r#"{
        "results": [
            {
                "id": "habit-uuid-1",
                "properties": {
                    "Name": {
                        "title": [
                            { "plain_text": "Morning Run" }
                        ]
                    }
                }
            }
        ]
    }"#;

    let habits = parse_habits_response(json).expect("Should parse successfully");
    assert_eq!(habits.len(), 1);
    assert_eq!(habits[0].0, "habit-uuid-1");
    assert_eq!(habits[0].1, "Morning Run");
}

#[test]
fn test_parse_habits_returns_multiple_habits() {
    let json = r#"{
        "results": [
            {
                "id": "id-1",
                "properties": { "Name": { "title": [{ "plain_text": "Habit A" }] } }
            },
            {
                "id": "id-2",
                "properties": { "Name": { "title": [{ "plain_text": "Habit B" }] } }
            }
        ]
    }"#;

    let habits = parse_habits_response(json).expect("Should parse successfully");
    assert_eq!(habits.len(), 2);
    assert_eq!(habits[0], ("id-1".to_string(), "Habit A".to_string()));
    assert_eq!(habits[1], ("id-2".to_string(), "Habit B".to_string()));
}

#[test]
fn test_parse_habits_skips_entries_without_name() {
    let json = r#"{
        "results": [
            {
                "id": "id-good",
                "properties": { "Name": { "title": [{ "plain_text": "Good Habit" }] } }
            },
            {
                "id": "id-bad",
                "properties": { "Name": { "title": [] } }
            }
        ]
    }"#;

    let habits = parse_habits_response(json).expect("Should parse successfully");
    assert_eq!(habits.len(), 1);
    assert_eq!(habits[0].1, "Good Habit");
}

#[test]
fn test_parse_habits_returns_empty_vec_on_empty_results() {
    let json = r#"{ "results": [] }"#;

    let habits = parse_habits_response(json).expect("Should parse successfully");
    assert!(habits.is_empty());
}

#[test]
fn test_parse_habits_errors_on_missing_results_key() {
    let json = r#"{ "object": "list" }"#;

    let result = parse_habits_response(json);
    assert!(result.is_err());
    let err = result.unwrap_err().message();
    assert!(
        err.contains("results"),
        "Error should mention 'results', got: {}",
        err
    );
}

#[test]
fn test_parse_habits_errors_on_invalid_json() {
    let result = parse_habits_response("{ bad json");
    assert!(result.is_err());
}

#[test]
fn habits_without_string_ids_are_skipped() {
    let json = r#"{
        "results": [
            { "id": 5, "properties": { "Name": { "title": [{ "plain_text": "Numbered" }] } } },
            { "properties": { "Name": { "title": [{ "plain_text": "No id" }] } } },
            { "id": "id-3", "properties": { "Name": { "title": [{ "plain_text": "Kept" }, { "plain_text": "Second" }] } } }
        ]
    }"#;
    let habits = parse_habits_response(json).unwrap();
    assert_eq!(habits, vec![("id-3".to_string(), "Kept".to_string())]);
    assert!(matches!(parse_habits_response("[1, 2]"), Err(HabitsError::MissingResultsArray)));
    assert!(matches!(parse_habits_response("{ bad json"), Err(HabitsError::Json(_))));
}

#[test]
fn active_habits_query_asks_for_active_habits_by_name() {
    let client = NotionClient::new("http://x", "t", "v", "d", "habits-master-db-id", "h", "s");
    let req = active_habits_query(&client);
    assert_eq!(req.url, "http://x/databases/habits-master-db-id/query");
    assert_eq!(req.headers[0], ("Authorization".to_string(), "t".to_string()));
    assert_eq!(req.headers[1], ("Notion-Version".to_string(), "v".to_string()));
    assert_eq!(
        req.body,
        r#"{"filter":{"and":[{"property":"Status","select":{"equals":"Active"}}]},"sorts":[{"direction":"ascending","property":"Name"}]}"#
    );
}

#[test]
fn habits_reply_status_decides() {
    let err = habits_from_response(500, String::new()).unwrap_err();
    assert_eq!(
        habits_from_response(200, "{ bad json".to_string()).unwrap_err().message(),
        parse_habits_response("{ bad json").unwrap_err().message()
    );
    assert!(err.message().contains("500"));
    let habits = habits_from_response(
        200,
        r#"{"results":[{"id":"habit-1","properties":{"Name":{"title":[{"plain_text":"Morning Run"}]}}},{"id":"habit-2","properties":{"Name":{"title":[{"plain_text":"Read 30 mins"}]}}}]}"#.to_string(),
    )
    .unwrap();
    assert_eq!(habits[0], ("habit-1".to_string(), "Morning Run".to_string()));
    assert_eq!(habits[1], ("habit-2".to_string(), "Read 30 mins".to_string()));
}
