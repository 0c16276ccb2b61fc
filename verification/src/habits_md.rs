//! The Habits Master database: the query for active habits and the reading
//! of its reply into `(id, name)` pairs.

use vstd::prelude::*;
use crate::error::{HabitsError, check_response};
use crate::json::{JsonTree, object_get, json_tree, json_trees, parsed_json, tree_str, tree_items, index_key, index_pos, parse_json, member, element, text_of, value_as_array};
use crate::notion_client::{NotionClient, NotionRequest, database_query_url, query_url, pairs_view, posted_by};

verus! {

/// The body of the query for active habits, sorted by name: the JSON that
/// `serde_json` writes for it, members in key order.
pub open spec fn active_habits_body() -> Seq<char> {
    "{\"filter\":{\"and\":[{\"property\":\"Status\",\"select\":{\"equals\":\"Active\"}}]},\"sorts\":[{\"direction\":\"ascending\",\"property\":\"Name\"}]}"@
}

/// The query of the Habits Master database for the habits whose status is
/// Active, in ascending order of name.
pub fn active_habits_query(client: &NotionClient) -> (r: NotionRequest)
    ensures
        posted_by(r, *client),
        r.url@ == database_query_url(client.base_url@, client.habits_master_database_id@),
        r.body@ == active_habits_body(),
{
    NotionRequest::post(
        client,
        query_url(client.base_url.as_str(), client.habits_master_database_id.as_str()),
        String::from_str(
            "{\"filter\":{\"and\":[{\"property\":\"Status\",\"select\":{\"equals\":\"Active\"}}]},\"sorts\":[{\"direction\":\"ascending\",\"property\":\"Name\"}]}",
        ),
    )
}

/// The `(id, name)` of one result: its `id`, and the `plain_text` of the
/// first element of the title of its `Name` property; `None` when either is
/// missing or not a string.
pub open spec fn habit_entry(result: JsonTree) -> Option<(Seq<char>, Seq<char>)> {
    let id = tree_str(index_key(result, "id"@));
    let title = index_key(index_key(index_key(result, "properties"@), "Name"@), "title"@);
    let name = tree_str(index_key(index_pos(title, 0), "plain_text"@));
    match (id, name) {
        (Some(i), Some(n)) => Some((i, n)),
        _ => None,
    }
}

/// The entries of the results that have one, in the order of the results.
pub open spec fn habit_entries(results: Seq<JsonTree>) -> Seq<(Seq<char>, Seq<char>)>
    decreases results.len(),
{
    if results.len() == 0 {
        Seq::empty()
    } else {
        let rest = habit_entries(results.drop_last());
        match habit_entry(results.last()) {
            Some(e) => rest.push(e),
            None => rest,
        }
    }
}

/// What a reply to the active-habits query holds: `None` where it is no JSON
/// or has no `results` array.
pub open spec fn reply_results(doc: JsonTree) -> Option<Seq<JsonTree>> {
    tree_items(index_key(doc, "results"@))
}

/// What `parse_habits_response` gives for the text `json`: a JSON error for
/// a text that is no JSON, `MissingResultsArray` for a document without a
/// `results` array, and otherwise the entries of its results.
pub open spec fn habits_reply(json: Seq<char>, r: Result<Vec<(String, String)>, HabitsError>) -> bool {
    match parsed_json(json) {
        Err(msg) => r matches Err(HabitsError::Json(m)) && m@ == msg,
        Ok(doc) => match reply_results(doc) {
            None => r == Err::<Vec<(String, String)>, HabitsError>(HabitsError::MissingResultsArray),
            Some(results) => r matches Ok(v) && pairs_view(v@) == habit_entries(results),
        },
    }
}

fn habit_entry_of(result: &serde_json::Value) -> (r: Option<(String, String)>)
    ensures
        r matches Some(p) ==> habit_entry(json_tree(*result)) == Some((p.0@, p.1@)),
        r is None ==> habit_entry(json_tree(*result)) is None,
{
    let id = text_of(member(Some(result), "id"));
    let properties = member(Some(result), "properties");
    let title = member(member(properties, "Name"), "title");
    let name = text_of(member(element(title, 0), "plain_text"));
    match (id, name) {
        (Some(i), Some(n)) => Some((String::from_str(i), String::from_str(n))),
        _ => None,
    }
}

/// Reads a reply of the Habits Master database into `(id, name)` pairs.
/// Results without a string id or a string title are skipped; a reply that is
/// no JSON, or has no `results` array, is an error.
pub fn parse_habits_response(json: &str) -> (r: Result<Vec<(String, String)>, HabitsError>)
    ensures
        habits_reply(json@, r),
{
    let doc = match parse_json(json) {
        Ok(d) => d,
        Err(e) => return Err(HabitsError::Json(e)),
    };
    let results = match member(Some(&doc), "results") {
        Some(r) => match value_as_array(r) {
            Some(items) => items,
            None => return Err(HabitsError::MissingResultsArray),
        },
        None => return Err(HabitsError::MissingResultsArray),
    };
    let ghost trees = json_trees(results@);
    let mut out: Vec<(String, String)> = Vec::new();
    let mut i: usize = 0;
    while i < results.len()
        invariant
            i <= results.len(),
            trees == json_trees(results@),
            pairs_view(out@) == habit_entries(trees.take(i as int)),
        decreases results.len() - i,
    {
        let entry = habit_entry_of(&results[i]);
        proof {
            assert(trees.take(i as int + 1).drop_last() =~= trees.take(i as int));
            assert(trees[i as int] == json_tree(results@[i as int]));
        }
        match entry {
            Some(p) => {
                let ghost before = out@;
                let ghost pv = (p.0@, p.1@);
                out.push(p);
                proof {
                    assert(pairs_view(out@) =~= pairs_view(before).push(pv));
                }
            },
            None => {},
        }
        i = i + 1;
    }
    proof {
        assert(trees.take(results.len() as int) =~= trees);
    }
    Ok(out)
}

/// Reads the reply to the active-habits query: a failure status is an error,
/// and a successful body is read as `parse_habits_response` reads it.
pub fn habits_from_response(status: u16, body: String) -> (r: Result<Vec<(String, String)>, HabitsError>)
    ensures
        !(200 <= status <= 299) ==> r == Err::<Vec<(String, String)>, HabitsError>(
            HabitsError::NotionApi { status, body },
        ),
        200 <= status <= 299 ==> habits_reply(body@, r),
{
    let text = check_response(status, body)?;
    parse_habits_response(text.as_str())
}

/// A result with a string `id` and a `Name` property whose title starts with
/// an element with a string `plain_text` gives the pair of those two strings.
pub proof fn lemma_habit_entry_reads_id_and_title(
    result: Map<Seq<char>, JsonTree>,
    properties: Map<Seq<char>, JsonTree>,
    name: Map<Seq<char>, JsonTree>,
    title: Seq<JsonTree>,
    first: Map<Seq<char>, JsonTree>,
    id: Seq<char>,
    text: Seq<char>,
)
    requires
        result.dom().contains("id"@),
        result["id"@] == JsonTree::Str(id),
        result.dom().contains("properties"@),
        result["properties"@] == JsonTree::Object(properties),
        properties.dom().contains("Name"@),
        properties["Name"@] == JsonTree::Object(name),
        name.dom().contains("title"@),
        name["title"@] == JsonTree::Array(title),
        title.len() > 0,
        title[0] == JsonTree::Object(first),
        first.dom().contains("plain_text"@),
        first["plain_text"@] == JsonTree::Str(text),
    ensures
        habit_entry(JsonTree::Object(result)) == Some((id, text)),
{
}

/// A result gives a pair only when it has a string `id` and a title whose
/// first element has a string `plain_text`, and the pair is those strings.
pub proof fn lemma_habit_entry_needs_id_and_title(result: JsonTree)
    ensures
        habit_entry(result) matches Some((id, text)) ==> (
            object_get(result, "properties"@) matches Some(p)
            && object_get(p, "Name"@) matches Some(n)
            && object_get(n, "title"@) matches Some(JsonTree::Array(title))
            && title.len() > 0
            && object_get(title[0], "plain_text"@) == Some(JsonTree::Str(text))
        ),
        habit_entry(result) matches Some((id, text)) ==> object_get(result, "id"@) == Some(JsonTree::Str(id)),
{
}

/// The pairs read from a reply are those of its results that have one, each
/// result read on its own, in the order of the results: none dropped, none
/// added, none repeated.
pub proof fn lemma_habit_entries_filter_map(results: Seq<JsonTree>)
    ensures
        habit_entries(results) == results.filter_map(|r: JsonTree| habit_entry(r)),
        habit_entries(results).len() <= results.len(),
    decreases results.len(),
{
    if results.len() > 0 {
        lemma_habit_entries_filter_map(results.drop_last());
        let f = |r: JsonTree| habit_entry(r);
        match habit_entry(results.last()) {
            Some(e) => {
                assert(habit_entries(results) =~= results.drop_last().filter_map(f) + seq![e]);
            },
            None => {},
        }
    }
}

/// The results of a reply are the array under its `results` member, and a
/// reply without such an array has none.
pub proof fn lemma_reply_results_reads_results(doc: JsonTree)
    ensures
        reply_results(doc) == match object_get(doc, "results"@) {
            Some(JsonTree::Array(items)) => Some(items),
            _ => None::<Seq<JsonTree>>,
        },
{
}

} // verus!
