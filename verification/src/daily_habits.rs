//! The Daily Habits database: the page created for each habit each day, the
//! queries that find the entries already made today, and the choice of the
//! habits that still need one.

use vstd::prelude::*;
use crate::error::{HabitsError, check_response};
use crate::json::{JsonTree, object_get, json_tree, json_trees, parsed_json, tree_str, tree_items, index_key, index_pos, json_string_literal, parse_json, member, element, text_of, value_as_array, quote_json};
use crate::notion_client::{NotionClient, NotionRequest, database_query_url, pages_url, query_url, create_page_url, pairs_view, posted_by};

verus! {

/// The body that creates a Daily Habits page: its parent database, its title
/// (the habit's name) and its relations to the habit, to the day and to the
/// stats page. It is the JSON that `serde_json` writes, members in key order.
pub open spec fn create_habit_body(
    habit_id: Seq<char>,
    today_id: Seq<char>,
    habit_name: Seq<char>,
    daily_stats_id: Seq<char>,
    habits_database_id: Seq<char>,
) -> Seq<char> {
    "{\"parent\":{\"database_id\":"@ + json_string_literal(habits_database_id)
        + "},\"properties\":{\"Day\":{\"relation\":[{\"id\":"@ + json_string_literal(today_id)
        + "}]},\"Habit\":{\"relation\":[{\"id\":"@ + json_string_literal(habit_id)
        + "}]},\"Name\":{\"title\":[{\"text\":{\"content\":"@ + json_string_literal(habit_name)
        + "}}]},\"stats\":{\"relation\":[{\"id\":"@ + json_string_literal(daily_stats_id)
        + "}]}}}"@
}

/// Builds the JSON body that creates the Daily Habits page of a habit for a day.
pub fn build_create_habit_query(
    habit_id: &str,
    today_id: &str,
    habit_name: &str,
    daily_stats_id: &str,
    habits_database_id: &str,
) -> (r: String)
    ensures
        r@ == create_habit_body(habit_id@, today_id@, habit_name@, daily_stats_id@, habits_database_id@),
{
    let mut body = String::from_str("{\"parent\":{\"database_id\":");
    body.append(quote_json(habits_database_id).as_str());
    body.append("},\"properties\":{\"Day\":{\"relation\":[{\"id\":");
    body.append(quote_json(today_id).as_str());
    body.append("}]},\"Habit\":{\"relation\":[{\"id\":");
    body.append(quote_json(habit_id).as_str());
    body.append("}]},\"Name\":{\"title\":[{\"text\":{\"content\":");
    body.append(quote_json(habit_name).as_str());
    body.append("}}]},\"stats\":{\"relation\":[{\"id\":");
    body.append(quote_json(daily_stats_id).as_str());
    body.append("}]}}}");
    body
}

/// The request that creates today's entry for a habit, linked to the stats
/// page of the client and placed in its Daily Habits database.
pub fn create_habit_request(client: &NotionClient, habit_id: &str, today_id: &str, habit_name: &str) -> (r: NotionRequest)
    ensures
        posted_by(r, *client),
        r.url@ == pages_url(client.base_url@),
        r.body@ == create_habit_body(
            habit_id@,
            today_id@,
            habit_name@,
            client.daily_stats_page_id@,
            client.habits_database_id@,
        ),
{
    let body = build_create_habit_query(
        habit_id,
        today_id,
        habit_name,
        client.daily_stats_page_id.as_str(),
        client.habits_database_id.as_str(),
    );
    NotionRequest::post(client, create_page_url(client.base_url.as_str()), body)
}

/// Reads the reply to a page creation: only its status matters.
pub fn created_from_response(status: u16, body: String) -> (r: Result<(), HabitsError>)
    ensures
        200 <= status <= 299 ==> r == Ok::<(), HabitsError>(()),
        !(200 <= status <= 299) ==> r == Err::<(), HabitsError>(HabitsError::NotionApi { status, body }),
{
    check_response(status, body)?;
    Ok(())
}

/// The body of the query for the entry of one habit on one day.
pub open spec fn habit_entry_query_body(habit_id: Seq<char>, today_id: Seq<char>) -> Seq<char> {
    "{\"filter\":{\"and\":[{\"property\":\"Habit\",\"relation\":{\"contains\":"@ + json_string_literal(habit_id)
        + "}},{\"property\":\"Day\",\"relation\":{\"contains\":"@ + json_string_literal(today_id)
        + "}}]}}"@
}

/// The query of the Daily Habits database for the entries that link the
/// habit `habit_id` to the day `today_id`.
pub fn habit_entry_query(client: &NotionClient, habit_id: &str, today_id: &str) -> (r: NotionRequest)
    ensures
        posted_by(r, *client),
        r.url@ == database_query_url(client.base_url@, client.habits_database_id@),
        r.body@ == habit_entry_query_body(habit_id@, today_id@),
{
    let mut body = String::from_str("{\"filter\":{\"and\":[{\"property\":\"Habit\",\"relation\":{\"contains\":");
    body.append(quote_json(habit_id).as_str());
    body.append("}},{\"property\":\"Day\",\"relation\":{\"contains\":");
    body.append(quote_json(today_id).as_str());
    body.append("}}]}}");
    NotionRequest::post(client, query_url(client.base_url.as_str(), client.habits_database_id.as_str()), body)
}

/// The `results` array of a reply.
pub open spec fn results_of_reply(doc: JsonTree) -> Option<Seq<JsonTree>> {
    tree_items(index_key(doc, "results"@))
}

/// What `parse_habit_exists` gives for the text `json`: whether the reply
/// lists any entry.
pub open spec fn exists_reply(json: Seq<char>, r: Result<bool, HabitsError>) -> bool {
    match parsed_json(json) {
        Err(msg) => r matches Err(HabitsError::Json(m)) && m@ == msg,
        Ok(doc) => match results_of_reply(doc) {
            None => r == Err::<bool, HabitsError>(HabitsError::MissingResultsArray),
            Some(results) => r == Ok::<bool, HabitsError>(results.len() > 0),
        },
    }
}

/// Reads a reply to the query for one habit's entry on one day: whether an
/// entry exists already.
pub fn parse_habit_exists(json: &str) -> (r: Result<bool, HabitsError>)
    ensures
        exists_reply(json@, r),
{
    let doc = match parse_json(json) {
        Ok(d) => d,
        Err(e) => return Err(HabitsError::Json(e)),
    };
    match member(Some(&doc), "results") {
        Some(results) => match value_as_array(results) {
            Some(items) => Ok(items.len() > 0),
            None => Err(HabitsError::MissingResultsArray),
        },
        None => Err(HabitsError::MissingResultsArray),
    }
}

/// Reads the reply to the existence query: a failure status is an error,
/// and a successful body is read as `parse_habit_exists` reads it.
pub fn habit_exists_from_response(status: u16, body: String) -> (r: Result<bool, HabitsError>)
    ensures
        !(200 <= status <= 299) ==> r == Err::<bool, HabitsError>(HabitsError::NotionApi { status, body }),
        200 <= status <= 299 ==> exists_reply(body@, r),
{
    let text = check_response(status, body)?;
    parse_habit_exists(text.as_str())
}

/// The body of the query for all entries of one day.
pub open spec fn day_entries_query_body(today_id: Seq<char>) -> Seq<char> {
    "{\"filter\":{\"property\":\"Day\",\"relation\":{\"contains\":"@ + json_string_literal(today_id) + "}}}"@
}

/// The query of the Daily Habits database for every entry of the day `today_id`.
pub fn day_entries_query(client: &NotionClient, today_id: &str) -> (r: NotionRequest)
    ensures
        posted_by(r, *client),
        r.url@ == database_query_url(client.base_url@, client.habits_database_id@),
        r.body@ == day_entries_query_body(today_id@),
{
    let mut body = String::from_str("{\"filter\":{\"property\":\"Day\",\"relation\":{\"contains\":");
    body.append(quote_json(today_id).as_str());
    body.append("}}}");
    NotionRequest::post(client, query_url(client.base_url.as_str(), client.habits_database_id.as_str()), body)
}

/// The habit an entry belongs to: the `id` of the first element of the
/// relation of its `Habit` property, when that is a string.
pub open spec fn entry_habit_id(result: JsonTree) -> Option<Seq<char>> {
    let relation = index_key(index_key(index_key(result, "properties"@), "Habit"@), "relation"@);
    tree_str(index_key(index_pos(relation, 0), "id"@))
}

/// The habits of the entries that name one, in the order of the entries.
pub open spec fn entry_habit_ids(results: Seq<JsonTree>) -> Seq<Seq<char>>
    decreases results.len(),
{
    if results.len() == 0 {
        Seq::empty()
    } else {
        let rest = entry_habit_ids(results.drop_last());
        match entry_habit_id(results.last()) {
            Some(id) => rest.push(id),
            None => rest,
        }
    }
}

/// The views of a vector of strings.
pub open spec fn strings_view(strings: Seq<String>) -> Seq<Seq<char>> {
    strings.map_values(|s: String| s@)
}

/// What `parse_existing_habit_ids` gives for the text `json`.
pub open spec fn existing_ids_reply(json: Seq<char>, r: Result<Vec<String>, HabitsError>) -> bool {
    match parsed_json(json) {
        Err(msg) => r matches Err(HabitsError::Json(m)) && m@ == msg,
        Ok(doc) => match results_of_reply(doc) {
            None => r == Err::<Vec<String>, HabitsError>(HabitsError::MissingResultsArray),
            Some(results) => r matches Ok(v) && strings_view(v@) == entry_habit_ids(results),
        },
    }
}

fn entry_habit_id_of(result: &serde_json::Value) -> (r: Option<String>)
    ensures
        r matches Some(s) ==> entry_habit_id(json_tree(*result)) == Some(s@),
        r is None ==> entry_habit_id(json_tree(*result)) is None,
{
    let relation = member(member(member(Some(result), "properties"), "Habit"), "relation");
    match text_of(member(element(relation, 0), "id")) {
        Some(id) => Some(String::from_str(id)),
        None => None,
    }
}

/// Reads a reply to the query for a day's entries: the ids of the habits
/// that already have an entry that day. Entries without a habit are skipped.
pub fn parse_existing_habit_ids(json: &str) -> (r: Result<Vec<String>, HabitsError>)
    ensures
        existing_ids_reply(json@, r),
{
    let doc = match parse_json(json) {
        Ok(d) => d,
        Err(e) => return Err(HabitsError::Json(e)),
    };
    let results = match member(Some(&doc), "results") {
        Some(r) => match value_as_array(r) {
            Some(items) => items,
            None => return Err(HabitsError::MissingResultsArray),
        },
        None => return Err(HabitsError::MissingResultsArray),
    };
    let ghost trees = json_trees(results@);
    let mut out: Vec<String> = Vec::new();
    let mut i: usize = 0;
    while i < results.len()
        invariant
            i <= results.len(),
            trees == json_trees(results@),
            strings_view(out@) == entry_habit_ids(trees.take(i as int)),
        decreases results.len() - i,
    {
        let id = entry_habit_id_of(&results[i]);
        proof {
            assert(trees.take(i as int + 1).drop_last() =~= trees.take(i as int));
            assert(trees[i as int] == json_tree(results@[i as int]));
        }
        match id {
            Some(s) => {
                let ghost before = out@;
                let ghost sv = s@;
                out.push(s);
                proof {
                    assert(strings_view(out@) =~= strings_view(before).push(sv));
                }
            },
            None => {},
        }
        i = i + 1;
    }
    proof {
        assert(trees.take(results.len() as int) =~= trees);
    }
    Ok(out)
}

/// Reads the reply to the query for a day's entries: a failure status is an
/// error, and a successful body is read as `parse_existing_habit_ids` reads it.
pub fn existing_ids_from_response(status: u16, body: String) -> (r: Result<Vec<String>, HabitsError>)
    ensures
        !(200 <= status <= 299) ==> r == Err::<Vec<String>, HabitsError>(HabitsError::NotionApi { status, body }),
        200 <= status <= 299 ==> existing_ids_reply(body@, r),
{
    let text = check_response(status, body)?;
    parse_existing_habit_ids(text.as_str())
}

/// The habits that still need an entry: those whose id is not among the
/// ids that have one, in their order.
pub open spec fn pending_habits(
    habits: Seq<(Seq<char>, Seq<char>)>,
    existing: Seq<Seq<char>>,
) -> Seq<(Seq<char>, Seq<char>)>
    decreases habits.len(),
{
    if habits.len() == 0 {
        Seq::empty()
    } else {
        let rest = pending_habits(habits.drop_last(), existing);
        if existing.contains(habits.last().0) {
            rest
        } else {
            rest.push(habits.last())
        }
    }
}

/// The ids of `(id, name)` pairs.
pub open spec fn habit_ids(habits: Seq<(Seq<char>, Seq<char>)>) -> Seq<Seq<char>> {
    habits.map_values(|h: (Seq<char>, Seq<char>)| h.0)
}

fn contains_id(ids: &Vec<String>, id: &String) -> (r: bool)
    ensures
        r == strings_view(ids@).contains(id@),
{
    let mut j: usize = 0;
    while j < ids.len()
        invariant
            j <= ids.len(),
            forall|k: int| 0 <= k < j ==> ids@[k]@ != id@,
        decreases ids.len() - j,
    {
        if ids[j] == *id {
            proof {
                assert(strings_view(ids@)[j as int] == id@);
            }
            return true;
        }
        j = j + 1;
    }
    proof {
        if strings_view(ids@).contains(id@) {
            let k = choose|k: int| 0 <= k < strings_view(ids@).len() && strings_view(ids@)[k] == id@;
            assert(ids@[k]@ == id@);
        }
    }
    false
}

/// The habits of a daily run that still need today's entry: every habit
/// whose id is not among `existing_ids`, in the order of `habits`.
pub fn habits_to_create(habits: &Vec<(String, String)>, existing_ids: &Vec<String>) -> (r: Vec<(String, String)>)
    ensures
        pairs_view(r@) == pending_habits(pairs_view(habits@), strings_view(existing_ids@)),
        pairs_view(r@) == pairs_view(habits@).filter(
            |h: (Seq<char>, Seq<char>)| !strings_view(existing_ids@).contains(h.0),
        ),
{
    let ghost hv = pairs_view(habits@);
    let ghost ev = strings_view(existing_ids@);
    let mut out: Vec<(String, String)> = Vec::new();
    let mut i: usize = 0;
    while i < habits.len()
        invariant
            i <= habits.len(),
            hv == pairs_view(habits@),
            ev == strings_view(existing_ids@),
            pairs_view(out@) == pending_habits(hv.take(i as int), ev),
        decreases habits.len() - i,
    {
        proof {
            assert(hv.take(i as int + 1).drop_last() =~= hv.take(i as int));
            assert(hv[i as int] == (habits@[i as int].0@, habits@[i as int].1@));
        }
        let found = contains_id(existing_ids, &habits[i].0);
        if !found {
            let ghost before = out@;
            let pair = (habits[i].0.clone(), habits[i].1.clone());
            out.push(pair);
            proof {
                assert(pairs_view(out@) =~= pairs_view(before).push(hv[i as int]));
            }
        }
        i = i + 1;
    }
    proof {
        assert(hv.take(habits.len() as int) =~= hv);
        lemma_pending_is_filter(hv, ev);
    }
    out
}

/// A run chooses exactly the habits that lack an entry: everything it chooses
/// is one of the habits and has no entry yet, and every habit without an
/// entry is chosen.
pub proof fn lemma_pending_exactly_missing(habits: Seq<(Seq<char>, Seq<char>)>, existing: Seq<Seq<char>>)
    ensures
        forall|x: (Seq<char>, Seq<char>)| #[trigger] pending_habits(habits, existing).contains(x)
            ==> habits.contains(x) && !existing.contains(x.0),
        forall|i: int| 0 <= i < habits.len() && !existing.contains(habits[i].0)
            ==> pending_habits(habits, existing).contains(#[trigger] habits[i]),
    decreases habits.len(),
{
    if habits.len() > 0 {
        let init = habits.drop_last();
        lemma_pending_exactly_missing(init, existing);
        let rest = pending_habits(init, existing);
        let p = pending_habits(habits, existing);
        assert forall|x: (Seq<char>, Seq<char>)| #[trigger] p.contains(x)
            implies habits.contains(x) && !existing.contains(x.0) by {
            let k = choose|k: int| 0 <= k < p.len() && p[k] == x;
            if k < rest.len() {
                assert(rest[k] == x);
                assert(rest.contains(x));
                let m = choose|m: int| 0 <= m < init.len() && init[m] == x;
                assert(habits[m] == x);
            } else {
                assert(x == habits.last());
                assert(habits[habits.len() - 1] == x);
            }
        }
        assert forall|i: int| 0 <= i < habits.len() && !existing.contains(habits[i].0)
            implies p.contains(#[trigger] habits[i]) by {
            if i < habits.len() - 1 {
                assert(init[i] == habits[i]);
                assert(rest.contains(init[i]));
                let k = choose|k: int| 0 <= k < rest.len() && rest[k] == init[i];
                assert(p[k] == habits[i]);
            } else {
                assert(p[p.len() - 1] == habits[i]);
            }
        }
    }
}

/// Where every habit has an entry, a run chooses none.
pub proof fn lemma_nothing_pending_when_all_exist(habits: Seq<(Seq<char>, Seq<char>)>, existing: Seq<Seq<char>>)
    requires
        forall|i: int| 0 <= i < habits.len() ==> existing.contains(#[trigger] habits[i].0),
    ensures
        pending_habits(habits, existing) == Seq::<(Seq<char>, Seq<char>)>::empty(),
    decreases habits.len(),
{
    if habits.len() > 0 {
        let init = habits.drop_last();
        assert forall|i: int| 0 <= i < init.len() implies existing.contains(#[trigger] init[i].0) by {
            assert(init[i] == habits[i]);
        }
        lemma_nothing_pending_when_all_exist(init, existing);
        assert(existing.contains(habits[habits.len() - 1].0));
    }
}

/// Daily runs are idempotent: once the habits that a run chose have their
/// entries for the day, a second run on the same day chooses none.
pub proof fn lemma_second_run_creates_nothing(habits: Seq<(Seq<char>, Seq<char>)>, existing: Seq<Seq<char>>)
    ensures
        pending_habits(habits, existing + habit_ids(pending_habits(habits, existing)))
            == Seq::<(Seq<char>, Seq<char>)>::empty(),
{
    let p = pending_habits(habits, existing);
    let after = existing + habit_ids(p);
    lemma_pending_exactly_missing(habits, existing);
    assert forall|i: int| 0 <= i < habits.len() implies after.contains(#[trigger] habits[i].0) by {
        if existing.contains(habits[i].0) {
            let k = choose|k: int| 0 <= k < existing.len() && existing[k] == habits[i].0;
            assert(after[k] == habits[i].0);
        } else {
            assert(p.contains(habits[i]));
            let k = choose|k: int| 0 <= k < p.len() && p[k] == habits[i];
            assert(habit_ids(p)[k] == habits[i].0);
            assert(after[existing.len() + k] == habits[i].0);
        }
    }
    lemma_nothing_pending_when_all_exist(habits, after);
}

/// The habits chosen for creation are exactly the habits without an entry
/// today, in their order, each as often as it is listed: the habits filtered
/// by "its id is not among the existing ids". So a run never chooses more
/// habits than it was given, and on a day without entries it chooses them all.
pub proof fn lemma_pending_is_filter(habits: Seq<(Seq<char>, Seq<char>)>, existing: Seq<Seq<char>>)
    ensures
        pending_habits(habits, existing)
            == habits.filter(|h: (Seq<char>, Seq<char>)| !existing.contains(h.0)),
        pending_habits(habits, existing).len() <= habits.len(),
        existing.len() == 0 ==> pending_habits(habits, existing) == habits,
    decreases habits.len(),
{
    reveal_with_fuel(Seq::<_>::filter, 1);
    if habits.len() > 0 {
        lemma_pending_is_filter(habits.drop_last(), existing);
        if existing.len() == 0 {
            assert(!existing.contains(habits.last().0));
            assert(habits.drop_last().push(habits.last()) =~= habits);
        }
    }
}

/// The habit id read from an entry is the `id` string of the first element
/// of the relation of its `Habit` property.
pub proof fn lemma_entry_habit_id_reads_habit_relation(
    entry: Map<Seq<char>, JsonTree>,
    properties: Map<Seq<char>, JsonTree>,
    habit: Map<Seq<char>, JsonTree>,
    relation: Seq<JsonTree>,
    first: Map<Seq<char>, JsonTree>,
    id: Seq<char>,
)
    requires
        entry.dom().contains("properties"@),
        entry["properties"@] == JsonTree::Object(properties),
        properties.dom().contains("Habit"@),
        properties["Habit"@] == JsonTree::Object(habit),
        habit.dom().contains("relation"@),
        habit["relation"@] == JsonTree::Array(relation),
        relation.len() > 0,
        relation[0] == JsonTree::Object(first),
        first.dom().contains("id"@),
        first["id"@] == JsonTree::Str(id),
    ensures
        entry_habit_id(JsonTree::Object(entry)) == Some(id),
{
}

/// An entry names a habit only through its `Habit` property: two entries
/// whose `properties` hold the same `Habit` member (whatever else they hold,
/// such as a `Day` relation) name the same habit, or none.
pub proof fn lemma_entry_habit_id_depends_on_habit_only(
    a: Map<Seq<char>, JsonTree>,
    b: Map<Seq<char>, JsonTree>,
    pa: Map<Seq<char>, JsonTree>,
    pb: Map<Seq<char>, JsonTree>,
)
    requires
        a.dom().contains("properties"@),
        a["properties"@] == JsonTree::Object(pa),
        b.dom().contains("properties"@),
        b["properties"@] == JsonTree::Object(pb),
        pa.dom().contains("Habit"@) == pb.dom().contains("Habit"@),
        pa.dom().contains("Habit"@) ==> pa["Habit"@] == pb["Habit"@],
    ensures
        entry_habit_id(JsonTree::Object(a)) == entry_habit_id(JsonTree::Object(b)),
{
}

/// An entry names a habit only when it has that relation: the id read is
/// the `id` string of the first element of the `Habit` relation.
pub proof fn lemma_entry_habit_id_needs_habit_relation(entry: JsonTree)
    ensures
        entry_habit_id(entry) matches Some(id) ==> (
            object_get(entry, "properties"@) matches Some(p)
            && object_get(p, "Habit"@) matches Some(h)
            && object_get(h, "relation"@) matches Some(JsonTree::Array(rel))
            && rel.len() > 0
            && object_get(rel[0], "id"@) == Some(JsonTree::Str(id))
        ),
{
}

/// The ids read from a reply are those of its entries that name a habit,
/// each entry read on its own, in the order of the entries: none dropped,
/// none added, none repeated.
pub proof fn lemma_entry_habit_ids_filter_map(results: Seq<JsonTree>)
    ensures
        entry_habit_ids(results) == results.filter_map(|r: JsonTree| entry_habit_id(r)),
        entry_habit_ids(results).len() <= results.len(),
    decreases results.len(),
{
    if results.len() > 0 {
        lemma_entry_habit_ids_filter_map(results.drop_last());
        let f = |r: JsonTree| entry_habit_id(r);
        match entry_habit_id(results.last()) {
            Some(id) => {
                assert(entry_habit_ids(results) =~= results.drop_last().filter_map(f) + seq![id]);
            },
            None => {},
        }
    }
}

/// The body that creates an entry holds the habit's name, quoted in full,
/// as the content of its title: around it stands text that does not depend
/// on the name, and the text before it ends with the title's key.
pub proof fn lemma_create_body_holds_name(
    habit_id: Seq<char>,
    today_id: Seq<char>,
    daily_stats_id: Seq<char>,
    habits_database_id: Seq<char>,
) -> (parts: (Seq<char>, Seq<char>))
    ensures
        forall|name: Seq<char>| #[trigger] create_habit_body(habit_id, today_id, name, daily_stats_id, habits_database_id)
            == parts.0 + "\"Name\":{\"title\":[{\"text\":{\"content\":"@ + json_string_literal(name) + parts.1,
{
    reveal_strlit("}]},\"Name\":{\"title\":[{\"text\":{\"content\":");
    reveal_strlit("}]},");
    reveal_strlit("\"Name\":{\"title\":[{\"text\":{\"content\":");
    let pre = "{\"parent\":{\"database_id\":"@ + json_string_literal(habits_database_id)
        + "},\"properties\":{\"Day\":{\"relation\":[{\"id\":"@ + json_string_literal(today_id)
        + "}]},\"Habit\":{\"relation\":[{\"id\":"@ + json_string_literal(habit_id) + "}]},"@;
    let post = "}}]},\"stats\":{\"relation\":[{\"id\":"@ + json_string_literal(daily_stats_id) + "}]}}}"@;
    assert("}]},\"Name\":{\"title\":[{\"text\":{\"content\":"@
        =~= "}]},"@ + "\"Name\":{\"title\":[{\"text\":{\"content\":"@);
    assert forall|name: Seq<char>| #[trigger] create_habit_body(habit_id, today_id, name, daily_stats_id, habits_database_id)
        == pre + "\"Name\":{\"title\":[{\"text\":{\"content\":"@ + json_string_literal(name) + post by {
        assert(create_habit_body(habit_id, today_id, name, daily_stats_id, habits_database_id)
            =~= pre + "\"Name\":{\"title\":[{\"text\":{\"content\":"@ + json_string_literal(name) + post);
    }
    (pre, post)
}

/// The body that creates an entry holds the habit's id, quoted in full, as
/// the id of its `Habit` relation, in text that does not depend on it.
pub proof fn lemma_create_body_holds_habit_id(
    today_id: Seq<char>,
    habit_name: Seq<char>,
    daily_stats_id: Seq<char>,
    habits_database_id: Seq<char>,
) -> (parts: (Seq<char>, Seq<char>))
    ensures
        forall|habit_id: Seq<char>| #[trigger] create_habit_body(habit_id, today_id, habit_name, daily_stats_id, habits_database_id)
            == parts.0 + "\"Habit\":{\"relation\":[{\"id\":"@ + json_string_literal(habit_id) + parts.1,
{
    reveal_strlit("}]},\"Habit\":{\"relation\":[{\"id\":");
    reveal_strlit("}]},");
    reveal_strlit("\"Habit\":{\"relation\":[{\"id\":");
    let pre = "{\"parent\":{\"database_id\":"@ + json_string_literal(habits_database_id) + "},\"properties\":{\"Day\":{\"relation\":[{\"id\":"@ + json_string_literal(today_id) + "}]},"@;
    let post = "}]},\"Name\":{\"title\":[{\"text\":{\"content\":"@ + json_string_literal(habit_name) + "}}]},\"stats\":{\"relation\":[{\"id\":"@ + json_string_literal(daily_stats_id) + "}]}}}"@;
    assert("}]},\"Habit\":{\"relation\":[{\"id\":"@ =~= "}]},"@ + "\"Habit\":{\"relation\":[{\"id\":"@);
    assert forall|habit_id: Seq<char>| #[trigger] create_habit_body(habit_id, today_id, habit_name, daily_stats_id, habits_database_id)
        == pre + "\"Habit\":{\"relation\":[{\"id\":"@ + json_string_literal(habit_id) + post by {
        assert(create_habit_body(habit_id, today_id, habit_name, daily_stats_id, habits_database_id)
            =~= pre + "\"Habit\":{\"relation\":[{\"id\":"@ + json_string_literal(habit_id) + post);
    }
    (pre, post)
}

/// The body that creates an entry holds the day's page id, quoted in full,
/// as the id of its `Day` relation, in text that does not depend on it.
pub proof fn lemma_create_body_holds_today_id(
    habit_id: Seq<char>,
    habit_name: Seq<char>,
    daily_stats_id: Seq<char>,
    habits_database_id: Seq<char>,
) -> (parts: (Seq<char>, Seq<char>))
    ensures
        forall|today_id: Seq<char>| #[trigger] create_habit_body(habit_id, today_id, habit_name, daily_stats_id, habits_database_id)
            == parts.0 + "\"Day\":{\"relation\":[{\"id\":"@ + json_string_literal(today_id) + parts.1,
{
    reveal_strlit("},\"properties\":{\"Day\":{\"relation\":[{\"id\":");
    reveal_strlit("},\"properties\":{");
    reveal_strlit("\"Day\":{\"relation\":[{\"id\":");
    let pre = "{\"parent\":{\"database_id\":"@ + json_string_literal(habits_database_id) + "},\"properties\":{"@;
    let post = "}]},\"Habit\":{\"relation\":[{\"id\":"@ + json_string_literal(habit_id) + "}]},\"Name\":{\"title\":[{\"text\":{\"content\":"@ + json_string_literal(habit_name) + "}}]},\"stats\":{\"relation\":[{\"id\":"@ + json_string_literal(daily_stats_id) + "}]}}}"@;
    assert("},\"properties\":{\"Day\":{\"relation\":[{\"id\":"@ =~= "},\"properties\":{"@ + "\"Day\":{\"relation\":[{\"id\":"@);
    assert forall|today_id: Seq<char>| #[trigger] create_habit_body(habit_id, today_id, habit_name, daily_stats_id, habits_database_id)
        == pre + "\"Day\":{\"relation\":[{\"id\":"@ + json_string_literal(today_id) + post by {
        assert(create_habit_body(habit_id, today_id, habit_name, daily_stats_id, habits_database_id)
            =~= pre + "\"Day\":{\"relation\":[{\"id\":"@ + json_string_literal(today_id) + post);
    }
    (pre, post)
}

/// The body that creates an entry holds the stats page's id, quoted in full,
/// as the id of its `stats` relation, in text that does not depend on it.
pub proof fn lemma_create_body_holds_stats_id(
    habit_id: Seq<char>,
    today_id: Seq<char>,
    habit_name: Seq<char>,
    habits_database_id: Seq<char>,
) -> (parts: (Seq<char>, Seq<char>))
    ensures
        forall|daily_stats_id: Seq<char>| #[trigger] create_habit_body(habit_id, today_id, habit_name, daily_stats_id, habits_database_id)
            == parts.0 + "\"stats\":{\"relation\":[{\"id\":"@ + json_string_literal(daily_stats_id) + parts.1,
{
    reveal_strlit("}}]},\"stats\":{\"relation\":[{\"id\":");
    reveal_strlit("}}]},");
    reveal_strlit("\"stats\":{\"relation\":[{\"id\":");
    let pre = "{\"parent\":{\"database_id\":"@ + json_string_literal(habits_database_id) + "},\"properties\":{\"Day\":{\"relation\":[{\"id\":"@ + json_string_literal(today_id) + "}]},\"Habit\":{\"relation\":[{\"id\":"@ + json_string_literal(habit_id) + "}]},\"Name\":{\"title\":[{\"text\":{\"content\":"@ + json_string_literal(habit_name) + "}}]},"@;
    let post = "}]}}}"@;
    assert("}}]},\"stats\":{\"relation\":[{\"id\":"@ =~= "}}]},"@ + "\"stats\":{\"relation\":[{\"id\":"@);
    assert forall|daily_stats_id: Seq<char>| #[trigger] create_habit_body(habit_id, today_id, habit_name, daily_stats_id, habits_database_id)
        == pre + "\"stats\":{\"relation\":[{\"id\":"@ + json_string_literal(daily_stats_id) + post by {
        assert(create_habit_body(habit_id, today_id, habit_name, daily_stats_id, habits_database_id)
            =~= pre + "\"stats\":{\"relation\":[{\"id\":"@ + json_string_literal(daily_stats_id) + post);
    }
    (pre, post)
}

/// The body that creates an entry holds the Daily Habits database's id,
/// quoted in full, as its parent, in text that does not depend on it.
pub proof fn lemma_create_body_holds_database_id(
    habit_id: Seq<char>,
    today_id: Seq<char>,
    habit_name: Seq<char>,
    daily_stats_id: Seq<char>,
) -> (parts: (Seq<char>, Seq<char>))
    ensures
        forall|habits_database_id: Seq<char>| #[trigger] create_habit_body(habit_id, today_id, habit_name, daily_stats_id, habits_database_id)
            == parts.0 + "{\"parent\":{\"database_id\":"@ + json_string_literal(habits_database_id) + parts.1,
{
    let pre = Seq::<char>::empty();
    let post = "},\"properties\":{\"Day\":{\"relation\":[{\"id\":"@ + json_string_literal(today_id) + "}]},\"Habit\":{\"relation\":[{\"id\":"@ + json_string_literal(habit_id) + "}]},\"Name\":{\"title\":[{\"text\":{\"content\":"@ + json_string_literal(habit_name) + "}}]},\"stats\":{\"relation\":[{\"id\":"@ + json_string_literal(daily_stats_id) + "}]}}}"@;
    assert forall|habits_database_id: Seq<char>| #[trigger] create_habit_body(habit_id, today_id, habit_name, daily_stats_id, habits_database_id)
        == pre + "{\"parent\":{\"database_id\":"@ + json_string_literal(habits_database_id) + post by {
        assert(create_habit_body(habit_id, today_id, habit_name, daily_stats_id, habits_database_id)
            =~= pre + "{\"parent\":{\"database_id\":"@ + json_string_literal(habits_database_id) + post);
    }
    (pre, post)
}

/// The query for one habit's entry asks, in full, for the relation to that
/// habit, in text that does not depend on the habit's id.
pub proof fn lemma_entry_query_holds_habit_id(
    today_id: Seq<char>,
) -> (parts: (Seq<char>, Seq<char>))
    ensures
        forall|habit_id: Seq<char>| #[trigger] habit_entry_query_body(habit_id, today_id)
            == parts.0 + "{\"filter\":{\"and\":[{\"property\":\"Habit\",\"relation\":{\"contains\":"@ + json_string_literal(habit_id) + parts.1,
{
    let pre = Seq::<char>::empty();
    let post = "}},{\"property\":\"Day\",\"relation\":{\"contains\":"@ + json_string_literal(today_id) + "}}]}}"@;
    assert forall|habit_id: Seq<char>| #[trigger] habit_entry_query_body(habit_id, today_id)
        == pre + "{\"filter\":{\"and\":[{\"property\":\"Habit\",\"relation\":{\"contains\":"@ + json_string_literal(habit_id) + post by {
        assert(habit_entry_query_body(habit_id, today_id)
            =~= pre + "{\"filter\":{\"and\":[{\"property\":\"Habit\",\"relation\":{\"contains\":"@ + json_string_literal(habit_id) + post);
    }
    (pre, post)
}

/// The query for one habit's entry asks, in full, for the relation to the
/// day's page, in text that does not depend on that page's id.
pub proof fn lemma_entry_query_holds_today_id(
    habit_id: Seq<char>,
) -> (parts: (Seq<char>, Seq<char>))
    ensures
        forall|today_id: Seq<char>| #[trigger] habit_entry_query_body(habit_id, today_id)
            == parts.0 + "{\"property\":\"Day\",\"relation\":{\"contains\":"@ + json_string_literal(today_id) + parts.1,
{
    reveal_strlit("}},{\"property\":\"Day\",\"relation\":{\"contains\":");
    reveal_strlit("}},");
    reveal_strlit("{\"property\":\"Day\",\"relation\":{\"contains\":");
    let pre = "{\"filter\":{\"and\":[{\"property\":\"Habit\",\"relation\":{\"contains\":"@ + json_string_literal(habit_id) + "}},"@;
    let post = "}}]}}"@;
    assert("}},{\"property\":\"Day\",\"relation\":{\"contains\":"@ =~= "}},"@ + "{\"property\":\"Day\",\"relation\":{\"contains\":"@);
    assert forall|today_id: Seq<char>| #[trigger] habit_entry_query_body(habit_id, today_id)
        == pre + "{\"property\":\"Day\",\"relation\":{\"contains\":"@ + json_string_literal(today_id) + post by {
        assert(habit_entry_query_body(habit_id, today_id)
            =~= pre + "{\"property\":\"Day\",\"relation\":{\"contains\":"@ + json_string_literal(today_id) + post);
    }
    (pre, post)
}

/// The query for a day's entries asks, in full, for the relation to that
/// day's page, in text that does not depend on the page's id.
pub proof fn lemma_day_entries_query_holds_today_id() -> (parts: (Seq<char>, Seq<char>))
    ensures
        forall|today_id: Seq<char>| #[trigger] day_entries_query_body(today_id)
            == parts.0 + "{\"filter\":{\"property\":\"Day\",\"relation\":{\"contains\":"@ + json_string_literal(today_id) + parts.1,
{
    let pre = Seq::<char>::empty();
    let post = "}}}"@;
    assert forall|today_id: Seq<char>| #[trigger] day_entries_query_body(today_id)
        == pre + "{\"filter\":{\"property\":\"Day\",\"relation\":{\"contains\":"@ + json_string_literal(today_id) + post by {
        assert(day_entries_query_body(today_id)
            =~= pre + "{\"filter\":{\"property\":\"Day\",\"relation\":{\"contains\":"@ + json_string_literal(today_id) + post);
    }
    (pre, post)
}

/// The entries of a reply are the array under its `results` member, and a
/// reply without such an array has none; an entry exists exactly when that
/// array is not empty.
pub proof fn lemma_results_of_reply_reads_results(doc: JsonTree)
    ensures
        results_of_reply(doc) == match object_get(doc, "results"@) {
            Some(JsonTree::Array(items)) => Some(items),
            _ => None::<Seq<JsonTree>>,
        },
{
}

} // verus!
