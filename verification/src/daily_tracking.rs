//! The Daily Tracking database: the text of a date, the query for today's Day page
//! and the reading of its reply.

use vstd::prelude::*;
use crate::error::{HabitsError, check_response};
use crate::json::{JsonTree, json_tree, json_trees, parsed_json, tree_str, tree_items, object_get, json_string_literal, parse_json, value_get, value_as_array, value_as_str, quote_json};
use crate::notion_client::{NotionClient, NotionRequest, database_query_url, query_url, posted_by};
use crate::text::{padded_decimal, digit_char, push_padded_decimal, digits_value, lemma_padded_decimal_denotes};

verus! {

/// A year as the `%Y` specifier writes it: four digits with leading zeros
/// for the years 0 to 9999, and a sign before at least four digits otherwise.
pub open spec fn year_text(year: int) -> Seq<char> {
    if 0 <= year <= 9999 {
        padded_decimal(year as nat, 4)
    } else if year > 9999 {
        seq!['+'] + padded_decimal(year as nat, 4)
    } else {
        seq!['-'] + padded_decimal((-year) as nat, 4)
    }
}

/// A date as `%Y-%m-%d` writes it.
pub open spec fn date_text(year: int, month: nat, day: nat) -> Seq<char> {
    year_text(year) + seq!['-'] + padded_decimal(month, 2) + seq!['-'] + padded_decimal(day, 2)
}

/// Writes a date as `YYYY-MM-DD`, the form in which Notion's filters take
/// it, as chrono's `%Y-%m-%d` writes it. The clock is read by the caller.
pub fn format_date(year: i32, month: u32, day: u32) -> (r: String)
    requires
        1 <= month <= 12,
        1 <= day <= 31,
    ensures
        r@ == date_text(year as int, month as nat, day as nat),
{
    let mut s = String::new();
    let y: i64 = year as i64;
    if 0 <= y && y <= 9999 {
        push_padded_decimal(&mut s, y as u64, 4);
    } else if y > 9999 {
        s.push('+');
        push_padded_decimal(&mut s, y as u64, 4);
    } else {
        s.push('-');
        push_padded_decimal(&mut s, (-y) as u64, 4);
    }
    s.push('-');
    push_padded_decimal(&mut s, month as u64, 2);
    s.push('-');
    push_padded_decimal(&mut s, day as u64, 2);
    proof {
        assert(s@ =~= date_text(year as int, month as nat, day as nat));
    }
    s
}

/// `10^n`.
pub open spec fn pow10(n: nat) -> nat
    decreases n,
{
    if n == 0 { 1 } else { 10 * pow10((n - 1) as nat) }
}

/// Whether `c` is an ASCII digit.
pub open spec fn is_digit(c: char) -> bool {
    '0' <= c <= '9'
}

/// A number below `10^width` is written in exactly `width` digits.
pub proof fn lemma_padded_decimal_width(n: nat, width: nat)
    requires
        width >= 1,
        n < pow10(width),
    ensures
        padded_decimal(n, width).len() == width,
        forall|i: int| 0 <= i < width ==> is_digit(#[trigger] padded_decimal(n, width)[i]),
    decreases width,
{
    assert(is_digit(digit_char(n % 10)));
    if n < 10 && width <= 1 {
    } else {
        let w = (width - 1) as nat;
        assert(width >= 2) by {
            if width == 1 {
                assert(pow10(1) == 10 * pow10(0));
            }
        }
        assert(pow10(width) == 10 * pow10(w));
        assert(n / 10 < pow10(w)) by (nonlinear_arith)
            requires
                n < 10 * pow10(w),
        ;
        lemma_padded_decimal_width(n / 10, w);
        let prefix = padded_decimal(n / 10, w);
        assert(padded_decimal(n, width) == prefix.push(digit_char(n % 10)));
        assert forall|i: int| 0 <= i < width implies is_digit(#[trigger] padded_decimal(n, width)[i]) by {
            if i < w {
                assert(padded_decimal(n, width)[i] == prefix[i]);
            }
        }
    }
}

/// A date of the years 0 to 9999 is written `YYYY-MM-DD`: ten characters,
/// dashes at positions 4 and 7, digits everywhere else.
pub proof fn lemma_date_text_shape(year: int, month: nat, day: nat)
    requires
        0 <= year <= 9999,
        1 <= month <= 12,
        1 <= day <= 31,
    ensures
        date_text(year, month, day).len() == 10,
        date_text(year, month, day)[4] == '-',
        date_text(year, month, day)[7] == '-',
        forall|i: int|
            0 <= i < 10 && i != 4 && i != 7 ==> is_digit(#[trigger] date_text(year, month, day)[i]),
        digits_value(date_text(year, month, day).subrange(0, 4)) == year,
        digits_value(date_text(year, month, day).subrange(5, 7)) == month,
        digits_value(date_text(year, month, day).subrange(8, 10)) == day,
{
    reveal_with_fuel(pow10, 5);
    lemma_padded_decimal_denotes(year as nat, 4);
    lemma_padded_decimal_denotes(month, 2);
    lemma_padded_decimal_denotes(day, 2);
    lemma_padded_decimal_width(year as nat, 4);
    lemma_padded_decimal_width(month, 2);
    lemma_padded_decimal_width(day, 2);
    let ys = padded_decimal(year as nat, 4);
    let ms = padded_decimal(month, 2);
    let ds = padded_decimal(day, 2);
    let t = date_text(year, month, day);
    assert(t =~= ys + seq!['-'] + ms + seq!['-'] + ds);
    assert(t.subrange(0, 4) =~= ys);
    assert(t.subrange(5, 7) =~= ms);
    assert(t.subrange(8, 10) =~= ds);
    assert forall|i: int| 0 <= i < 10 && i != 4 && i != 7 implies is_digit(#[trigger] t[i]) by {
        if i < 4 {
            assert(t[i] == ys[i]);
        } else if i < 7 {
            assert(t[i] == ms[i - 5]);
        } else {
            assert(t[i] == ds[i - 8]);
        }
    }
}

/// A year is written as its number: four digits for the years 0 to 9999;
/// a `+` before the digits of later years and a `-` before those of its
/// magnitude for years before 0.
pub proof fn lemma_year_text_denotes(year: int)
    ensures
        0 <= year <= 9999 ==> year_text(year).len() == 4 && digits_value(year_text(year)) == year,
        year > 9999 ==> year_text(year)[0] == '+' && digits_value(year_text(year).drop_first()) == year,
        year < 0 ==> year_text(year)[0] == '-' && digits_value(year_text(year).drop_first()) == -year,
{
    if 0 <= year <= 9999 {
        reveal_with_fuel(pow10, 5);
        lemma_padded_decimal_width(year as nat, 4);
        lemma_padded_decimal_denotes(year as nat, 4);
    } else if year > 9999 {
        lemma_padded_decimal_denotes(year as nat, 4);
        assert(year_text(year).drop_first() =~= padded_decimal(year as nat, 4));
    } else {
        lemma_padded_decimal_denotes((-year) as nat, 4);
        assert(year_text(year).drop_first() =~= padded_decimal((-year) as nat, 4));
    }
}

/// The body of the query for the pages created today, most recent first
/// by their Date property: the JSON that `serde_json` writes for it, members
/// in key order.
pub open spec fn today_query_body(date: Seq<char>) -> Seq<char> {
    "{\"filter\":{\"and\":[{\"created_time\":{\"equals\":"@ + json_string_literal(date)
        + "},\"timestamp\":\"created_time\"}]},\"sorts\":[{\"direction\":\"descending\",\"property\":\"Date\"}]}"@
}

/// The query of the Daily Tracking database for the pages created on `date`.
pub fn today_query(client: &NotionClient, date: &str) -> (r: NotionRequest)
    ensures
        posted_by(r, *client),
        r.url@ == database_query_url(client.base_url@, client.daily_database_id@),
        r.body@ == today_query_body(date@),
{
    let mut body = String::from_str("{\"filter\":{\"and\":[{\"created_time\":{\"equals\":");
    let quoted = quote_json(date);
    body.append(quoted.as_str());
    body.append("},\"timestamp\":\"created_time\"}]},\"sorts\":[{\"direction\":\"descending\",\"property\":\"Date\"}]}");
    NotionRequest::post(client, query_url(client.base_url.as_str(), client.daily_database_id.as_str()), body)
}

/// The id of a page of the reply: a page is an object with a string `id`
/// (other members ignored), or the same one field written as an array.
pub open spec fn page_id(page: JsonTree) -> Option<Seq<char>> {
    match page {
        JsonTree::Array(fields) => if fields.len() == 1 { tree_str(fields[0]) } else { None },
        _ => match object_get(page, "id"@) {
            Some(t) => tree_str(t),
            None => None,
        },
    }
}

/// The `results` array of a reply: the reply an object with that member, or
/// its one field written as an array.
pub open spec fn reply_pages(doc: JsonTree) -> Option<Seq<JsonTree>> {
    match doc {
        JsonTree::Array(fields) => if fields.len() == 1 { tree_items(fields[0]) } else { None },
        _ => match object_get(doc, "results"@) {
            Some(t) => tree_items(t),
            None => None,
        },
    }
}

/// Whether every page of `pages` has an id.
pub open spec fn all_pages_have_ids(pages: Seq<JsonTree>) -> bool {
    forall|i: int| 0 <= i < pages.len() ==> (#[trigger] page_id(pages[i])) is Some
}

/// The message of a reply whose `results` hold something other than a page
/// with a string `id`.
pub open spec fn page_shape_message() -> Seq<char> {
    "a page of the reply has no string `id`"@
}

/// What `parse_today_id` gives for the text `json`: a JSON error where it is
/// no JSON, `MissingResultsArray` where it has no `results` array, a JSON
/// error where a result is not a page with an id, `NoDayEntry` where there
/// are no results, and otherwise the id of the first page.
pub open spec fn day_reply(json: Seq<char>, r: Result<String, HabitsError>) -> bool {
    match parsed_json(json) {
        Err(msg) => r matches Err(HabitsError::Json(m)) && m@ == msg,
        Ok(doc) => match reply_pages(doc) {
            None => r == Err::<String, HabitsError>(HabitsError::MissingResultsArray),
            Some(pages) => if !all_pages_have_ids(pages) {
                r matches Err(HabitsError::Json(m)) && m@ == page_shape_message()
            } else if pages.len() == 0 {
                r == Err::<String, HabitsError>(HabitsError::NoDayEntry)
            } else {
                r matches Ok(id) && page_id(pages[0]) == Some(id@)
            },
        },
    }
}

fn page_id_of(page: &serde_json::Value) -> (r: Option<&str>)
    ensures
        r matches Some(s) ==> page_id(json_tree(*page)) == Some(s@),
        r is None ==> page_id(json_tree(*page)) is None,
{
    match value_as_array(page) {
        Some(fields) => {
            if fields.len() == 1 {
                proof {
                    assert(json_trees(fields@)[0] == json_tree(fields@[0]));
                }
                value_as_str(&fields[0])
            } else {
                None
            }
        },
        None => match value_get(page, "id") {
            Some(id) => value_as_str(id),
            None => None,
        },
    }
}

fn results_of(doc: &serde_json::Value) -> (r: Option<&Vec<serde_json::Value>>)
    ensures
        r matches Some(a) ==> reply_pages(json_tree(*doc)) == Some(json_trees(a@)),
        r is None ==> reply_pages(json_tree(*doc)) is None,
{
    match value_as_array(doc) {
        Some(fields) => {
            if fields.len() == 1 {
                proof {
                    assert(json_trees(fields@)[0] == json_tree(fields@[0]));
                }
                value_as_array(&fields[0])
            } else {
                None
            }
        },
        None => match value_get(doc, "results") {
            Some(results) => value_as_array(results),
            None => None,
        },
    }
}

/// Reads a reply of the Daily Tracking database: the id of its first page,
/// which is today's Day page since the query sorts the most recent first.
pub fn parse_today_id(json: &str) -> (r: Result<String, HabitsError>)
    ensures
        day_reply(json@, r),
{
    let doc = match parse_json(json) {
        Ok(d) => d,
        Err(e) => return Err(HabitsError::Json(e)),
    };
    let pages = match results_of(&doc) {
        Some(p) => p,
        None => return Err(HabitsError::MissingResultsArray),
    };
    let ghost trees = json_trees(pages@);
    let mut first: Option<&str> = None;
    let mut i: usize = 0;
    while i < pages.len()
        invariant
            i <= pages.len(),
            trees == json_trees(pages@),
            reply_pages(json_tree(doc)) == Some(trees),
            parsed_json(json@) == Ok::<JsonTree, Seq<char>>(json_tree(doc)),
            forall|j: int| 0 <= j < i ==> (#[trigger] page_id(trees[j])) is Some,
            i == 0 <==> first is None,
            first matches Some(s) ==> page_id(trees[0]) == Some(s@),
        decreases pages.len() - i,
    {
        proof {
            assert(trees[i as int] == json_tree(pages@[i as int]));
        }
        match page_id_of(&pages[i]) {
            Some(id) => {
                if i == 0 {
                    first = Some(id);
                }
            },
            None => {
                proof {
                    assert(!(forall|j: int| 0 <= j < trees.len() ==> (#[trigger] page_id(trees[j])) is Some));
                }
                return Err(HabitsError::Json(String::from_str("a page of the reply has no string `id`")));
            },
        }
        i = i + 1;
    }
    match first {
        Some(id) => Ok(String::from_str(id)),
        None => Err(HabitsError::NoDayEntry),
    }
}

/// Reads the reply to the query for today's page: a failure status is an
/// error, and a successful body is read as `parse_today_id` reads it.
pub fn today_id_from_response(status: u16, body: String) -> (r: Result<String, HabitsError>)
    ensures
        !(200 <= status <= 299) ==> r == Err::<String, HabitsError>(HabitsError::NotionApi { status, body }),
        200 <= status <= 299 ==> day_reply(body@, r),
{
    let text = check_response(status, body)?;
    parse_today_id(text.as_str())
}

/// The query for today's page asks, in full, for the pages created on the
/// given date, in text that does not depend on the date.
pub proof fn lemma_today_query_holds_date() -> (parts: (Seq<char>, Seq<char>))
    ensures
        forall|date: Seq<char>| #[trigger] today_query_body(date)
            == parts.0 + "{\"created_time\":{\"equals\":"@ + json_string_literal(date) + parts.1,
{
    reveal_strlit("{\"filter\":{\"and\":[{\"created_time\":{\"equals\":");
    reveal_strlit("{\"filter\":{\"and\":[");
    reveal_strlit("{\"created_time\":{\"equals\":");
    let pre = "{\"filter\":{\"and\":["@;
    let post = "},\"timestamp\":\"created_time\"}]},\"sorts\":[{\"direction\":\"descending\",\"property\":\"Date\"}]}"@;
    assert("{\"filter\":{\"and\":[{\"created_time\":{\"equals\":"@ =~= "{\"filter\":{\"and\":["@ + "{\"created_time\":{\"equals\":"@);
    assert forall|date: Seq<char>| #[trigger] today_query_body(date)
        == pre + "{\"created_time\":{\"equals\":"@ + json_string_literal(date) + post by {
        assert(today_query_body(date)
            =~= pre + "{\"created_time\":{\"equals\":"@ + json_string_literal(date) + post);
    }
    (pre, post)
}

/// A page written as an object gives the string under its `id` member,
/// whatever other members (such as its parent) it has.
pub proof fn lemma_page_id_reads_id(page: Map<Seq<char>, JsonTree>, id: Seq<char>)
    requires
        page.dom().contains("id"@),
        page["id"@] == JsonTree::Str(id),
    ensures
        page_id(JsonTree::Object(page)) == Some(id),
{
}

/// A page written as an object gives an id only when its `id` member is a
/// string, and then gives that string.
pub proof fn lemma_page_id_needs_id(page: Map<Seq<char>, JsonTree>)
    ensures
        page_id(JsonTree::Object(page)) matches Some(id) ==> object_get(JsonTree::Object(page), "id"@) == Some(JsonTree::Str(id)),
{
}

/// For a reply that is an object whose `results` array holds objects with
/// string ids, today's page is the first of them: the result is its id, or
/// `NoDayEntry` when there are none.
pub proof fn lemma_today_id_is_first_page_id(
    json: Seq<char>,
    r: Result<String, HabitsError>,
    reply: Map<Seq<char>, JsonTree>,
    pages: Seq<Map<Seq<char>, JsonTree>>,
    ids: Seq<Seq<char>>,
)
    requires
        day_reply(json, r),
        parsed_json(json) == Ok::<JsonTree, Seq<char>>(JsonTree::Object(reply)),
        reply.dom().contains("results"@),
        reply["results"@] == JsonTree::Array(pages.map_values(|m: Map<Seq<char>, JsonTree>| JsonTree::Object(m))),
        ids.len() == pages.len(),
        forall|i: int| 0 <= i < pages.len() ==> (#[trigger] pages[i]).dom().contains("id"@)
            && pages[i]["id"@] == JsonTree::Str(ids[i]),
    ensures
        pages.len() == 0 ==> r == Err::<String, HabitsError>(HabitsError::NoDayEntry),
        pages.len() > 0 ==> (r matches Ok(id) && id@ == ids[0]),
{
    let trees = pages.map_values(|m: Map<Seq<char>, JsonTree>| JsonTree::Object(m));
    assert(reply_pages(JsonTree::Object(reply)) == Some(trees));
    assert forall|i: int| 0 <= i < trees.len() implies (#[trigger] page_id(trees[i])) is Some by {
        assert(trees[i] == JsonTree::Object(pages[i]));
    }
    if pages.len() > 0 {
        assert(trees[0] == JsonTree::Object(pages[0]));
    }
}

/// A reply without a `results` array is answered `MissingResultsArray`.
pub proof fn lemma_today_id_needs_results(json: Seq<char>, r: Result<String, HabitsError>, reply: Map<Seq<char>, JsonTree>)
    requires
        day_reply(json, r),
        parsed_json(json) == Ok::<JsonTree, Seq<char>>(JsonTree::Object(reply)),
        !(object_get(JsonTree::Object(reply), "results"@) matches Some(JsonTree::Array(_))),
    ensures
        r == Err::<String, HabitsError>(HabitsError::MissingResultsArray),
{
}

} // verus!
