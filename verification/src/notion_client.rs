//! Where and how the library talks to Notion: the credentials and database
//! ids of a workspace, and the requests built from them.

use vstd::prelude::*;

verus! {

/// The credentials and the ids of the databases and pages a run works on.
/// Requests are built from it rather than from global configuration, so that
/// another workspace (or a test server) can stand in.
pub struct NotionClient {
    pub base_url: String,
    pub token: String,
    pub version: String,
    pub daily_database_id: String,
    pub habits_master_database_id: String,
    pub habits_database_id: String,
    pub daily_stats_page_id: String,
}

impl NotionClient {
    /// A client for the given API base URL, credentials and ids.
    pub fn new(
        base_url: &str,
        token: &str,
        version: &str,
        daily_database_id: &str,
        habits_master_database_id: &str,
        habits_database_id: &str,
        daily_stats_page_id: &str,
    ) -> (c: Self)
        ensures
            c.base_url@ == base_url@,
            c.token@ == token@,
            c.version@ == version@,
            c.daily_database_id@ == daily_database_id@,
            c.habits_master_database_id@ == habits_master_database_id@,
            c.habits_database_id@ == habits_database_id@,
            c.daily_stats_page_id@ == daily_stats_page_id@,
    {
        NotionClient {
            base_url: String::from_str(base_url),
            token: String::from_str(token),
            version: String::from_str(version),
            daily_database_id: String::from_str(daily_database_id),
            habits_master_database_id: String::from_str(habits_master_database_id),
            habits_database_id: String::from_str(habits_database_id),
            daily_stats_page_id: String::from_str(daily_stats_page_id),
        }
    }
}

/// The HTTP methods the library uses: every Notion call it makes is a POST.
#[derive(Debug, PartialEq, Eq, Structural)]
pub enum HttpMethod {
    Post,
}

/// A request to Notion: method, URL, headers and JSON body.
pub struct NotionRequest {
    pub method: HttpMethod,
    pub url: String,
    pub headers: Vec<(String, String)>,
    pub body: String,
}

/// The views of a vector of string pairs.
pub open spec fn pairs_view(pairs: Seq<(String, String)>) -> Seq<(Seq<char>, Seq<char>)> {
    pairs.map_values(|p: (String, String)| (p.0@, p.1@))
}

/// The headers of every Notion request: the token as the `Authorization`
/// value, verbatim; the API version; and the JSON content type.
pub open spec fn notion_headers(token: Seq<char>, version: Seq<char>) -> Seq<(Seq<char>, Seq<char>)> {
    seq![
        ("Authorization"@, token),
        ("Notion-Version"@, version),
        ("Content-Type"@, "application/json"@),
    ]
}

/// Whether `request` is a POST of `client`: its method and headers.
pub open spec fn posted_by(request: NotionRequest, client: NotionClient) -> bool {
    &&& request.method == HttpMethod::Post
    &&& pairs_view(request.headers@) == notion_headers(client.token@, client.version@)
}

impl NotionRequest {
    /// A POST of `body` to `url` with the client's credentials.
    pub fn post(client: &NotionClient, url: String, body: String) -> (r: Self)
        ensures
            posted_by(r, *client),
            r.url == url,
            r.body == body,
    {
        let mut headers: Vec<(String, String)> = Vec::new();
        headers.push((String::from_str("Authorization"), client.token.clone()));
        headers.push((String::from_str("Notion-Version"), client.version.clone()));
        headers.push((String::from_str("Content-Type"), String::from_str("application/json")));
        proof {
            assert(pairs_view(headers@) =~= notion_headers(client.token@, client.version@));
        }
        NotionRequest { method: HttpMethod::Post, url, headers, body }
    }
}

/// The URL that queries a database.
pub open spec fn database_query_url(base_url: Seq<char>, database_id: Seq<char>) -> Seq<char> {
    base_url + "/databases/"@ + database_id + "/query"@
}

/// The URL that creates pages.
pub open spec fn pages_url(base_url: Seq<char>) -> Seq<char> {
    base_url + "/pages"@
}

/// Builds the URL that queries the database `database_id`.
pub fn query_url(base_url: &str, database_id: &str) -> (r: String)
    ensures
        r@ == database_query_url(base_url@, database_id@),
{
    let mut s = String::from_str(base_url);
    s.append("/databases/");
    s.append(database_id);
    s.append("/query");
    s
}

/// Builds the URL that creates pages.
pub fn create_page_url(base_url: &str) -> (r: String)
    ensures
        r@ == pages_url(base_url@),
{
    let mut s = String::from_str(base_url);
    s.append("/pages");
    s
}

/// Every request carries the client's token, verbatim, as its only
/// `Authorization` value, and the client's API version as its only
/// `Notion-Version` value.
pub proof fn lemma_headers_carry_credentials(token: Seq<char>, version: Seq<char>)
    ensures
        notion_headers(token, version).contains(("Authorization"@, token)),
        notion_headers(token, version).contains(("Notion-Version"@, version)),
        forall|i: int| 0 <= i < notion_headers(token, version).len()
            && (#[trigger] notion_headers(token, version)[i]).0 == "Authorization"@
            ==> notion_headers(token, version)[i].1 == token,
        forall|i: int| 0 <= i < notion_headers(token, version).len()
            && (#[trigger] notion_headers(token, version)[i]).0 == "Notion-Version"@
            ==> notion_headers(token, version)[i].1 == version,
{
    reveal_strlit("Authorization");
    reveal_strlit("Notion-Version");
    reveal_strlit("Content-Type");
    let h = notion_headers(token, version);
    assert(h[0] == ("Authorization"@, token));
    assert(h[1] == ("Notion-Version"@, version));
    assert("Authorization"@ != "Notion-Version"@) by {
        assert("Authorization"@.len() != "Notion-Version"@.len());
    }
    assert("Content-Type"@ != "Authorization"@) by {
        assert("Content-Type"@[0] != "Authorization"@[0]);
    }
    assert("Content-Type"@ != "Notion-Version"@) by {
        assert("Content-Type"@[0] != "Notion-Version"@[0]);
    }
}

/// The URL that queries a database holds the database's id in full, after
/// `/databases/`, in text that does not depend on it.
pub proof fn lemma_query_url_holds_database_id(base_url: Seq<char>) -> (parts: (Seq<char>, Seq<char>))
    ensures
        forall|id: Seq<char>| #[trigger] database_query_url(base_url, id) == parts.0 + "/databases/"@ + id + parts.1,
{
    let pre = base_url;
    let post = "/query"@;
    assert forall|id: Seq<char>| #[trigger] database_query_url(base_url, id) == pre + "/databases/"@ + id + post by {
        assert(database_query_url(base_url, id) =~= pre + "/databases/"@ + id + post);
    }
    (pre, post)
}

} // verus!
