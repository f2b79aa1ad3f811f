//! The fixed parts of the Notion API calls: endpoints, headers and the query.

use vstd::prelude::*;
use vstd::string::StringExecFns;

use crate::clock::local_date_text;
use crate::credentials::Credentials;
use crate::json::{json_string, json_string_of};
use crate::page::{page_body_text, PageRequest};

verus! {

/// The value of the `Notion-Version` header sent with every call.
pub const NOTION_VERSION: &'static str = "2022-06-28";

/// The endpoint that creates a page.
pub const PAGES_URL: &'static str = "https://api.notion.com/v1/pages";

/// The `Authorization` header for an integration secret.
pub open spec fn bearer_text(secret: Seq<char>) -> Seq<char> {
    "Bearer "@ + secret
}

/// The endpoint that queries the database `database_id`.
pub open spec fn query_url_text(database_id: Seq<char>) -> Seq<char> {
    "https://api.notion.com/v1/databases/"@ + database_id + "/query"@
}

/// The body of the query: the tasks planned for `today` or not planned at all,
/// and not yet done.
pub open spec fn query_body_text(today: Seq<char>) -> Seq<char> {
    "{\"filter\":{\"and\":[{\"or\":[{\"property\":\"実施予定日\",\"date\":{\"equals\":"@
        + json_string_of(today)
        + "}},{\"property\":\"実施予定日\",\"date\":{\"is_empty\":true}}]},{\"property\":\"進行中？\",\"status\":{\"does_not_equal\":\"完了\"}}]}}"@
}

/// The `Authorization` header for `secret`.
pub fn bearer(secret: &str) -> (r: String)
    ensures
        r@ == bearer_text(secret@),
{
    let mut out = String::from_str("Bearer ");
    out.append(secret);
    out
}

/// The query endpoint of the database `database_id`.
pub fn query_url(database_id: &str) -> (r: String)
    ensures
        r@ == query_url_text(database_id@),
{
    let mut out = String::from_str("https://api.notion.com/v1/databases/");
    out.append(database_id);
    out.append("/query");
    out
}

/// The JSON body of the query for the date `today`.
pub fn query_body(today: &str) -> (r: String)
    ensures
        r@ == query_body_text(today@),
{
    let mut out = String::from_str(
        "{\"filter\":{\"and\":[{\"or\":[{\"property\":\"実施予定日\",\"date\":{\"equals\":",
    );
    let quoted = json_string(today);
    out.append(quoted.as_str());
    out.append(
        "}},{\"property\":\"実施予定日\",\"date\":{\"is_empty\":true}}]},{\"property\":\"進行中？\",\"status\":{\"does_not_equal\":\"完了\"}}]}}",
    );
    out
}

/// The `filter_properties` parameters of the query: the ids of the four columns
/// that the tally reads (progress, planned date, classification, task type), so
/// that the reply carries no others.
pub fn field_filters() -> (r: Vec<(&'static str, &'static str)>)
    ensures
        r@.len() == 4,
        forall|i: int| 0 <= i < 4 ==> #[trigger] r@[i].0@ == "filter_properties"@,
        r@[0].1@ == ":>Jm"@,
        r@[1].1@ == "`|qV"@,
        r@[2].1@ == "e=P>"@,
        r@[3].1@ == "MrBR"@,
{
    vec![
        ("filter_properties", ":>Jm"),
        ("filter_properties", "`|qV"),
        ("filter_properties", "e=P>"),
        ("filter_properties", "MrBR"),
    ]
}

/// A POST call to the API: where it goes, its `Authorization` header and its
/// JSON body. Every call also carries `Notion-Version: NOTION_VERSION`.
#[derive(Clone, Debug)]
pub struct ApiRequest {
    pub url: String,
    pub authorization: String,
    pub body: String,
}

/// The call that creates `page` in the database of `credentials`.
pub fn create_request(credentials: &Credentials, page: &PageRequest) -> (r: ApiRequest)
    ensures
        r.url@ == PAGES_URL@,
        r.authorization@ == bearer_text(credentials.secret@),
        r.body@ == page_body_text(credentials.database_id@, *page),
{
    ApiRequest {
        url: String::from_str(PAGES_URL),
        authorization: bearer(credentials.secret.as_str()),
        body: page.body(credentials.database_id.as_str()),
    }
}

/// The query of the open tasks of the database of `credentials` on the date
/// `today`. It is sent with the parameters of `field_filters`.
pub fn query_request_on(credentials: &Credentials, today: &str) -> (r: ApiRequest)
    ensures
        r.url@ == query_url_text(credentials.database_id@),
        r.authorization@ == bearer_text(credentials.secret@),
        r.body@ == query_body_text(today@),
{
    ApiRequest {
        url: query_url(credentials.database_id.as_str()),
        authorization: bearer(credentials.secret.as_str()),
        body: query_body(today),
    }
}

/// The query of the open tasks of the database of `credentials` on today's
/// local date.
pub fn query_request(credentials: &Credentials) -> (r: ApiRequest)
    ensures
        r.url@ == query_url_text(credentials.database_id@),
        r.authorization@ == bearer_text(credentials.secret@),
        exists|today: Seq<char>| r.body@ == #[trigger] query_body_text(today),
{
    let today = local_date_text();
    query_request_on(credentials, today.as_str())
}

} // verus!
