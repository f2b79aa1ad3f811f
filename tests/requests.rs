use inbox::api::{
    bearer, create_request, field_filters, query_body, query_request, query_request_on,
    query_url, NOTION_VERSION, PAGES_URL,
};
use inbox::credentials::{missing_credentials_message, Credentials, CREDENTIALS_FILE};
use inbox::page::{Classification, PageRequest};

fn credentials() -> Credentials {
    Credentials { database_id: "db-123".to_string(), secret: "s3cr3t".to_string() }
}

fn local_today() -> String {
    chrono::Local::now().format("%Y-%m-%d").to_string()
}

#[test]
fn private_flag_selects_private() {
    let page = PageRequest::dated("buy milk".to_string(), true, false, String::new());
    assert_eq!(page.classification, Classification::Private);
    assert_eq!(page.classification.label(), "Private");
    assert!(page.body("db").contains("\"Private?\":{\"select\":{\"name\":\"Private\"}}"));
}

#[test]
fn no_private_flag_selects_work() {
    let page = PageRequest::dated("buy milk".to_string(), false, false, String::new());
    assert_eq!(page.classification, Classification::Work);
    assert_eq!(page.classification.label(), "Work");
    assert!(page.body("db").contains("\"Private?\":{\"select\":{\"name\":\"Work\"}}"));
}

#[test]
fn every_flag_combination_classifies_by_private_flag() {
    for private in [false, true] {
        for today in [false, true] {
            let page = PageRequest::new("t".to_string(), private, today);
            let expected = if private { Classification::Private } else { Classification::Work };
            assert_eq!(page.classification, expected);
            assert_eq!(page.title, "t");
        }
    }
}

#[test]
fn today_flag_adds_local_date() {
    let before = local_today();
    let page = PageRequest::new("t".to_string(), false, true);
    let after = local_today();
    let due = page.due_date.clone().expect("a date");
    assert!(due == before || due == after);
    assert_eq!(due.len(), 10);
    let bytes = due.as_bytes();
    assert_eq!(bytes[4], b'-');
    assert_eq!(bytes[7], b'-');
    assert!(page.body("db").contains(&format!("\"実施予定日\":{{\"date\":{{\"start\":\"{}\"}}}}", due)));
}

#[test]
fn no_today_flag_leaves_date_out() {
    let page = PageRequest::new("t".to_string(), true, false);
    assert_eq!(page.due_date, None);
    assert!(!page.body("db").contains("実施予定日"));
}

#[test]
fn dated_page_body_is_exact() {
    let page = PageRequest::dated("say \"hi\"".to_string(), false, true, "2024-05-01".to_string());
    assert_eq!(
        page.body("db-1"),
        "{\"parent\":{\"database_id\":\"db-1\"},\"properties\":{\"名前\":{\"title\":[{\"text\":{\"content\":\"say \\\"hi\\\"\"}}]},\"Private?\":{\"select\":{\"name\":\"Work\"}},\"実施予定日\":{\"date\":{\"start\":\"2024-05-01\"}}}}"
    );
}

#[test]
fn page_body_is_valid_json() {
    let page = PageRequest::dated("a\\b\nc".to_string(), true, true, "2024-05-01".to_string());
    let v: serde_json::Value = serde_json::from_str(&page.body("id")).expect("json");
    assert_eq!(v["parent"]["database_id"], "id");
    assert_eq!(v["properties"]["名前"]["title"][0]["text"]["content"], "a\\b\nc");
    assert_eq!(v["properties"]["Private?"]["select"]["name"], "Private");
    assert_eq!(v["properties"]["実施予定日"]["date"]["start"], "2024-05-01");
}

#[test]
fn empty_title_is_passed_through() {
    let page = PageRequest::dated(String::new(), false, false, String::new());
    let v: serde_json::Value = serde_json::from_str(&page.body("id")).expect("json");
    assert_eq!(v["properties"]["名前"]["title"][0]["text"]["content"], "");
}

#[test]
fn bearer_header() {
    assert_eq!(bearer("abc"), "Bearer abc");
}

#[test]
fn query_url_names_database() {
    assert_eq!(query_url("db-9"), "https://api.notion.com/v1/databases/db-9/query");
}

#[test]
fn query_body_filters_today_and_open() {
    let body = query_body("2024-05-01");
    let v: serde_json::Value = serde_json::from_str(&body).expect("json");
    let and = &v["filter"]["and"];
    assert_eq!(and[0]["or"][0]["property"], "実施予定日");
    assert_eq!(and[0]["or"][0]["date"]["equals"], "2024-05-01");
    assert_eq!(and[0]["or"][1]["date"]["is_empty"], true);
    assert_eq!(and[1]["property"], "進行中？");
    assert_eq!(and[1]["status"]["does_not_equal"], "完了");
}

#[test]
fn query_fields_are_four() {
    let f = field_filters();
    assert_eq!(f.len(), 4);
    assert!(f.iter().all(|(k, _)| *k == "filter_properties"));
    assert_eq!(f[0].1, ":>Jm");
    assert_eq!(f[1].1, "`|qV");
    assert_eq!(f[2].1, "e=P>");
    assert_eq!(f[3].1, "MrBR");
}

#[test]
fn create_request_is_assembled() {
    let page = PageRequest::dated("x".to_string(), true, false, String::new());
    let r = create_request(&credentials(), &page);
    assert_eq!(r.url, PAGES_URL);
    assert_eq!(r.url, "https://api.notion.com/v1/pages");
    assert_eq!(r.authorization, "Bearer s3cr3t");
    assert_eq!(r.body, page.body("db-123"));
    assert_eq!(NOTION_VERSION, "2022-06-28");
}

#[test]
fn query_request_is_assembled() {
    let r = query_request_on(&credentials(), "2024-01-02");
    assert_eq!(r.url, "https://api.notion.com/v1/databases/db-123/query");
    assert_eq!(r.authorization, "Bearer s3cr3t");
    assert_eq!(r.body, query_body("2024-01-02"));
}

#[test]
fn query_request_uses_local_date() {
    let before = local_today();
    let r = query_request(&credentials());
    let after = local_today();
    assert!(r.body == query_body(&before) || r.body == query_body(&after));
}

#[test]
fn identical_requests_are_identical_bodies() {
    let a = create_request(&credentials(), &PageRequest::dated("x".to_string(), false, false, String::new()));
    let b = create_request(&credentials(), &PageRequest::dated("x".to_string(), false, false, String::new()));
    assert_eq!(a.body, b.body);
}

#[test]
fn missing_credentials_message_shows_format() {
    let m = missing_credentials_message("/opt/bin");
    assert!(m.starts_with("'credential.json' not found in '/opt/bin'."));
    assert!(m.contains("\"database_id\": \"your-database-id\""));
    assert!(m.contains("\"secret\": \"your-integration-secret\""));
    assert_eq!(CREDENTIALS_FILE, "credential.json");
}
