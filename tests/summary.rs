use inbox::summary::{record_of, records_of, summarize_records, summarize_tasks, Summary, TaskRecord};
use inbox::text::decimal;

const NEXT: &str = "▶️ 次に取るべき行動リスト";

fn rec(task_type: &str, due_date: &str, classification: &str) -> TaskRecord {
    TaskRecord {
        task_type: task_type.to_string(),
        due_date: due_date.to_string(),
        classification: classification.to_string(),
    }
}

fn counts(work_today: usize, private_today: usize, next_actions: usize, untyped: usize) -> Summary {
    Summary { work_today, private_today, next_actions, untyped }
}

#[test]
fn three_work_one_private_today() {
    let today = "2024-05-01".to_string();
    let records = vec![
        rec("", "2024-05-01", "Work"),
        rec(NEXT, "2024-05-01", "Work"),
        rec("other", "2024-05-01", "Work"),
        rec("", "2024-05-01", "Private"),
    ];
    assert_eq!(summarize_records(&records, &today), counts(3, 1, 0, 0));
}

#[test]
fn untyped_record_not_today() {
    let today = "2024-05-01".to_string();
    let records = vec![rec("", "2024-04-30", "Work")];
    assert_eq!(summarize_records(&records, &today), counts(0, 0, 0, 1));
}

#[test]
fn undated_records_count_by_type() {
    let today = "2024-05-01".to_string();
    let records = vec![rec(NEXT, "", "Work"), rec(NEXT, "", ""), rec("", "", "Private"), rec("someday", "", "Work")];
    assert_eq!(summarize_records(&records, &today), counts(0, 0, 2, 1));
}

#[test]
fn unmatched_records_are_dropped() {
    let today = "2024-05-01".to_string();
    let records = vec![rec("", "2024-05-01", ""), rec("someday", "2024-05-02", "Work")];
    assert_eq!(summarize_records(&records, &today), counts(0, 0, 0, 0));
}

#[test]
fn no_records_count_nothing() {
    assert_eq!(summarize_records(&Vec::new(), &"2024-05-01".to_string()), counts(0, 0, 0, 0));
}

#[test]
fn summary_text_is_exact() {
    assert_eq!(
        counts(3, 1, 12, 0).text(),
        "今日のタスク: Work 3件, Private 1件\n未定義のタスク: 次にとるべき行動リスト 12件, タスク種別なし 0件"
    );
}

#[test]
fn decimal_forms() {
    assert_eq!(decimal(0), "0");
    assert_eq!(decimal(7), "7");
    assert_eq!(decimal(10), "10");
    assert_eq!(decimal(1234567890), "1234567890");
    assert_eq!(decimal(usize::MAX), usize::MAX.to_string());
}

fn reply(today: &str) -> serde_json::Value {
    let text = format!(
        r#"{{"results":[
            {{"properties":{{"タスク種別":{{"select":null}},"実施予定日":{{"date":{{"start":"{t}"}}}},"Private?":{{"select":{{"name":"Work"}}}}}}}},
            {{"properties":{{"タスク種別":{{"select":{{"name":"{n}"}}}},"実施予定日":{{"date":null}},"Private?":{{"select":{{"name":"Private"}}}}}}}},
            {{"properties":{{"実施予定日":{{"date":{{"start":"1999-01-01"}}}}}}}},
            {{"id":"no properties"}}
        ]}}"#,
        t = today,
        n = NEXT
    );
    serde_json::from_str(&text).expect("json")
}

#[test]
fn records_read_leniently() {
    let v = reply("2024-05-01");
    let records = records_of(&v);
    assert_eq!(records.len(), 4);
    assert_eq!(records[0].task_type, "");
    assert_eq!(records[0].due_date, "2024-05-01");
    assert_eq!(records[0].classification, "Work");
    assert_eq!(records[1].task_type, NEXT);
    assert_eq!(records[1].due_date, "");
    assert_eq!(records[1].classification, "Private");
    assert_eq!(records[2].due_date, "1999-01-01");
    assert_eq!(records[3].task_type, "");
    let r = record_of(&v["results"][1]);
    assert_eq!(r.task_type, NEXT);
}

#[test]
fn reply_without_results_has_no_records() {
    let v: serde_json::Value = serde_json::from_str(r#"{"object":"error"}"#).expect("json");
    assert_eq!(records_of(&v).len(), 0);
    let v: serde_json::Value = serde_json::from_str(r#"{"results":{}}"#).expect("json");
    assert_eq!(records_of(&v).len(), 0);
}

#[test]
fn summarize_reply_of_today() {
    let today = chrono::Local::now().format("%Y-%m-%d").to_string();
    let text = summarize_tasks(&reply(&today));
    let expected = counts(1, 0, 1, 2).text();
    let again = chrono::Local::now().format("%Y-%m-%d").to_string();
    if today == again {
        assert_eq!(text, expected);
    }
}
