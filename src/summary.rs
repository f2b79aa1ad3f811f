//! The tally of open tasks that follows each new entry.

use vstd::prelude::*;
use vstd::string::StringExecFns;

use crate::clock::local_date_text;
use crate::json::{elements, elements_of, member, member_of, path_text, property_text};
use crate::text::{decimal_text, push_decimal};

verus! {

/// The three columns of a task that the tally reads. A column that is missing
/// from the reply, or holds no text, reads as the empty string.
#[derive(Clone, Debug)]
pub struct TaskRecord {
    /// The task type (`タスク種別`).
    pub task_type: String,
    /// The planned date (`実施予定日`), as `YYYY-MM-DD`.
    pub due_date: String,
    /// `Private` or `Work` (`Private?`).
    pub classification: String,
}

/// The four counters of a tally.
#[derive(Clone, Copy, Debug, PartialEq, Eq, Structural)]
pub struct Summary {
    /// Tasks planned for today and filed under `Work`.
    pub work_today: usize,
    /// Tasks planned for today and filed under `Private`.
    pub private_today: usize,
    /// Tasks not planned for today whose type is the next-action list.
    pub next_actions: usize,
    /// Tasks not planned for today that have no type.
    pub untyped: usize,
}

/// The counters of a tally as unbounded numbers.
pub struct Tally {
    pub work_today: nat,
    pub private_today: nat,
    pub next_actions: nat,
    pub untyped: nat,
}

impl View for Summary {
    type V = Tally;

    open spec fn view(&self) -> Tally {
        Tally {
            work_today: self.work_today as nat,
            private_today: self.private_today as nat,
            next_actions: self.next_actions as nat,
            untyped: self.untyped as nat,
        }
    }
}

/// The task type of the next-action list.
pub open spec fn next_action_label() -> Seq<char> {
    "▶️ 次に取るべき行動リスト"@
}

/// The tally after one more record. A task planned for today counts by its
/// classification, any other by its type; one that fits no counter is left out.
pub open spec fn count_record(t: Tally, r: TaskRecord, today: Seq<char>) -> Tally {
    if r.due_date@ == today {
        if r.classification@ == "Work"@ {
            Tally { work_today: t.work_today + 1, ..t }
        } else if r.classification@ == "Private"@ {
            Tally { private_today: t.private_today + 1, ..t }
        } else {
            t
        }
    } else if r.task_type@ == next_action_label() {
        Tally { next_actions: t.next_actions + 1, ..t }
    } else if r.task_type@.len() == 0 {
        Tally { untyped: t.untyped + 1, ..t }
    } else {
        t
    }
}

/// The tally of `records` on the date `today`.
pub open spec fn tally(records: Seq<TaskRecord>, today: Seq<char>) -> Tally
    decreases records.len(),
{
    if records.len() == 0 {
        Tally { work_today: 0, private_today: 0, next_actions: 0, untyped: 0 }
    } else {
        count_record(tally(records.drop_last(), today), records.last(), today)
    }
}

/// The sum of the four counters.
pub open spec fn total(t: Tally) -> nat {
    t.work_today + t.private_today + t.next_actions + t.untyped
}

/// The two lines printed for a tally.
pub open spec fn summary_text(t: Tally) -> Seq<char> {
    "今日のタスク: Work "@ + decimal_text(t.work_today) + "件, Private "@ + decimal_text(
        t.private_today,
    ) + "件\n未定義のタスク: 次にとるべき行動リスト "@ + decimal_text(t.next_actions)
        + "件, タスク種別なし "@ + decimal_text(t.untyped) + "件"@
}

/// Counts `records` against the date `today`.
pub fn summarize_records(records: &Vec<TaskRecord>, today: &String) -> (r: Summary)
    ensures
        r@ == tally(records@, today@),
{
    let work = String::from_str("Work");
    let private = String::from_str("Private");
    let next_action = String::from_str("▶️ 次に取るべき行動リスト");
    let empty = String::new();
    let mut s = Summary { work_today: 0, private_today: 0, next_actions: 0, untyped: 0 };
    let mut i: usize = 0;
    while i < records.len()
        invariant
            i <= records@.len(),
            work@ == "Work"@,
            private@ == "Private"@,
            next_action@ == next_action_label(),
            empty@ == Seq::<char>::empty(),
            s@ == tally(records@.subrange(0, i as int), today@),
            total(s@) <= i,
        decreases records@.len() - i,
    {
        let r = &records[i];
        let ghost before = s@;
        assert(records@.subrange(0, i + 1).drop_last() =~= records@.subrange(0, i as int));
        assert(records@.subrange(0, i + 1).last() == *r);
        if r.due_date == *today {
            if r.classification == work {
                s.work_today = s.work_today + 1;
            } else if r.classification == private {
                s.private_today = s.private_today + 1;
            }
        } else if r.task_type == next_action {
            s.next_actions = s.next_actions + 1;
        } else if r.task_type == empty {
            s.untyped = s.untyped + 1;
        } else {
            assert(r.task_type@.len() != 0) by {
                if r.task_type@.len() == 0 {
                    assert(r.task_type@ =~= empty@);
                }
            }
        }
        assert(s@ == count_record(before, *r, today@));
        i = i + 1;
    }
    assert(records@.subrange(0, i as int) =~= records@);
    s
}

impl Summary {
    /// The two lines printed for this tally.
    pub fn text(&self) -> (r: String)
        ensures
            r@ == summary_text(self@),
    {
        let mut out = String::from_str("今日のタスク: Work ");
        push_decimal(&mut out, self.work_today);
        out.append("件, Private ");
        push_decimal(&mut out, self.private_today);
        out.append("件\n未定義のタスク: 次にとるべき行動リスト ");
        push_decimal(&mut out, self.next_actions);
        out.append("件, タスク種別なし ");
        push_decimal(&mut out, self.untyped);
        out.append("件");
        out
    }
}

/// Whether `r` holds the three tallied columns of the task `task`.
pub open spec fn reads_task(r: TaskRecord, task: serde_json::Value) -> bool {
    &&& r.task_type@ == path_text(task, "タスク種別"@, "select"@, "name"@)
    &&& r.due_date@ == path_text(task, "実施予定日"@, "date"@, "start"@)
    &&& r.classification@ == path_text(task, "Private?"@, "select"@, "name"@)
}

/// The tasks of a query reply: the elements of its `results` array, none where
/// `results` is missing or is no array.
pub open spec fn reply_tasks(reply: serde_json::Value) -> Seq<serde_json::Value> {
    match member_of(reply, "results"@) {
        Some(results) => match elements_of(results) {
            Some(tasks) => tasks,
            None => Seq::empty(),
        },
        None => Seq::empty(),
    }
}

/// Whether `records` holds, in order, the tallied columns of each task of `reply`.
pub open spec fn reply_has(records: Seq<TaskRecord>, reply: serde_json::Value) -> bool {
    &&& records.len() == reply_tasks(reply).len()
    &&& forall|i: int| 0 <= i < records.len() ==> reads_task(#[trigger] records[i], reply_tasks(reply)[i])
}

/// Reads the three tallied columns of one task of a query reply.
pub fn record_of(task: &serde_json::Value) -> (r: TaskRecord)
    ensures
        reads_task(r, *task),
{
    TaskRecord {
        task_type: property_text(task, "タスク種別", "select", "name"),
        due_date: property_text(task, "実施予定日", "date", "start"),
        classification: property_text(task, "Private?", "select", "name"),
    }
}

/// Reads every task under `results` of a query reply; none where `results` is
/// missing or is no array.
pub fn records_of(reply: &serde_json::Value) -> (r: Vec<TaskRecord>)
    ensures
        reply_has(r@, *reply),
{
    let mut out: Vec<TaskRecord> = Vec::new();
    match member(reply, "results") {
        Some(results) => match elements(results) {
            Some(tasks) => {
                let mut i: usize = 0;
                while i < tasks.len()
                    invariant
                        i <= tasks@.len(),
                        out@.len() == i,
                        reply_tasks(*reply) == tasks@,
                        forall|j: int| 0 <= j < i ==> reads_task(#[trigger] out@[j], tasks@[j]),
                    decreases tasks@.len() - i,
                {
                    out.push(record_of(&tasks[i]));
                    i = i + 1;
                }
            },
            None => {},
        },
        None => {},
    }
    out
}

/// The printed tally of the tasks of a query reply, against today's local date.
pub fn summarize_tasks(query_results: &serde_json::Value) -> (r: String)
    ensures
        exists|records: Seq<TaskRecord>, today: Seq<char>|
            reply_has(records, *query_results) && r@ == summary_text(
                #[trigger] tally(records, today),
            ),
{
    let today = local_date_text();
    let records = records_of(query_results);
    let r = summarize_records(&records, &today).text();
    assert(r@ == summary_text(tally(records@, today@)));
    r
}

} // verus!
