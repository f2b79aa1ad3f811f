//! The task entry that the command files: its fields, and the body of the call
//! that creates it.

use vstd::prelude::*;
use vstd::string::StringExecFns;

use crate::clock::local_date_text;
use crate::json::{json_string, json_string_of};

verus! {

/// Where a task is filed, the `Private?` select column.
#[derive(Clone, Copy, Debug, PartialEq, Eq, Structural)]
pub enum Classification {
    Private,
    Work,
}

/// The classification asked for by the private flag.
pub open spec fn classification_for(private: bool) -> Classification {
    if private {
        Classification::Private
    } else {
        Classification::Work
    }
}

/// The option name of a classification in the `Private?` column.
pub open spec fn label_text(c: Classification) -> Seq<char> {
    match c {
        Classification::Private => "Private"@,
        Classification::Work => "Work"@,
    }
}

impl Classification {
    /// `Private` where the private flag is set, else `Work`.
    pub fn from_flag(private: bool) -> (r: Classification)
        ensures
            r == classification_for(private),
    {
        if private {
            Classification::Private
        } else {
            Classification::Work
        }
    }

    /// The option name of this classification.
    pub fn label(&self) -> (r: &'static str)
        ensures
            r@ == label_text(*self),
    {
        match self {
            Classification::Private => "Private",
            Classification::Work => "Work",
        }
    }
}

/// A task to create: its title, its classification and, where asked, its
/// planned date as `YYYY-MM-DD`.
#[derive(Clone, Debug)]
pub struct PageRequest {
    pub title: String,
    pub classification: Classification,
    pub due_date: Option<String>,
}

/// The planned-date member of the properties, or nothing.
pub open spec fn due_member_text(due: Option<String>) -> Seq<char> {
    match due {
        Some(d) => ",\"実施予定日\":{\"date\":{\"start\":"@ + json_string_of(d@) + "}}"@,
        None => Seq::empty(),
    }
}

/// The body that creates `page` in the database `database_id`.
pub open spec fn page_body_text(database_id: Seq<char>, page: PageRequest) -> Seq<char> {
    "{\"parent\":{\"database_id\":"@ + json_string_of(database_id)
        + "},\"properties\":{\"名前\":{\"title\":[{\"text\":{\"content\":"@ + json_string_of(
        page.title@,
    ) + "}}]},\"Private?\":{\"select\":{\"name\":\""@ + label_text(page.classification)
        + "\"}}"@ + due_member_text(page.due_date) + "}}"@
}

impl PageRequest {
    /// The task titled `title`, filed as private or as work, planned for
    /// `today` where `today_flag` is set and otherwise undated.
    pub fn dated(title: String, private: bool, today_flag: bool, today: String) -> (r: PageRequest)
        ensures
            r.title == title,
            r.classification == classification_for(private),
            r.due_date == (if today_flag {
                Some(today)
            } else {
                None
            }),
    {
        let due_date = if today_flag {
            Some(today)
        } else {
            None
        };
        PageRequest { title, classification: Classification::from_flag(private), due_date }
    }

    /// The task titled `title`, filed as private or as work, planned for
    /// today's local date where `today_flag` is set and otherwise undated.
    pub fn new(title: String, private: bool, today_flag: bool) -> (r: PageRequest)
        ensures
            r.title == title,
            r.classification == classification_for(private),
            r.due_date is Some <==> today_flag,
    {
        if today_flag {
            PageRequest::dated(title, private, true, local_date_text())
        } else {
            PageRequest::dated(title, private, false, String::new())
        }
    }

    /// The JSON payload of the page-creation call for this entry in `database_id`.
    pub fn body(&self, database_id: &str) -> (r: String)
        ensures
            r@ == page_body_text(database_id@, *self),
    {
        let mut out = String::from_str("{\"parent\":{\"database_id\":");
        let id = json_string(database_id);
        out.append(id.as_str());
        out.append("},\"properties\":{\"名前\":{\"title\":[{\"text\":{\"content\":");
        let title = json_string(self.title.as_str());
        out.append(title.as_str());
        out.append("}}]},\"Private?\":{\"select\":{\"name\":\"");
        out.append(self.classification.label());
        out.append("\"}}");
        match &self.due_date {
            Some(d) => {
                out.append(",\"実施予定日\":{\"date\":{\"start\":");
                let date = json_string(d.as_str());
                out.append(date.as_str());
                out.append("}}");
            },
            None => {},
        }
        out.append("}}");
        out
    }
}

} // verus!
