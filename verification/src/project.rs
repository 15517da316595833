//! The project record the registry persists, and the raw row form it is
//! stored under.

use vstd::prelude::*;

use crate::languages::{language_name_spec, ProgrammingLanguage};

verus! {

/// Spec-level contents of one stored row: the language under its stored text
/// name, the timestamps as whole seconds.
pub ghost struct RecordModel {
    pub language: Seq<char>,
    pub name: Seq<char>,
    pub path: Seq<char>,
    pub last_opened: Option<int>,
    pub created_on: int,
}

/// One row of the registry table, exactly as persisted: the language as its
/// stored text name, timestamps as seconds since the Unix epoch.
#[derive(Debug)]
pub struct ProjectRecord {
    pub language: String,
    pub name: String,
    pub path: String,
    pub last_opened: Option<i64>,
    pub created_on: i64,
}

impl ProjectRecord {
    pub open spec fn model(self) -> RecordModel {
        RecordModel {
            language: self.language@,
            name: self.name@,
            path: self.path@,
            last_opened: match self.last_opened {
                Some(t) => Some(t as int),
                None => None,
            },
            created_on: self.created_on as int,
        }
    }
}

/// A previously created or opened project. `last_opened` stays absent until
/// the project is opened through the gallery; `created_on` is set once, at
/// construction.
#[derive(Debug)]
pub struct Project {
    pub type_lang: ProgrammingLanguage,
    pub name: String,
    pub path: String,
    pub last_opened: Option<i64>,
    pub created_on: i64,
}

impl Project {
    /// When a last-opened time is present it does not precede creation.
    pub open spec fn wf(self) -> bool {
        self.last_opened matches Some(t) ==> self.created_on <= t
    }

    /// The row under which this project is persisted.
    pub open spec fn record_model(self) -> RecordModel {
        RecordModel {
            language: language_name_spec(self.type_lang),
            name: self.name@,
            path: self.path@,
            last_opened: match self.last_opened {
                Some(t) => Some(t as int),
                None => None,
            },
            created_on: self.created_on as int,
        }
    }

    /// A record for a project just created at `path`: not opened yet, created
    /// at the current wall-clock time.
    pub fn new(type_lang: ProgrammingLanguage, name: String, path: String) -> (p: Project)
        ensures
            p.type_lang == type_lang,
            p.name == name,
            p.path == path,
            p.last_opened is None,
            p.wf(),
    {
        Project { type_lang, name, path, last_opened: None, created_on: now_timestamp() }
    }
}

/// Seconds since the Unix epoch, now; negative when the clock reads before
/// the epoch, saturating at the ends of `i64`.
///
/// Relies on std's `SystemTime::now` and `SystemTime::duration_since`, whose
/// pre-epoch case is the `Err` branch; nothing is assumed about the clock's
/// value, and no branch can panic.
#[verifier::external_body]
fn now_timestamp() -> i64 {
    match std::time::SystemTime::now().duration_since(std::time::UNIX_EPOCH) {
        Ok(d) => i64::try_from(d.as_secs()).unwrap_or(i64::MAX),
        Err(e) => -i64::try_from(e.duration().as_secs()).unwrap_or(i64::MAX),
    }
}

} // verus!
