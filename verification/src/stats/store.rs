//! Where the history log lives: one JSON-lines file per year in a data
//! directory.
use vstd::prelude::*;

use std::path::PathBuf;

use crate::stats::calendar::{is_year_of, local_day, local_year_of};
use crate::stats::Record;
use crate::text::{push_signed_decimal, signed_decimal};

verus! {

/// std's `PathBuf`, carried through the library without being looked into.
#[verifier::external_type_specification]
#[verifier::external_body]
pub struct ExPathBuf(PathBuf);

/// The directory that holds the year-partitioned history files
/// (`history-<year>.jsonl`).
pub struct Store {
    dir: PathBuf,
}

impl Store {
    /// The directory the store was made with.
    pub closed spec fn spec_dir(&self) -> PathBuf {
        self.dir
    }

    pub fn new(dir: PathBuf) -> (s: Self)
        ensures
            s.spec_dir() == dir,
    {
        Store { dir }
    }

    /// The directory the history files live in.
    pub fn dir(&self) -> (d: &PathBuf)
        ensures
            *d == self.spec_dir(),
    {
        &self.dir
    }
}

/// The name of the history file for `year`.
pub open spec fn history_file_text(year: int) -> Seq<char> {
    "history-"@ + signed_decimal(year) + ".jsonl"@
}

/// The name of the history file that holds the records of `year`.
pub fn history_file_name(year: i32) -> (name: String)
    ensures
        name@ == history_file_text(year as int),
{
    let mut name = String::from_str("history-");
    push_signed_decimal(&mut name, year as i64);
    name.append(".jsonl");
    name
}

/// The name of the history file that `record` belongs in: the file of the
/// local year in which the phase ended.
pub fn history_file_for(record: &Record) -> (name: String)
    requires
        record.at.wf(),
    ensures
        exists|year: int|
            is_year_of(local_day(record.at), year) && name@ == history_file_text(year),
{
    let year = local_year_of(&record.at);
    history_file_name(year)
}

} // verus!
