//! The boxes as the table holds them.

use vstd::prelude::*;
use crate::clock::Timestamp;

verus! {

/// What a box holds.
#[derive(Clone, Copy, Debug, PartialEq, Eq, Structural)]
pub enum FileType {
    Text,
    File,
}

impl FileType {
    /// The name of the kind in the table.
    pub open spec fn spec_name(self) -> Seq<char> {
        match self {
            FileType::File => "file"@,
            FileType::Text => "text"@,
        }
    }
}

impl Default for FileType {
    fn default() -> (kind: FileType)
        ensures
            kind == FileType::Text,
    {
        FileType::Text
    }
}

/// The name of a kind as the table spells it.
pub fn file_type_name(value: FileType) -> (name: String)
    ensures
        name@ == value.spec_name(),
{
    match value {
        FileType::File => "file".to_owned(),
        FileType::Text => "text".to_owned(),
    }
}

/// A box that is about to be stored.
#[derive(Debug)]
pub struct AddFilebox {
    pub code: String,
    pub name: String,
    pub size: i64,
    pub file_type: FileType,
    pub text: String,
    pub file_path: String,
    pub created_at: Timestamp,
    pub expired_at: Timestamp,
}

/// The mark that a box has been taken.
#[derive(Debug)]
pub struct UpdateFilebox {
    pub code: String,
    pub used_at: Timestamp,
}

/// A stored box.
#[derive(Debug)]
pub struct Filebox {
    pub id: i64,
    pub code: String,
    pub name: String,
    pub size: i64,
    pub file_type: FileType,
    pub text: String,
    pub file_path: String,
    pub created_at: Timestamp,
    pub expired_at: Timestamp,
    pub used_at: Option<Timestamp>,
}

impl Filebox {
    /// Whether somebody has taken the box already.
    pub fn has_taken(&self) -> (taken: bool)
        ensures
            taken == self.used_at is Some,
    {
        self.used_at.is_some()
    }
}

} // verus!
