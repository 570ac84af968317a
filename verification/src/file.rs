//! Files: upload sessions, file records and their parts.

use crate::decimal::{parse_u128, spec_parse_u128};
use vstd::prelude::*;

verus! {

/// An open upload session of a file.
#[derive(Debug)]
pub struct FileSessionCheck {
    pub file_id: String,
    pub created_at: u128,
    pub max_chunk_size: usize,
}

/// What a file belongs to.
#[derive(Debug, Clone, Copy, PartialEq, Eq, Structural)]
pub enum BelongsToType {
    Group,
    User,
    Unowned,
}

/// The owner kind stored as a number: 1 a group, 2 a user, anything else none.
pub open spec fn spec_belongs_to_type(stored: i32) -> BelongsToType {
    if stored == 1 {
        BelongsToType::Group
    } else if stored == 2 {
        BelongsToType::User
    } else {
        BelongsToType::Unowned
    }
}

/// Reads the stored owner kind of a file.
pub fn belongs_to_type_from_stored(stored: i32) -> (t: BelongsToType)
    ensures
        t == spec_belongs_to_type(stored),
{
    match stored {
        1 => BelongsToType::Group,
        2 => BelongsToType::User,
        _ => BelongsToType::Unowned,
    }
}

/// One part of a file.
#[derive(Debug)]
pub struct FilePartListItem(pub String);

/// A file record with its parts.
#[derive(Debug)]
pub struct FileMetaData {
    pub file_id: String,
    pub owner: String,
    pub belongs_to: Option<String>,
    pub belongs_to_type: BelongsToType,
    pub key_id: String,
    pub time: u128,
    pub part_list: Vec<FilePartListItem>,
}

/// The columns of a file lookup, in their order.
#[derive(Debug)]
pub struct FileMetaDataRow {
    pub file_id: String,
    pub owner: String,
    pub belongs_to: Option<String>,
    pub belongs_to_type: i32,
    pub key_id: String,
    pub time: u128,
}

impl FileMetaData {
    /// A file record from its lookup; the parts are loaded separately.
    pub fn from_row(row: FileMetaDataRow) -> (f: Self)
        ensures
            f.file_id == row.file_id,
            f.owner == row.owner,
            f.belongs_to == row.belongs_to,
            f.belongs_to_type == spec_belongs_to_type(row.belongs_to_type),
            f.key_id == row.key_id,
            f.time == row.time,
            f.part_list@.len() == 0,
    {
        FileMetaData {
            file_id: row.file_id,
            owner: row.owner,
            belongs_to: row.belongs_to,
            belongs_to_type: belongs_to_type_from_stored(row.belongs_to_type),
            key_id: row.key_id,
            time: row.time,
            part_list: Vec::new(),
        }
    }
}

/// A number stored as decimal text that must fit a `usize`, read as
/// `usize::from_str` reads it: the decimal value where it is at most the
/// largest `usize`, else nothing.
pub open spec fn spec_parse_usize(s: Seq<char>) -> Option<usize> {
    match spec_parse_u128(s) {
        Some(n) => if n <= usize::MAX {
            Some(n as usize)
        } else {
            None
        },
        None => None,
    }
}

fn parse_usize(text: &str) -> (res: Option<usize>)
    ensures
        res == spec_parse_usize(text@),
{
    match parse_u128(text) {
        Some(n) => if n <= usize::MAX as u128 {
            Some(n as usize)
        } else {
            None
        },
        None => None,
    }
}

impl FileSessionCheck {
    /// An upload session from the columns of its lookup, the creation time
    /// and the chunk size stored as decimal text: none where either text is
    /// not such a number.
    pub fn from_columns(file_id: String, created_at: &str, max_chunk_size: &str) -> (res: Option<Self>)
        ensures
            res is Some <==> (spec_parse_u128(created_at@) is Some && spec_parse_usize(max_chunk_size@) is Some),
            res matches Some(c) ==> {
                &&& c.file_id == file_id
                &&& Some(c.created_at) == spec_parse_u128(created_at@)
                &&& Some(c.max_chunk_size) == spec_parse_usize(max_chunk_size@)
            },
    {
        let created_at = match parse_u128(created_at) {
            Some(t) => t,
            None => return None,
        };
        let max_chunk_size = match parse_usize(max_chunk_size) {
            Some(n) => n,
            None => return None,
        };
        Some(FileSessionCheck { file_id, created_at, max_chunk_size })
    }
}

impl FileMetaData {
    /// A file record from the columns of its lookup, the time stored as
    /// decimal text: none where the time is not such a number; else the record
    /// that [`FileMetaData::from_row`] makes of the columns with that time.
    pub fn from_columns(
        file_id: String,
        owner: String,
        belongs_to: Option<String>,
        belongs_to_type: i32,
        key_id: String,
        time: &str,
    ) -> (res: Option<Self>)
        ensures
            res is Some <==> spec_parse_u128(time@) is Some,
            res matches Some(f) ==> {
                &&& f.file_id == file_id
                &&& f.owner == owner
                &&& f.belongs_to == belongs_to
                &&& f.belongs_to_type == spec_belongs_to_type(belongs_to_type)
                &&& f.key_id == key_id
                &&& Some(f.time) == spec_parse_u128(time@)
                &&& f.part_list@.len() == 0
            },
    {
        match parse_u128(time) {
            Some(t) => Some(
                FileMetaData::from_row(FileMetaDataRow { file_id, owner, belongs_to, belongs_to_type, key_id, time: t }),
            ),
            None => None,
        }
    }
}

} // verus!
