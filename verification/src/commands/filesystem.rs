//! File metadata as the file_metadata CTN checks it: existence, access,
//! size, kind, owner, group and permission mode.

use vstd::prelude::*;
use crate::numfmt::{decimal, radix_string, radix_string_exec, u64_to_decimal, zero_pad, zero_pad_exec};
use crate::model::{data_fields, CollectedData, CollectionError, ResolvedValue, ValueView};
use crate::text::string_from_chars;

verus! {

/// Metadata of a file.
#[derive(Debug)]
pub struct FileMetadata {
    pub exists: bool,
    pub readable: bool,
    pub writable: bool,
    pub file_size: u64,
    pub is_directory: bool,
    /// Owner (user id on Unix, account on Windows)
    pub file_owner: String,
    /// Group (group id on Unix, account on Windows)
    pub file_group: String,
    /// Permission bits as four octal digits (Unix only)
    pub file_mode: String,
    pub is_readonly: bool,
    pub is_hidden: bool,
    pub is_system: bool,
}

/// Why file metadata could not be read.
#[derive(Debug)]
pub enum FileSystemError {
    NotFound(String),
    AccessDenied(String),
    /// A system call failed: message and error code
    WindowsError(String, u32),
    InvalidPath(String),
}

impl FileSystemError {
    /// The error as a message.
    pub fn message(&self) -> (res: String)
        ensures
            res@ == match self {
                FileSystemError::NotFound(p) => "File not found: "@ + p@,
                FileSystemError::AccessDenied(p) => "Access denied: "@ + p@,
                FileSystemError::WindowsError(m, c) => m@ + " (error "@ + decimal(*c as nat)
                    + ")"@,
                FileSystemError::InvalidPath(p) => "Invalid path: "@ + p@,
            },
    {
        proof {
            reveal_strlit("");
        }
        match self {
            FileSystemError::NotFound(p) => crate::model::concat3("File not found: ", p.as_str(), ""),
            FileSystemError::AccessDenied(p) => crate::model::concat3("Access denied: ", p.as_str(), ""),
            FileSystemError::WindowsError(m, c) => {
                let n = string_from_chars(&u64_to_decimal(*c as u64));
                let head = crate::model::concat3(m.as_str(), " (error ", n.as_str());
                crate::model::concat3(head.as_str(), ")", "")
            },
            FileSystemError::InvalidPath(p) => crate::model::concat3("Invalid path: ", p.as_str(), ""),
        }
    }
}

impl FileMetadata {
    /// Metadata of a file that does not exist.
    pub fn default() -> (res: Self)
        ensures
            !res.exists && !res.readable && !res.writable && res.file_size == 0 && !res.is_directory,
            res.file_owner@.len() == 0 && res.file_group@.len() == 0 && res.file_mode@.len() == 0,
            !res.is_readonly && !res.is_hidden && !res.is_system,
    {
        FileMetadata {
            exists: false,
            readable: false,
            writable: false,
            file_size: 0,
            is_directory: false,
            file_owner: String::new(),
            file_group: String::new(),
            file_mode: String::new(),
            is_readonly: false,
            is_hidden: false,
            is_system: false,
        }
    }
}

/// The permission bits of a Unix mode as four octal digits (`0644`).
pub open spec fn mode_text(mode: u32) -> Seq<char> {
    zero_pad(radix_string((mode % 4096) as nat, 8, true), 4)
}

/// The permission bits of a Unix mode as four octal digits (`0644`).
pub fn format_file_mode(mode: u32) -> (res: String)
    ensures
        res@ == mode_text(mode),
{
    string_from_chars(&zero_pad_exec(radix_string_exec((mode % 4096) as u64, 8, true), 4))
}

/// What `stat` and opening a Unix file tell.
#[derive(Clone, Copy, PartialEq, Eq, Structural, Debug)]
pub struct UnixFileStat {
    pub size: u64,
    pub is_dir: bool,
    /// Opening for reading succeeded
    pub readable: bool,
    /// Opening for writing succeeded
    pub writable: bool,
    pub mode: u32,
    pub uid: u32,
    pub gid: u32,
}

/// The metadata of a Unix path: a path that does not exist has default
/// metadata; when it exists but cannot be stat'ed only `exists` is set;
/// otherwise size, kind, access, mode (four octal digits), owner and group
/// (decimal ids); the Windows attributes stay false.
pub fn unix_file_metadata(exists: bool, stat: Option<UnixFileStat>) -> (res: FileMetadata)
    ensures
        res.exists == exists,
        !res.is_readonly && !res.is_hidden && !res.is_system,
        match stat {
            Some(s) if exists => {
                &&& res.file_size == s.size
                &&& res.is_directory == s.is_dir
                &&& res.readable == s.readable
                &&& res.writable == s.writable
                &&& res.file_mode@ == mode_text(s.mode)
                &&& res.file_owner@ == decimal(s.uid as nat)
                &&& res.file_group@ == decimal(s.gid as nat)
            },
            _ => !res.readable && !res.writable && res.file_size == 0 && !res.is_directory
                && res.file_mode@.len() == 0 && res.file_owner@.len() == 0 && res.file_group@.len()
                == 0,
        },
{
    let mut m = FileMetadata::default();
    if !exists {
        return m;
    }
    m.exists = true;
    match stat {
        Some(s) => {
            m.file_size = s.size;
            m.is_directory = s.is_dir;
            m.readable = s.readable;
            m.writable = s.writable;
            m.file_mode = format_file_mode(s.mode);
            m.file_owner = string_from_chars(&u64_to_decimal(s.uid as u64));
            m.file_group = string_from_chars(&u64_to_decimal(s.gid as u64));
        },
        None => {},
    }
    m
}

/// A size as an integer field records it (sizes beyond `i64::MAX` read as
/// `i64::MAX`).
pub open spec fn size_value(size: u64) -> int {
    if size <= i64::MAX {
        size as int
    } else {
        i64::MAX as int
    }
}

/// The fields a file metadata collection records, in order.
pub open spec fn metadata_fields(m: FileMetadata) -> Seq<(Seq<char>, ValueView)> {
    seq![
        ("exists"@, ValueView::Bool(m.exists)),
        ("readable"@, ValueView::Bool(m.readable)),
        ("writable"@, ValueView::Bool(m.writable)),
        ("file_size"@, ValueView::Int(size_value(m.file_size))),
        ("is_directory"@, ValueView::Bool(m.is_directory)),
        ("file_owner"@, ValueView::Str(m.file_owner@)),
        ("file_group"@, ValueView::Str(m.file_group@)),
        ("file_mode"@, ValueView::Str(m.file_mode@)),
        ("is_readonly"@, ValueView::Bool(m.is_readonly)),
        ("is_hidden"@, ValueView::Bool(m.is_hidden)),
        ("is_system"@, ValueView::Bool(m.is_system)),
    ]
}

/// Records a file's metadata as fields of `data`.
pub fn record_file_metadata(data: &mut CollectedData, m: FileMetadata)
    ensures
        final(data).object_id == old(data).object_id,
        final(data).ctn_type == old(data).ctn_type,
        final(data).collector_id == old(data).collector_id,
        final(data).method == old(data).method,
        data_fields(*final(data)) == data_fields(*old(data)) + metadata_fields(m),
{
    let ghost start = data_fields(*data);
    let ghost fs = metadata_fields(m);
    let size: i64 = if m.file_size <= 0x7fff_ffff_ffff_ffffu64 {
        m.file_size as i64
    } else {
        0x7fff_ffff_ffff_ffffi64
    };
    data.add_field("exists".to_string(), ResolvedValue::Boolean(m.exists));
    data.add_field("readable".to_string(), ResolvedValue::Boolean(m.readable));
    data.add_field("writable".to_string(), ResolvedValue::Boolean(m.writable));
    data.add_field("file_size".to_string(), ResolvedValue::Integer(size));
    data.add_field("is_directory".to_string(), ResolvedValue::Boolean(m.is_directory));
    data.add_field("file_owner".to_string(), ResolvedValue::String(m.file_owner));
    data.add_field("file_group".to_string(), ResolvedValue::String(m.file_group));
    data.add_field("file_mode".to_string(), ResolvedValue::String(m.file_mode));
    data.add_field("is_readonly".to_string(), ResolvedValue::Boolean(m.is_readonly));
    data.add_field("is_hidden".to_string(), ResolvedValue::Boolean(m.is_hidden));
    data.add_field("is_system".to_string(), ResolvedValue::Boolean(m.is_system));
    assert(data_fields(*data) =~= start + fs);
}

/// Why reading a file's content failed: denied access, or another failure,
/// with the system's message.
#[derive(Debug)]
pub enum ReadFailure {
    Denied(String),
    Failed(String),
}

/// Records a file's content as the `file_content` field of `data`, or
/// turns a failed read into the matching collection error for `object_id`.
pub fn record_file_content(data: CollectedData, object_id: &String, content: Result<String, ReadFailure>) -> (res:
    Result<CollectedData, CollectionError>)
    ensures
        match content {
            Ok(c) => res matches Ok(d) && d.object_id == data.object_id && d.ctn_type == data.ctn_type
                && d.collector_id == data.collector_id && d.method == data.method && data_fields(d)
                == data_fields(data).push(("file_content"@, ValueView::Str(c@))),
            Err(ReadFailure::Denied(m)) => res matches Err(CollectionError::AccessDenied {
                object_id: id,
                reason,
            }) && id@ == object_id@ && reason@ == m@,
            Err(ReadFailure::Failed(m)) => res matches Err(CollectionError::CollectionFailed {
                object_id: id,
                reason,
            }) && id@ == object_id@ && reason@ == m@,
        },
{
    match content {
        Ok(c) => {
            let mut d = data;
            d.add_field("file_content".to_string(), ResolvedValue::String(c));
            Ok(d)
        },
        Err(ReadFailure::Denied(m)) => Err(
            CollectionError::AccessDenied { object_id: object_id.clone(), reason: m },
        ),
        Err(ReadFailure::Failed(m)) => Err(
            CollectionError::CollectionFailed { object_id: object_id.clone(), reason: m },
        ),
    }
}

} // verus!
