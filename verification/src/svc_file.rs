//! The envelope that every operation answers with, and the file operations:
//! what each of them answers for what the file system reported.
use crate::path::{relative_path, relative_to};
use crate::text::joined;
use vstd::prelude::*;

verus! {

/// One entry of a directory listing.
#[derive(Debug, Clone)]
pub struct FileInfo {
    pub name: String,
    pub path: String,
    pub is_dir: bool,
    pub size: u64,
}

/// What a [`FileInfo`] holds.
pub struct FileInfoView {
    pub name: Seq<char>,
    pub path: Seq<char>,
    pub is_dir: bool,
    pub size: u64,
}

impl View for FileInfo {
    type V = FileInfoView;

    open spec fn view(&self) -> FileInfoView {
        FileInfoView { name: self.name@, path: self.path@, is_dir: self.is_dir, size: self.size }
    }
}

/// The answer to an operation: either `data` and no `error`, with `ok` set, or
/// `error` and no `data`, with `ok` clear.
#[derive(Debug, Clone)]
pub struct ApiResponse<T> {
    pub ok: bool,
    pub data: Option<T>,
    pub error: Option<String>,
}

impl<T> ApiResponse<T> {
    /// Exactly one of `data` and `error` is present, and `ok` says which.
    pub open spec fn well_formed(&self) -> bool {
        if self.ok {
            self.data is Some && self.error is None
        } else {
            self.data is None && self.error is Some
        }
    }

    /// The answer reports success with `data`.
    pub open spec fn succeeded_with(&self, data: T) -> bool {
        self.ok && self.data == Some(data) && self.error is None
    }

    /// The answer reports the failure `msg`.
    pub open spec fn failed_with(&self, msg: Seq<char>) -> bool {
        &&& !self.ok
        &&& self.data is None
        &&& self.error matches Some(m)
        &&& m@ == msg
    }

    /// The answer that carries `data`.
    pub fn success(data: T) -> (r: Self)
        ensures
            r.succeeded_with(data),
            r.well_formed(),
    {
        ApiResponse { ok: true, data: Some(data), error: None }
    }

    /// The answer that reports the failure `msg`.
    pub fn error(msg: String) -> (r: Self)
        ensures
            r.failed_with(msg@),
            r.error == Some(msg),
            r.well_formed(),
    {
        ApiResponse { ok: false, data: None, error: Some(msg) }
    }
}

/// What [`respond`] answers.
pub open spec fn response_for<T>(
    outcome: Result<T, String>,
    failure: Seq<char>,
    r: ApiResponse<T>,
) -> bool {
    match outcome {
        Ok(v) => r.succeeded_with(v),
        Err(cause) => r.failed_with(failure + cause@),
    }
}

/// The answer for `outcome`: its value, or `failure` followed by the cause.
pub fn respond<T>(outcome: Result<T, String>, failure: &str) -> (r: ApiResponse<T>)
    ensures
        response_for(outcome, failure@, r),
        r.well_formed(),
{
    match outcome {
        Ok(v) => ApiResponse::success(v),
        Err(cause) => ApiResponse::error(joined(failure, cause.as_str())),
    }
}

/// The answer to reading a file, for the content read or the cause of failure.
pub fn file_read(outcome: Result<String, String>) -> (r: ApiResponse<String>)
    ensures
        response_for(outcome, "Failed to read file: "@, r),
        r.well_formed(),
{
    respond(outcome, "Failed to read file: ")
}

/// Whether a write may go ahead: a file that does not exist is written only
/// where `create` asks for it.
pub fn file_write_check(create: Option<bool>, exists: bool) -> (r: Result<(), String>)
    ensures
        r is Ok <==> (create == Some(true) || exists),
        r matches Err(m) ==> m@ == "File does not exist"@,
{
    let should_create = match create {
        Some(c) => c,
        None => false,
    };
    if !should_create && !exists {
        Err(String::from_str("File does not exist"))
    } else {
        Ok(())
    }
}

/// How a write that was allowed ended.
#[derive(Debug, Clone)]
pub enum WriteOutcome {
    /// The missing parent directories could not be created.
    ParentFailed(String),
    /// The parent exists, the file could not be written.
    WriteFailed(String),
    Written,
}

/// The answer to writing a file.
pub fn file_write(outcome: WriteOutcome) -> (r: ApiResponse<()>)
    ensures
        r.well_formed(),
        match outcome {
            WriteOutcome::ParentFailed(cause) => r.failed_with(
                "Failed to create parent directories: "@ + cause@,
            ),
            WriteOutcome::WriteFailed(cause) => r.failed_with("Failed to write file: "@ + cause@),
            WriteOutcome::Written => r.succeeded_with(()),
        },
{
    match outcome {
        WriteOutcome::ParentFailed(cause) => ApiResponse::error(
            joined("Failed to create parent directories: ", cause.as_str()),
        ),
        WriteOutcome::WriteFailed(cause) => ApiResponse::error(
            joined("Failed to write file: ", cause.as_str()),
        ),
        WriteOutcome::Written => ApiResponse::success(()),
    }
}

/// The entry that a listing of `dir` shows for the reported entry `e`, if any.
/// A recursive listing names each entry by its path below `dir` and leaves out
/// `dir` itself; a flat one names each entry by its file name.
pub open spec fn listed(dir: Seq<char>, recursive: bool, e: FileInfoView) -> Option<FileInfoView> {
    if recursive {
        let rel = relative_to(e.path, dir);
        if rel.len() == 0 {
            None
        } else {
            Some(FileInfoView { name: e.name, path: rel, is_dir: e.is_dir, size: e.size })
        }
    } else {
        Some(FileInfoView { name: e.name, path: e.name, is_dir: e.is_dir, size: e.size })
    }
}

/// The views of the entries held in `v`.
pub open spec fn file_views(v: Seq<FileInfo>) -> Seq<FileInfoView> {
    v.map_values(|e: FileInfo| e@)
}

/// The listing of `dir` for the entries `found`, each reported with its full
/// path.
pub open spec fn listing(dir: Seq<char>, recursive: bool, found: Seq<FileInfoView>) -> Seq<
    FileInfoView,
> {
    found.filter_map(|e: FileInfoView| listed(dir, recursive, e))
}

/// Whether a listing goes below the directories that it finds: only where
/// it is asked to.
pub fn is_recursive(recursive: Option<bool>) -> (r: bool)
    ensures
        r == (recursive == Some(true)),
{
    match recursive {
        Some(b) => b,
        None => false,
    }
}

/// The answer to listing `dir`, for the entries found there or the cause of
/// failure.
pub fn file_list(dir: &str, recursive: Option<bool>, found: Result<Vec<FileInfo>, String>) -> (r:
    ApiResponse<Vec<FileInfo>>)
    ensures
        r.well_formed(),
        match found {
            Ok(entries) => {
                &&& r.ok
                &&& r.error is None
                &&& r.data matches Some(out)
                &&& file_views(out@) == listing(
                    dir@,
                    recursive == Some(true),
                    file_views(entries@),
                )
            },
            Err(cause) => r.failed_with("Failed to read directory: "@ + cause@),
        },
{
    let recurse = is_recursive(recursive);
    match found {
        Err(cause) => ApiResponse::error(joined("Failed to read directory: ", cause.as_str())),
        Ok(entries) => {
            let mut out: Vec<FileInfo> = Vec::new();
            let mut i: usize = 0;
            let ghost all = file_views(entries@);
            assert(all.take(0) =~= Seq::<FileInfoView>::empty());
            assert(file_views(out@) =~= Seq::<FileInfoView>::empty());
            while i < entries.len()
                invariant
                    i <= entries.len(),
                    all == file_views(entries@),
                    file_views(out@) == listing(dir@, recurse, all.take(i as int)),
                decreases entries.len() - i,
            {
                let e = &entries[i];
                let ghost before = file_views(out@);
                proof {
                    assert(all.take(i + 1).drop_last() =~= all.take(i as int));
                    assert(all.take(i + 1).last() == e@);
                }
                if recurse {
                    let rel = relative_path(e.path.as_str(), dir);
                    if rel.as_str().unicode_len() > 0 {
                        out.push(
                            FileInfo {
                                name: e.name.clone(),
                                path: rel,
                                is_dir: e.is_dir,
                                size: e.size,
                            },
                        );
                        assert(file_views(out@) =~= before + seq![
                            listed(dir@, recurse, e@).unwrap(),
                        ]);
                    }
                } else {
                    out.push(
                        FileInfo {
                            name: e.name.clone(),
                            path: e.name.clone(),
                            is_dir: e.is_dir,
                            size: e.size,
                        },
                    );
                    assert(file_views(out@) =~= before + seq![
                        listed(dir@, recurse, e@).unwrap(),
                    ]);
                }
                i = i + 1;
            }
            assert(all.take(all.len() as int) =~= all);
            ApiResponse::success(out)
        },
    }
}

/// How to remove what stands at a path.
#[derive(PartialEq, Eq, Structural, Clone, Copy, Debug)]
pub enum Removal {
    /// A directory, with all that it holds.
    Tree,
    /// A single file.
    File,
}

/// How to remove a path that is a directory (`is_dir`) or not.
pub fn removal_of(is_dir: bool) -> (r: Removal)
    ensures
        r == (if is_dir {
            Removal::Tree
        } else {
            Removal::File
        }),
{
    if is_dir {
        Removal::Tree
    } else {
        Removal::File
    }
}

/// The answer to deleting a path.
pub fn file_delete(outcome: Result<(), String>) -> (r: ApiResponse<()>)
    ensures
        response_for(outcome, "Failed to delete: "@, r),
        r.well_formed(),
{
    respond(outcome, "Failed to delete: ")
}

/// The answer to renaming a path.
pub fn file_rename(outcome: Result<(), String>) -> (r: ApiResponse<()>)
    ensures
        response_for(outcome, "Failed to rename: "@, r),
        r.well_formed(),
{
    respond(outcome, "Failed to rename: ")
}

/// The answer to asking whether a path exists.
pub fn file_exists(exists: bool) -> (r: ApiResponse<bool>)
    ensures
        r.succeeded_with(exists),
        r.well_formed(),
{
    ApiResponse::success(exists)
}

/// The answer to creating a directory and its missing parents.
pub fn create_dir(outcome: Result<(), String>) -> (r: ApiResponse<()>)
    ensures
        response_for(outcome, "Failed to create directory: "@, r),
        r.well_formed(),
{
    respond(outcome, "Failed to create directory: ")
}

} // verus!
