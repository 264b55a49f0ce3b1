//! The scan of a local directory tree: every file below a root, with its path relative
//! to the root and the CRC32 checksum of its content.
//!
//! The scan reads nothing itself. It says what it needs next, a directory opened or
//! the next entry of the open one, and takes in what the caller found.

use std::collections::VecDeque;
use vstd::prelude::*;

verus! {

/// The CRC32 checksum of `content`, as the `crc32fast` crate computes it.
pub uninterp spec fn crc32_of(content: Seq<u8>) -> u32;

/// Calls `crc32fast::hash` on the bytes. The checksum depends on the bytes alone.
#[verifier::external_body]
fn crc32(content: &[u8]) -> (sum: u32)
    ensures
        sum == crc32_of(content@),
{
    crc32fast::hash(content)
}

/// The CRC32 checksum of `content`.
pub fn checksum(content: &[u8]) -> (sum: u32)
    ensures
        sum == crc32_of(content@),
{
    crc32(content)
}

/// Why a scan stopped.
#[derive(Clone, Copy, Debug, PartialEq, Eq, Structural)]
pub enum LocalDirectoryError {
    /// The file system failed, or answered what was not asked.
    Io,
    /// A file name is not valid UTF-8.
    InvalidUtf8Filename,
    /// A file does not lie below the root.
    StripPrefixError,
}

/// A file that the scan found.
#[derive(Clone, Debug)]
pub struct FileInformation {
    pub path: String,
    /// The path below the root, with `/` between its parts.
    pub local_unix_path: String,
    pub crc32: u32,
}

/// Where a file lies with respect to the root of the scan.
#[derive(Debug)]
pub enum Placement {
    /// Below the root, at this relative path.
    Inside(String),
    /// Not below the root.
    Outside,
    /// At a path that is not valid UTF-8.
    Unreadable,
}

/// What the file system answered.
#[derive(Debug)]
pub enum Reading {
    /// The directory asked for is open.
    Opened,
    /// The next entry of the open directory is a directory.
    Directory { path: String },
    /// The next entry of the open directory is a file with this content.
    File { path: String, placement: Placement, content: Vec<u8> },
    /// The open directory has no more entries.
    End,
    Failed,
}

/// What the scan needs next.
#[derive(Debug)]
pub enum Request {
    /// Open this directory.
    Open(String),
    /// Read the next entry of the open directory.
    Next,
    /// Nothing: the scan is finished.
    Nothing,
}

/// The state of a scan.
#[derive(Debug)]
pub enum LocalDirectory {
    /// Nothing is read yet; the root is to be opened.
    Start(String),
    Progress {
        root: String,
        /// The directory that is read, or is to be opened.
        current: String,
        /// Whether `current` is open.
        opened: bool,
        /// The files found so far, in the order in which they were found.
        fileinfo: Vec<FileInformation>,
        /// The directories found and not yet read, oldest first.
        nextdirs: VecDeque<String>,
    },
    Finished(Vec<FileInformation>),
}

impl LocalDirectory {
    /// The files found so far.
    pub open spec fn files(self) -> Seq<FileInformation> {
        match self {
            LocalDirectory::Start(_) => Seq::empty(),
            LocalDirectory::Progress { root, current, opened, fileinfo, nextdirs } => fileinfo@,
            LocalDirectory::Finished(fileinfo) => fileinfo@,
        }
    }

    /// Whether `self` is a scan in progress with these parts.
    pub open spec fn in_progress(
        self,
        root: String,
        current: String,
        opened: bool,
        files: Seq<FileInformation>,
        queue: Seq<String>,
    ) -> bool {
        match self {
            LocalDirectory::Progress {
                root: r,
                current: c,
                opened: o,
                fileinfo,
                nextdirs,
            } => r == root && c == current && o == opened && fileinfo@ == files && nextdirs@
                == queue,
            _ => false,
        }
    }

    /// Whether `next` is what becomes of the scan when the file system answers `answer`.
    ///
    /// A directory that was asked for and is open is read entry by entry. A directory
    /// among the entries waits its turn behind those found before it. A file is
    /// recorded with its relative path and the checksum of its content; one that lies
    /// outside the root, or whose path is not UTF-8, stops the scan. At the end of a
    /// directory the oldest waiting directory is opened, and the scan is finished when
    /// none waits. A failure, or an answer to what was not asked, stops the scan.
    pub open spec fn leads_to(
        self,
        answer: Reading,
        next: Result<LocalDirectory, LocalDirectoryError>,
    ) -> bool {
        match self {
            LocalDirectory::Start(root) => match answer {
                Reading::Opened => next is Ok && next->Ok_0.in_progress(
                    root,
                    root,
                    true,
                    Seq::empty(),
                    Seq::empty(),
                ),
                _ => next == Err::<LocalDirectory, _>(LocalDirectoryError::Io),
            },
            LocalDirectory::Progress { root, current, opened, fileinfo, nextdirs } => if !opened {
                match answer {
                    Reading::Opened => next is Ok && next->Ok_0.in_progress(
                        root,
                        current,
                        true,
                        fileinfo@,
                        nextdirs@,
                    ),
                    _ => next == Err::<LocalDirectory, _>(LocalDirectoryError::Io),
                }
            } else {
                match answer {
                    Reading::Directory { path } => next is Ok && next->Ok_0.in_progress(
                        root,
                        current,
                        true,
                        fileinfo@,
                        nextdirs@.push(path),
                    ),
                    Reading::File { path, placement, content } => match placement {
                        Placement::Inside(relative) => next is Ok && next->Ok_0.in_progress(
                            root,
                            current,
                            true,
                            fileinfo@.push(
                                FileInformation {
                                    path,
                                    local_unix_path: relative,
                                    crc32: crc32_of(content@),
                                },
                            ),
                            nextdirs@,
                        ),
                        Placement::Outside => next == Err::<LocalDirectory, _>(
                            LocalDirectoryError::StripPrefixError,
                        ),
                        Placement::Unreadable => next == Err::<LocalDirectory, _>(
                            LocalDirectoryError::InvalidUtf8Filename,
                        ),
                    },
                    Reading::End => if nextdirs@.len() > 0 {
                        next is Ok && next->Ok_0.in_progress(
                            root,
                            nextdirs@[0],
                            false,
                            fileinfo@,
                            nextdirs@.skip(1),
                        )
                    } else {
                        next is Ok && next->Ok_0 is Finished && next->Ok_0.files() == fileinfo@
                    },
                    _ => next == Err::<LocalDirectory, _>(LocalDirectoryError::Io),
                }
            },
            LocalDirectory::Finished(fileinfo) => next is Ok && next->Ok_0 is Finished
                && next->Ok_0.files() == fileinfo@,
        }
    }

    /// Begins a scan below `root`.
    pub fn new(root: String) -> (scan: LocalDirectory)
        ensures
            scan == LocalDirectory::Start(root),
    {
        LocalDirectory::Start(root)
    }

    /// What the scan needs next: the root or the next waiting directory opened, the
    /// next entry of the open directory, or nothing.
    pub fn request(&self) -> (request: Request)
        ensures
            match *self {
                LocalDirectory::Start(root) => request == Request::Open(root),
                LocalDirectory::Progress { root, current, opened, fileinfo, nextdirs } => if opened {
                    request is Next
                } else {
                    request == Request::Open(current)
                },
                LocalDirectory::Finished(_) => request is Nothing,
            },
    {
        match self {
            LocalDirectory::Start(root) => Request::Open(root.clone()),
            LocalDirectory::Progress { root, current, opened, fileinfo, nextdirs } => {
                if *opened {
                    Request::Next
                } else {
                    Request::Open(current.clone())
                }
            },
            LocalDirectory::Finished(_) => Request::Nothing,
        }
    }

    /// Takes in what the file system answered.
    pub fn progress(self, answer: Reading) -> (next: Result<LocalDirectory, LocalDirectoryError>)
        ensures
            self.leads_to(answer, next),
    {
        match self {
            LocalDirectory::Start(root) => match answer {
                Reading::Opened => {
                    let current = root.clone();
                    Ok(
                        LocalDirectory::Progress {
                            root,
                            current,
                            opened: true,
                            fileinfo: Vec::new(),
                            nextdirs: VecDeque::new(),
                        },
                    )
                },
                _ => Err(LocalDirectoryError::Io),
            },
            LocalDirectory::Progress { root, current, opened, mut fileinfo, mut nextdirs } => {
                if !opened {
                    match answer {
                        Reading::Opened => Ok(
                            LocalDirectory::Progress {
                                root,
                                current,
                                opened: true,
                                fileinfo,
                                nextdirs,
                            },
                        ),
                        _ => Err(LocalDirectoryError::Io),
                    }
                } else {
                    match answer {
                        Reading::Directory { path } => {
                            nextdirs.push_back(path);
                            Ok(
                                LocalDirectory::Progress {
                                    root,
                                    current,
                                    opened: true,
                                    fileinfo,
                                    nextdirs,
                                },
                            )
                        },
                        Reading::File { path, placement, content } => match placement {
                            Placement::Inside(relative) => {
                                let sum = crc32(content.as_slice());
                                fileinfo.push(
                                    FileInformation {
                                        path,
                                        local_unix_path: relative,
                                        crc32: sum,
                                    },
                                );
                                Ok(
                                    LocalDirectory::Progress {
                                        root,
                                        current,
                                        opened: true,
                                        fileinfo,
                                        nextdirs,
                                    },
                                )
                            },
                            Placement::Outside => Err(LocalDirectoryError::StripPrefixError),
                            Placement::Unreadable => Err(LocalDirectoryError::InvalidUtf8Filename),
                        },
                        Reading::End => {
                            let ghost waiting = nextdirs@;
                            match nextdirs.pop_front() {
                                Some(next) => {
                                    proof {
                                        assert(nextdirs@ =~= waiting.skip(1));
                                    }
                                    Ok(
                                        LocalDirectory::Progress {
                                            root,
                                            current: next,
                                            opened: false,
                                            fileinfo,
                                            nextdirs,
                                        },
                                    )
                                },
                                None => Ok(LocalDirectory::Finished(fileinfo)),
                            }
                        },
                        _ => Err(LocalDirectoryError::Io),
                    }
                }
            },
            LocalDirectory::Finished(fileinfo) => Ok(LocalDirectory::Finished(fileinfo)),
        }
    }
}

/// A scan loses no file: what was found stays found, in its place, whatever the file
/// system answers next.
pub proof fn lemma_progress_keeps_files(
    scan: LocalDirectory,
    answer: Reading,
    next: Result<LocalDirectory, LocalDirectoryError>,
)
    requires
        scan.leads_to(answer, next),
        next is Ok,
    ensures
        scan.files().is_prefix_of(next->Ok_0.files()),
{
}

} // verus!
