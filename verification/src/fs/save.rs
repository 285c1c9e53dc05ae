//! The staging area of the receiver.
//!
//! While a file is being received it stands in the staging directory under
//! its name with `.flap` appended. Only when the hash of the whole content
//! has been verified is it renamed to its own name: the rename is the moment
//! the file becomes visible. A staging file that is found when a transfer
//! begins is the rest of an interrupted transfer, and the transfer resumes
//! behind it.
//!
//! This module names the files and decides what each outcome of the file
//! system means; the calls into the file system are made outside.

use vstd::prelude::*;
use vstd::string::StringExecFns;

use crate::crypto::blake3::{Blake3, PartialHash};
use crate::error::Error;
use crate::fs::metadata::FlapFileMetadata;

verus! {

/// How a call that creates a file or a directory ended.
#[derive(Debug, Clone, Copy, PartialEq, Eq, Structural)]
pub enum CreateOutcome {
    /// It was created.
    Created,
    /// It was there already.
    AlreadyExists,
    /// Any other error of the file system.
    Failed,
}

/// What is to be done with the staging file of a transfer.
#[derive(Debug, Clone, Copy, PartialEq, Eq, Structural)]
pub enum PrepareStep {
    /// The staging file is new and empty: the transfer starts at offset 0.
    StartFresh,
    /// A staging file exists: open it for reading and appending, hash what
    /// it holds, and resume behind it.
    Resume,
}

/// The staging file of a transfer, ready to be written: where the transfer
/// starts, and the hasher of what the file holds already.
pub struct StagedFile {
    offset: u64,
    hasher: Option<Blake3>,
}

impl StagedFile {
    /// The offset at which the transfer starts: the length of what is
    /// staged.
    pub closed spec fn offset(&self) -> u64 {
        self.offset
    }

    /// What is staged already, as far as it has been hashed.
    pub closed spec fn hashed(&self) -> Seq<u8> {
        match self.hasher {
            Some(hasher) => hasher@,
            None => Seq::<u8>::empty(),
        }
    }

    /// Whether a hasher of the staged content comes with the file.
    pub closed spec fn has_hasher(&self) -> bool {
        self.hasher is Some
    }

    /// The start offset is the length of what has been hashed.
    pub closed spec fn wf(&self) -> bool {
        self.hashed().len() == self.offset
    }

    /// A new, empty staging file.
    pub fn fresh() -> (staged: StagedFile)
        ensures
            staged.wf(),
            staged.offset() == 0,
            staged.hashed() == Seq::<u8>::empty(),
            !staged.has_hasher(),
    {
        StagedFile { offset: 0, hasher: None }
    }

    /// A staging file that was found, and whose content has been hashed.
    pub fn resumed(partial: PartialHash) -> (staged: StagedFile)
        requires
            partial.wf(),
        ensures
            staged.wf(),
            staged.offset() == partial.taken(),
            staged.hashed() == partial.hashed(),
            staged.has_hasher(),
    {
        let offset = partial.bytes_taken();
        StagedFile { offset, hasher: Some(partial.finish()) }
    }

    /// The offset at which the transfer starts.
    pub fn start_offset(&self) -> (offset: u64)
        ensures
            offset == self.offset(),
    {
        self.offset
    }

    /// The start offset, and the hasher of what is staged if anything is.
    pub fn into_parts(self) -> (parts: (u64, Option<Blake3>))
        ensures
            parts.0 == self.offset(),
            parts.1 is Some == self.has_hasher(),
            parts.1 matches Some(hasher) ==> hasher@ == self.hashed(),
            parts.1 is None ==> self.hashed() == Seq::<u8>::empty(),
            self.wf() ==> self.hashed().len() == parts.0,
    {
        (self.offset, self.hasher)
    }
}

#[derive(Debug, Clone)]
pub struct FileSaver {
    /// The directory in which received files are written to.
    download_dir: String,
}

impl FileSaver {
    /// The name of the staging directory inside the downloads directory of
    /// the operating system.
    pub open spec fn spec_folder_name() -> Seq<char> {
        "Flap Downloads"@
    }

    /// What is appended to a file's name while the file is staged.
    pub open spec fn spec_staging_suffix() -> Seq<char> {
        seq!['.', 'f', 'l', 'a', 'p']
    }

    /// The name under which a file is staged.
    pub open spec fn spec_staging_name(file_name: Seq<char>) -> Seq<char> {
        file_name + Self::spec_staging_suffix()
    }

    /// The staging directory.
    pub closed spec fn spec_download_dir(&self) -> Seq<char> {
        self.download_dir@
    }

    /// The name of the staging directory inside the downloads directory of
    /// the operating system.
    pub fn folder_name() -> (name: &'static str)
        ensures
            name@ == Self::spec_folder_name(),
    {
        "Flap Downloads"
    }

    /// What the creation of the staging directory means: a directory that
    /// exists already is as good as a new one, anything else is a
    /// `FileIoError`.
    pub fn check_directory(outcome: CreateOutcome) -> (res: Result<(), Error>)
        ensures
            res == (match outcome {
                CreateOutcome::Created => Ok::<(), Error>(()),
                CreateOutcome::AlreadyExists => Ok::<(), Error>(()),
                CreateOutcome::Failed => Err::<(), Error>(Error::FileIoError),
            }),
    {
        match outcome {
            CreateOutcome::Created => Ok(()),
            CreateOutcome::AlreadyExists => Ok(()),
            CreateOutcome::Failed => Err(Error::FileIoError),
        }
    }

    /// The saver for a staging directory that exists.
    pub fn new(download_dir: String) -> (saver: FileSaver)
        ensures
            saver.spec_download_dir() == download_dir@,
    {
        Self { download_dir }
    }

    /// The staging directory.
    pub fn download_dir(&self) -> (dir: &str)
        ensures
            dir@ == self.spec_download_dir(),
    {
        self.download_dir.as_str()
    }

    /// The name of the staging file of a transfer: the name of the file
    /// with `.flap` appended.
    pub fn staging_name(&self, metadata: &FlapFileMetadata) -> (name: String)
        ensures
            name@ == Self::spec_staging_name(metadata@.file_name),
    {
        let mut file_name = metadata.file_name.clone();
        file_name.append(".flap");
        proof {
            reveal_strlit(".flap");
            assert(".flap"@ =~= Self::spec_staging_suffix());
        }
        file_name
    }

    /// The name that the file gets when the transfer has been verified: its
    /// own.
    pub fn final_name(&self, metadata: &FlapFileMetadata) -> (name: String)
        ensures
            name@ == metadata@.file_name,
    {
        metadata.file_name.clone()
    }

    /// What the exclusive creation of the staging file means: a new file
    /// starts the transfer afresh, a file that exists resumes it, anything
    /// else is a `FileIoError`.
    pub fn prepare_file(&self, outcome: CreateOutcome) -> (res: Result<PrepareStep, Error>)
        ensures
            res == (match outcome {
                CreateOutcome::Created => Ok::<PrepareStep, Error>(PrepareStep::StartFresh),
                CreateOutcome::AlreadyExists => Ok::<PrepareStep, Error>(PrepareStep::Resume),
                CreateOutcome::Failed => Err::<PrepareStep, Error>(Error::FileIoError),
            }),
    {
        match outcome {
            CreateOutcome::Created => Ok(PrepareStep::StartFresh),
            CreateOutcome::AlreadyExists => Ok(PrepareStep::Resume),
            CreateOutcome::Failed => Err(Error::FileIoError),
        }
    }
}

} // verus!
