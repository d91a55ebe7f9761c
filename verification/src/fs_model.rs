//! The file-access pipeline: validation and loading against a filesystem
//! model.
//!
//! The core never touches the real filesystem (the binary around it probes
//! and fills a `FileSystem` value); here the filesystem is a table of
//! entries, each saying what one query path resolves to and what reading
//! it yields.  `validate` applies the extension allow-list and resolution,
//! `load` re-validates and reads, `validate_and_load` chains the two.

use vstd::prelude::*;
use crate::errors::FileError;
use crate::paths::is_allowed_extension;
use crate::paths::has_allowed_extension;
use crate::text::str_eq;

verus! {

/// What the view of a `FileError` carries.
pub enum FileErrorV {
    NotFound,
    UnsupportedType,
    IoError(Seq<char>),
    PreconditionError,
}

impl View for FileError {
    type V = FileErrorV;

    open spec fn view(&self) -> FileErrorV {
        match self {
            FileError::NotFound => FileErrorV::NotFound,
            FileError::UnsupportedType => FileErrorV::UnsupportedType,
            FileError::IoError(detail) => FileErrorV::IoError(detail@),
            FileError::PreconditionError => FileErrorV::PreconditionError,
        }
    }
}

/// One filesystem fact: querying `path` resolves to the existing entry at
/// `canonical` (symlinks followed, relative segments removed), and reading
/// that entry yields `content` bytes or fails with an I/O detail.
pub struct FsFile {
    pub path: String,
    pub canonical: String,
    pub content: Result<Vec<u8>, String>,
}

/// The view of an `FsFile`.
pub struct FsFileV {
    pub path: Seq<char>,
    pub canonical: Seq<char>,
    pub content: Result<Seq<u8>, Seq<char>>,
}

impl View for FsFile {
    type V = FsFileV;

    open spec fn view(&self) -> FsFileV {
        FsFileV {
            path: self.path@,
            canonical: self.canonical@,
            content: match &self.content {
                Ok(bytes) => Ok(bytes@),
                Err(detail) => Err(detail@),
            },
        }
    }
}

/// The filesystem as the core sees it: a table of resolution facts.
/// A query path with no entry does not resolve (missing file, broken
/// symlink, permission failure alike).  Lookup takes the first matching
/// entry.
pub struct FileSystem {
    pub files: Vec<FsFile>,
}

impl View for FileSystem {
    type V = Seq<FsFileV>;

    open spec fn view(&self) -> Seq<FsFileV> {
        self.files@.map_values(|f: FsFile| f@)
    }
}

/// The first entry whose query path is `p`, if any.
pub open spec fn resolve(files: Seq<FsFileV>, p: Seq<char>) -> Option<FsFileV>
    decreases files.len(),
{
    if files.len() == 0 {
        None
    } else if files[0].path == p {
        Some(files[0])
    } else {
        resolve(files.drop_first(), p)
    }
}

/// What validation of `p` yields: the extension allow-list is checked
/// first (an unsupported type is reported whether or not the file exists),
/// then `p` must resolve; success carries the canonical path.
pub open spec fn validate_spec(files: Seq<FsFileV>, p: Seq<char>) -> Result<
    Seq<char>,
    FileErrorV,
> {
    if !is_allowed_extension(p) {
        Err(FileErrorV::UnsupportedType)
    } else {
        match resolve(files, p) {
            Some(f) => Ok(f.canonical),
            None => Err(FileErrorV::NotFound),
        }
    }
}

/// What loading `p` yields: validation again (a stale path fails exactly
/// as it would in `validate`), then the entry's bytes, a read failure
/// surfacing as `IoError` with its detail.
pub open spec fn load_spec(files: Seq<FsFileV>, p: Seq<char>) -> Result<Seq<u8>, FileErrorV> {
    if !is_allowed_extension(p) {
        Err(FileErrorV::UnsupportedType)
    } else {
        match resolve(files, p) {
            Some(f) => match f.content {
                Ok(bytes) => Ok(bytes),
                Err(detail) => Err(FileErrorV::IoError(detail)),
            },
            None => Err(FileErrorV::NotFound),
        }
    }
}

/// Validation followed by a load of the canonical path it returned.
pub open spec fn validate_and_load_spec(files: Seq<FsFileV>, p: Seq<char>) -> Result<
    Seq<u8>,
    FileErrorV,
> {
    match validate_spec(files, p) {
        Ok(canonical) => load_spec(files, canonical),
        Err(e) => Err(e),
    }
}

proof fn lemma_resolve_skip_step(files: Seq<FsFileV>, p: Seq<char>, i: int)
    requires
        0 <= i < files.len(),
        files[i].path != p,
    ensures
        resolve(files.skip(i), p) == resolve(files.skip(i + 1), p),
{
    assert(files.skip(i).drop_first() =~= files.skip(i + 1));
}

impl FileSystem {
    /// Index of the first entry resolving `path`, if any.
    pub(crate) fn resolve_exec(&self, path: &str) -> (r: Option<usize>)
        ensures
            match r {
                Some(i) => i < self.files.len() && resolve(self@, path@) == Some(self@[i as int]),
                None => resolve(self@, path@) is None,
            },
    {
        let n: usize = self.files.len();
        let mut i: usize = 0;
        proof {
            assert(self@.skip(0) =~= self@);
        }
        while i < n
            invariant
                n == self.files.len(),
                i <= n,
                self@.len() == n,
                resolve(self@, path@) == resolve(self@.skip(i as int), path@),
            decreases n - i,
        {
            if str_eq(self.files[i].path.as_str(), path) {
                assert(self@.skip(i as int)[0] == self@[i as int]);
                return Some(i);
            }
            proof {
                lemma_resolve_skip_step(self@, path@, i as int);
            }
            i = i + 1;
        }
        proof {
            assert(self@.skip(n as int) =~= Seq::<FsFileV>::empty());
        }
        None
    }

    /// Validate a requested path: extension allow-list, then resolution;
    /// on success the canonical path comes back.
    pub fn validate(&self, path: &str) -> (r: Result<String, FileError>)
        ensures
            ({
                let m = validate_spec(self@, path@);
                match r {
                    Ok(c) => m == Ok::<Seq<char>, FileErrorV>(c@),
                    Err(e) => m == Err::<Seq<char>, FileErrorV>(e@),
                }
            }),
    {
        if !has_allowed_extension(path) {
            return Err(FileError::UnsupportedType);
        }
        match self.resolve_exec(path) {
            Some(i) => Ok(self.files[i].canonical.clone()),
            None => Err(FileError::NotFound),
        }
    }

    /// Load the bytes behind a (canonical) path, re-validating it first;
    /// the whole buffer comes back or an error, never a part.
    pub fn load(&self, path: &str) -> (r: Result<Vec<u8>, FileError>)
        ensures
            ({
                let m = load_spec(self@, path@);
                match r {
                    Ok(bytes) => m == Ok::<Seq<u8>, FileErrorV>(bytes@),
                    Err(e) => m == Err::<Seq<u8>, FileErrorV>(e@),
                }
            }),
    {
        if !has_allowed_extension(path) {
            return Err(FileError::UnsupportedType);
        }
        match self.resolve_exec(path) {
            Some(i) => match &self.files[i].content {
                Ok(bytes) => Ok(bytes.clone()),
                Err(detail) => Err(FileError::IoError(detail.clone())),
            },
            None => Err(FileError::NotFound),
        }
    }

    /// Fetch a requested file's content for the presentation layer:
    /// validate, then load the canonical path validation returned.
    pub fn validate_and_load(&self, path: &str) -> (r: Result<Vec<u8>, FileError>)
        ensures
            ({
                let m = validate_and_load_spec(self@, path@);
                match r {
                    Ok(bytes) => m == Ok::<Seq<u8>, FileErrorV>(bytes@),
                    Err(e) => m == Err::<Seq<u8>, FileErrorV>(e@),
                }
            }),
    {
        match self.validate(path) {
            Ok(canonical) => self.load(canonical.as_str()),
            Err(e) => Err(e),
        }
    }
}

/// A path whose extension is outside the allow-list is refused as
/// `UnsupportedType`, whatever the filesystem holds — existence is not
/// even consulted.
pub proof fn lemma_validate_unsupported(files: Seq<FsFileV>, p: Seq<char>)
    requires
        !is_allowed_extension(p),
    ensures
        validate_spec(files, p) == Err::<Seq<char>, FileErrorV>(FileErrorV::UnsupportedType),
{
}

/// A path with an allow-listed extension that resolves to no entry is
/// refused as `NotFound`.
pub proof fn lemma_validate_not_found(files: Seq<FsFileV>, p: Seq<char>)
    requires
        is_allowed_extension(p),
        resolve(files, p) is None,
    ensures
        validate_spec(files, p) == Err::<Seq<char>, FileErrorV>(FileErrorV::NotFound),
{
}

/// Bytes only flow when validation succeeds: a successful
/// `validate_and_load` implies a successful `validate`, and a failed
/// `validate` makes `validate_and_load` fail with that same error.  (The
/// result type already rules out bytes arriving alongside an error.)
pub proof fn lemma_load_gated_by_validation(files: Seq<FsFileV>, p: Seq<char>)
    ensures
        validate_and_load_spec(files, p) is Ok ==> validate_spec(files, p) is Ok,
        validate_spec(files, p) matches Err(e) ==> validate_and_load_spec(files, p) == Err::<
            Seq<u8>,
            FileErrorV,
        >(e),
{
}

} // verus!
