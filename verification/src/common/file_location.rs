//! Where an uploaded file is kept.

use std::path::PathBuf;
use vstd::prelude::*;
use vstd::string::StringExecFns;

verus! {

/// A path of the standard library. It is carried along and never taken
/// apart.
#[verifier::external_type_specification]
#[verifier::external_body]
pub struct ExPathBuf(PathBuf);

/// `PathBuf::clone` of the standard library: the copy equals what was copied.
pub assume_specification[ <PathBuf as Clone>::clone ](path: &PathBuf) -> (copy: PathBuf)
    ensures
        copy == *path,
;

/// Something that can be reached under a path of the site.
pub trait GetWebPath {
    /// The path that [`GetWebPath::get_path`] spells. An implementation that
    /// does not say which leaves it open.
    open spec fn spec_path(&self) -> Seq<char> {
        arbitrary()
    }

    fn get_path(&self) -> (path: String)
        ensures
            path@ == self.spec_path(),
    ;

    /// The path behind `base_url`, joined by a slash.
    fn get_url(&self, base_url: String) -> (url: String)
        ensures
            url@ == base_url@ + "/"@ + self.spec_path(),
    {
        let path = self.get_path();
        base_url.concat("/").concat(path.as_str())
    }
}

/// The place of a file and its size there. The size is recorded when the
/// file is stored and is not kept in step with later changes to the file.
#[derive(Debug, PartialEq, Eq)]
pub enum FileLocation {
    Local { location: PathBuf, size: usize },
}

/// The digests that can accompany a file.
#[derive(Debug, Clone, Copy, PartialEq, Eq)]
pub enum HashFileType {
    MD5,
    SHA256,
}

/// A digest kept beside a file.
#[derive(Debug, PartialEq, Eq)]
pub struct HashFile {
    pub hash_type: HashFileType,
    pub file: FileLocation,
    pub content: Vec<u8>,
}

impl Clone for FileLocation {
    fn clone(&self) -> (copy: Self)
        ensures
            copy == *self,
    {
        match self {
            FileLocation::Local { location, size } => FileLocation::Local {
                location: location.clone(),
                size: *size,
            },
        }
    }
}

impl Clone for HashFile {
    fn clone(&self) -> (copy: Self)
        ensures
            copy.hash_type == self.hash_type,
            copy.file == self.file,
            copy.content@ == self.content@,
    {
        HashFile {
            hash_type: self.hash_type,
            file: self.file.clone(),
            content: self.content.clone(),
        }
    }
}

impl FileLocation {
    pub fn new_local(location: PathBuf, size: usize) -> (file: Self)
        ensures
            file == (FileLocation::Local { location, size }),
    {
        FileLocation::Local { location, size }
    }

    /// The size recorded for the file.
    pub open spec fn spec_file_size(&self) -> usize {
        match self {
            FileLocation::Local { size, .. } => *size,
        }
    }

    pub fn file_size(&self) -> (size: usize)
        ensures
            size == self.spec_file_size(),
    {
        match self {
            FileLocation::Local { size, .. } => *size,
        }
    }

    /// The digests kept beside the file: a local file has none.
    pub fn get_hash_files(&self) -> (hash_files: Vec<HashFile>)
        ensures
            hash_files@.len() == 0,
    {
        match self {
            FileLocation::Local { .. } => Vec::new(),
        }
    }
}

} // verus!
