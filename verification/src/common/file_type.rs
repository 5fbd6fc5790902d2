//! What kind of content a file holds.

use vstd::prelude::*;
use vstd::string::StringExecFns;

verus! {

/// The media type, character set and languages of a file.
#[derive(Debug, PartialEq, Eq, Hash)]
pub struct FileType {
    pub mime_type: String,
    pub charset: String,
    pub programming_language: Option<String>,
    pub content_language: Option<String>,
}

/// The media type of a file of which nothing else is known.
pub fn default_mime_type() -> (mime_type: String)
    ensures
        mime_type@ == "text/plain"@,
{
    "text/plain".to_owned()
}

/// The character set that goes without saying.
pub fn default_charset() -> (charset: String)
    ensures
        charset@ == "UTF-8"@,
{
    "UTF-8".to_owned()
}

impl Clone for FileType {
    fn clone(&self) -> (copy: Self)
        ensures
            copy == *self,
    {
        FileType {
            mime_type: self.mime_type.clone(),
            charset: self.charset.clone(),
            programming_language: match &self.programming_language {
                Some(language) => Some(language.clone()),
                None => None,
            },
            content_language: match &self.content_language {
                Some(language) => Some(language.clone()),
                None => None,
            },
        }
    }
}

impl FileType {
    pub fn new(mime_type: String, charset: String) -> (file_type: Self)
        ensures
            file_type == (FileType {
                mime_type,
                charset,
                programming_language: None,
                content_language: None,
            }),
    {
        FileType { mime_type, charset, programming_language: None, content_language: None }
    }

    /// What [`FileType::mime_type_string`] spells: the media type, followed
    /// by the character set unless that is UTF-8.
    pub open spec fn spec_mime_type_string(&self) -> Seq<char> {
        if self.charset@ == "UTF-8"@ {
            self.mime_type@
        } else {
            self.mime_type@ + "; charset="@ + self.charset@
        }
    }

    /// The value of a `Content-Type` header for this file.
    pub fn mime_type_string(&self) -> (content_type: String)
        ensures
            content_type@ == self.spec_mime_type_string(),
    {
        let content_type = self.mime_type.clone();
        if self.charset != default_charset() {
            content_type.concat("; charset=").concat(self.charset.as_str())
        } else {
            content_type
        }
    }
}

impl Default for FileType {
    fn default() -> (file_type: Self)
        ensures
            file_type.mime_type@ == "text/plain"@,
            file_type.charset@ == "UTF-8"@,
            file_type.programming_language is None,
            file_type.content_language is None,
    {
        FileType {
            mime_type: default_mime_type(),
            charset: default_charset(),
            programming_language: None,
            content_language: None,
        }
    }
}

} // verus!
