//! The command line's view of a file to decode: what kind it is and where
//! it lies.

use vstd::prelude::*;
use vstd::string::StrSliceExecFns;
use std::path::PathBuf;
use crate::text::str_equal;

verus! {

/// `std::path::PathBuf`, which is carried through as it is.
#[verifier::external_type_specification]
#[verifier::external_body]
pub struct ExPathBuf(PathBuf);

/// Accepted file types.
#[derive(Debug, Clone, Copy, PartialEq, Eq, Structural)]
pub enum ArgType {
    /// An app package, whose manifest is decoded.
    Apk,
    /// An Android binary XML file.
    Axml,
    /// A resource table file.
    Arsc,
}

/// Any file that can be decoded, by its kind.
#[derive(Debug)]
pub struct Target {
    /// Path to an app package.
    pub apk: Option<String>,
    /// Path to an Android binary XML file.
    pub xml: Option<String>,
    /// Path to a resource table file.
    pub res: Option<String>,
}

/// The arguments of a run.
#[derive(Debug)]
pub struct Args {
    /// Path to the file to decode.
    pub target: Target,
    /// Path to the output file to write the decoded content to.
    pub output: Option<PathBuf>,
}

/// The index after the last dot of a path, and 0 where it has no dot.
pub open spec fn spec_after_last_dot(path: Seq<char>) -> int
    decreases path.len(),
{
    if path.len() == 0 {
        0
    } else if path.last() == '.' {
        path.len() as int
    } else {
        spec_after_last_dot(path.drop_last())
    }
}

/// What follows the last dot of a path; the whole path where it has no dot.
pub open spec fn spec_extension(path: Seq<char>) -> Seq<char> {
    path.subrange(spec_after_last_dot(path), path.len() as int)
}

impl ArgType {
    /// The file type that a path's extension stands for.
    pub open spec fn spec_from_path(path: Seq<char>) -> Option<ArgType> {
        let extension = spec_extension(path);
        if extension == "apk"@ {
            Some(ArgType::Apk)
        } else if extension == "xml"@ {
            Some(ArgType::Axml)
        } else if extension == "arsc"@ {
            Some(ArgType::Arsc)
        } else {
            None
        }
    }

    /// Infers the file type from the extension of a path: `apk`, `xml` or
    /// `arsc`. `None` where the extension is none of them.
    pub fn from_path(file_path: &str) -> (r: Option<ArgType>)
        ensures
            r == Self::spec_from_path(file_path@),
    {
        let len: usize = file_path.unicode_len();
        let mut i: usize = len;
        assert(file_path@.take(len as int) == file_path@);
        while i > 0 && file_path.get_char(i - 1) != '.'
            invariant
                i <= len,
                len == file_path@.len(),
                spec_after_last_dot(file_path@) == spec_after_last_dot(file_path@.take(i as int)),
            decreases i,
        {
            assert(file_path@.take(i as int).drop_last() == file_path@.take(i - 1));
            i -= 1;
        }
        let extension: &str = file_path.substring_char(i, len);
        if str_equal(extension, "apk") {
            Some(ArgType::Apk)
        } else if str_equal(extension, "xml") {
            Some(ArgType::Axml)
        } else if str_equal(extension, "arsc") {
            Some(ArgType::Arsc)
        } else {
            None
        }
    }
}

impl Args {
    /// True where a path is given under at least one kind.
    pub open spec fn has_target(&self) -> bool {
        self.target.apk is Some || self.target.xml is Some || self.target.res is Some
    }

    /// The kind under which the path is given: an app package before a
    /// binary XML file before a resource table.
    pub open spec fn spec_arg_type(&self) -> ArgType {
        if self.target.apk is Some {
            ArgType::Apk
        } else if self.target.xml is Some {
            ArgType::Axml
        } else {
            ArgType::Arsc
        }
    }

    /// The path that is given, by the same precedence.
    pub open spec fn spec_arg_path(&self) -> Seq<char> {
        if self.target.apk is Some {
            self.target.apk->0@
        } else if self.target.xml is Some {
            self.target.xml->0@
        } else {
            self.target.res->0@
        }
    }

    /// The type of the file to decode.
    pub fn get_arg_type(&self) -> (t: ArgType)
        requires
            self.has_target(),
        ensures
            t == self.spec_arg_type(),
    {
        if self.target.apk.is_some() {
            return ArgType::Apk;
        }
        if self.target.xml.is_some() {
            return ArgType::Axml;
        }
        ArgType::Arsc
    }

    /// The path of the file to decode.
    pub fn get_arg_path(&self) -> (path: String)
        requires
            self.has_target(),
        ensures
            path@ == self.spec_arg_path(),
    {
        if self.target.apk.is_some() {
            return self.target.apk.as_ref().unwrap().clone();
        }
        if self.target.xml.is_some() {
            return self.target.xml.as_ref().unwrap().clone();
        }
        self.target.res.as_ref().unwrap().clone()
    }
}

} // verus!
