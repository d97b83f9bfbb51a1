//! The ways in which a resolution fails.

use vstd::prelude::*;
use vstd::string::StringExecFns;

verus! {

/// Where the icon set, and so the names that can be resolved, is documented.
pub const SUPPORTED_LOGOS: &'static str = "https://github.com/Lukas-W/font-logos";

/// The operation on the cache slot that failed.
#[derive(Debug, Clone, Copy, PartialEq, Eq, Structural)]
pub enum CacheOp {
    /// Looking for the cache file, or reading it.
    Read,
    /// Creating the directories above the cache file.
    CreateDir,
    /// Creating or writing the cache file.
    Write,
}

/// A failed resolution.
#[derive(Debug, Clone, PartialEq, Eq)]
pub enum FontLogoError {
    /// The icon table's source text did not parse. `detail` is the parser's
    /// own account of it.
    DataCorruption { detail: String },
    /// The file system refused an operation on the cache slot. `cause` is
    /// what the caller's environment reported.
    CacheIo { op: CacheOp, cause: String },
    /// No key of the table matched `name`, the name as it was handed in.
    NoMatch { name: String },
}

/// What a caller can branch on in a [`FontLogoError`]: the kind, and the
/// values that went into it. The parser's text is for people and is left out.
pub enum Failure {
    DataCorruption,
    CacheIo { op: CacheOp, cause: Seq<char> },
    NoMatch { name: Seq<char> },
}

impl View for FontLogoError {
    type V = Failure;

    open spec fn view(&self) -> Failure {
        match self {
            FontLogoError::DataCorruption { detail } => Failure::DataCorruption,
            FontLogoError::CacheIo { op, cause } => Failure::CacheIo { op: *op, cause: cause@ },
            FontLogoError::NoMatch { name } => Failure::NoMatch { name: name@ },
        }
    }
}

impl CacheOp {
    /// The sentence that introduces a failure of this operation.
    pub open spec fn context(self) -> Seq<char> {
        match self {
            CacheOp::Read => "Failed to read from cache file"@,
            CacheOp::CreateDir => "Failed to create cache directory"@,
            CacheOp::Write => "Failed to write logo to cache file"@,
        }
    }

    /// The sentence that introduces a failure of this operation.
    pub fn describe(self) -> (r: &'static str)
        ensures
            r@ == self.context(),
    {
        match self {
            CacheOp::Read => "Failed to read from cache file",
            CacheOp::CreateDir => "Failed to create cache directory",
            CacheOp::Write => "Failed to write logo to cache file",
        }
    }
}

impl FontLogoError {
    /// The text of [`FontLogoError::message`].
    pub open spec fn message_text(&self) -> Seq<char> {
        match self {
            FontLogoError::DataCorruption { detail } => {
                "Failed to deserialize font logos JSON file: "@ + detail@
            },
            FontLogoError::CacheIo { op, cause } => op.context() + ": "@ + cause@,
            FontLogoError::NoMatch { name } => {
                "No font logo found for distro: "@ + name@ + ". The supported logos are in "@
                    + SUPPORTED_LOGOS@
            },
        }
    }

    /// The failure in words: what was being done, then what went wrong. A
    /// name that was not matched comes with the place to look up the
    /// supported ones.
    pub fn message(&self) -> (r: String)
        ensures
            r@ == self.message_text(),
    {
        match self {
            FontLogoError::DataCorruption { detail } => {
                let mut text = "Failed to deserialize font logos JSON file: ".to_owned();
                text.append(detail.as_str());
                text
            },
            FontLogoError::CacheIo { op, cause } => {
                let mut text = op.describe().to_owned();
                text.append(": ");
                text.append(cause.as_str());
                text
            },
            FontLogoError::NoMatch { name } => {
                let mut text = "No font logo found for distro: ".to_owned();
                text.append(name.as_str());
                text.append(". The supported logos are in ");
                text.append(SUPPORTED_LOGOS);
                text
            },
        }
    }
}

} // verus!
