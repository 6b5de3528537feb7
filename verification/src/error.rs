//! The failures this library reports, each with the text shown to the user.

use crate::text::{joined, occurs_at, occurs_in};
use vstd::prelude::*;
use vstd::string::*;

verus! {

/// The four families of failure.
#[derive(Clone, Copy, Debug, PartialEq, Eq, Structural)]
pub enum ErrorKind {
    /// A tool, the SDK or a release asset is absent.
    NotFound,
    /// A request is malformed or lacks a required field.
    Validation,
    /// A download, a query or another piece of I/O failed.
    Transport,
    /// No release exists for the platform.
    UnsupportedPlatform,
}

/// A failure, with what is needed to act on it.
#[derive(Clone, Debug, PartialEq, Eq)]
pub enum Error {
    /// Language-server releases do not ship for 32-bit x86.
    UnsupportedPlatform,
    /// The release holds no asset of the expected name.
    AssetNotFound { name: String },
    /// The release index could not be queried; `detail` is the host's text.
    ReleaseQueryFailed { detail: String },
    /// The language-server archive at `url` could not be downloaded;
    /// `detail` is the host's text.
    DownloadFailed { url: String, detail: String },
    /// The SDK's compiler, `pdc`, is not on the search path.
    CompilerNotFound,
    /// `pdc --version` could not be run.
    VersionProbeFailed { detail: String },
    /// The type-definition archive for `tag` could not be downloaded.
    TypeDefinitionsDownloadFailed { tag: String, detail: String },
    /// The working directory could not be determined.
    WorkDirUnavailable { detail: String },
    /// The debug request is neither `launch` nor `attach`.
    InvalidRequest { value: String },
    /// A launch configuration names no game.
    MissingGamePath,
    /// The debug adapter asked for is not the one served.
    UnsupportedAdapter { name: String },
    /// The language server asked for is not the one served.
    UnsupportedServer { id: String },
}

/// What `{:?}` formatting makes of a string: the text in double quotes, with
/// the characters that Rust escapes written as escapes.
pub uninterp spec fn debug_quoted(s: Seq<char>) -> Seq<char>;

/// `<str as Debug>::fmt`, reached through `format!`. Trusted: the result is
/// the `{:?}` rendering of `s`, which depends on the characters of `s` alone.
#[verifier::external_body]
fn quote_debug(s: &str) -> (r: String)
    ensures
        r@ == debug_quoted(s@),
{
    format!("{:?}", s)
}

/// The report of a failed download names what was tried: its text holds
/// the address, and the host's text as well.
pub proof fn law_download_failure_names_address(url: String, detail: String)
    ensures
        occurs_in((Error::DownloadFailed { url, detail }).message_spec(), url@),
        occurs_in((Error::DownloadFailed { url, detail }).message_spec(), detail@),
{
    let head = "failed to download file "@;
    let message = (Error::DownloadFailed { url, detail }).message_spec();
    let at_url = head.len() as int;
    let at_detail = at_url + url@.len() + ": "@.len();
    assert(message.subrange(at_url, at_url + url@.len()) =~= url@);
    assert(occurs_at(message, url@, at_url));
    assert(message.subrange(at_detail, at_detail + detail@.len()) =~= detail@);
    assert(occurs_at(message, detail@, at_detail));
}

impl Error {
    /// The family a failure belongs to.
    pub open spec fn kind_spec(&self) -> ErrorKind {
        match self {
            Error::UnsupportedPlatform => ErrorKind::UnsupportedPlatform,
            Error::AssetNotFound { .. } | Error::CompilerNotFound => ErrorKind::NotFound,
            Error::ReleaseQueryFailed { .. }
            | Error::DownloadFailed { .. }
            | Error::VersionProbeFailed { .. }
            | Error::TypeDefinitionsDownloadFailed { .. }
            | Error::WorkDirUnavailable { .. } => ErrorKind::Transport,
            Error::InvalidRequest { .. }
            | Error::MissingGamePath
            | Error::UnsupportedAdapter { .. }
            | Error::UnsupportedServer { .. } => ErrorKind::Validation,
        }
    }

    /// The text shown to the user.
    pub open spec fn message_spec(&self) -> Seq<char> {
        match self {
            Error::UnsupportedPlatform => "unsupported platform x86"@,
            Error::AssetNotFound { name } => "no asset found matching "@ + debug_quoted(name@),
            Error::ReleaseQueryFailed { detail } => detail@,
            Error::DownloadFailed { url, detail } => "failed to download file "@ + url@ + ": "@
                + detail@,
            Error::CompilerNotFound => "pdc command not found in PATH"@,
            Error::VersionProbeFailed { detail } => "failed to run pdc --version: "@ + detail@,
            Error::TypeDefinitionsDownloadFailed { tag, detail } =>
                "failed to download playdate-luacats tag "@ + tag@ + ": "@ + detail@,
            Error::WorkDirUnavailable { detail } => "Failed to get extension directory: "@
                + detail@,
            Error::InvalidRequest { value } => "Invalid request type '"@ + value@
                + "'. Expected 'launch' or 'attach'"@,
            Error::MissingGamePath => "No game_path specified in launch configuration"@,
            Error::UnsupportedAdapter { name } => "Unsupported adapter name: "@ + name@,
            Error::UnsupportedServer { id } => "Unsupported language server ID: "@ + id@,
        }
    }

    /// The family this failure belongs to.
    pub fn kind(&self) -> (k: ErrorKind)
        ensures
            k == self.kind_spec(),
    {
        match self {
            Error::UnsupportedPlatform => ErrorKind::UnsupportedPlatform,
            Error::AssetNotFound { .. } | Error::CompilerNotFound => ErrorKind::NotFound,
            Error::ReleaseQueryFailed { .. }
            | Error::DownloadFailed { .. }
            | Error::VersionProbeFailed { .. }
            | Error::TypeDefinitionsDownloadFailed { .. }
            | Error::WorkDirUnavailable { .. } => ErrorKind::Transport,
            Error::InvalidRequest { .. }
            | Error::MissingGamePath
            | Error::UnsupportedAdapter { .. }
            | Error::UnsupportedServer { .. } => ErrorKind::Validation,
        }
    }

    /// The text shown to the user.
    pub fn message(&self) -> (m: String)
        ensures
            m@ == self.message_spec(),
    {
        match self {
            Error::UnsupportedPlatform => String::from_str("unsupported platform x86"),
            Error::AssetNotFound { name } => {
                let quoted = quote_debug(name.as_str());
                joined("no asset found matching ", quoted.as_str())
            },
            Error::ReleaseQueryFailed { detail } => detail.clone(),
            Error::DownloadFailed { url, detail } => {
                let mut m = joined("failed to download file ", url.as_str());
                m.append(": ");
                m.append(detail.as_str());
                m
            },
            Error::CompilerNotFound => String::from_str("pdc command not found in PATH"),
            Error::VersionProbeFailed { detail } => joined(
                "failed to run pdc --version: ",
                detail.as_str(),
            ),
            Error::TypeDefinitionsDownloadFailed { tag, detail } => {
                let mut m = joined("failed to download playdate-luacats tag ", tag.as_str());
                m.append(": ");
                m.append(detail.as_str());
                m
            },
            Error::WorkDirUnavailable { detail } => joined(
                "Failed to get extension directory: ",
                detail.as_str(),
            ),
            Error::InvalidRequest { value } => {
                let mut m = joined("Invalid request type '", value.as_str());
                m.append("'. Expected 'launch' or 'attach'");
                m
            },
            Error::MissingGamePath => String::from_str(
                "No game_path specified in launch configuration",
            ),
            Error::UnsupportedAdapter { name } => joined("Unsupported adapter name: ", name.as_str()),
            Error::UnsupportedServer { id } => joined(
                "Unsupported language server ID: ",
                id.as_str(),
            ),
        }
    }
}

} // verus!
