//! Naming and picking the language-server download for a platform.

use crate::error::Error;
use crate::platform::{
    arch_label, arch_label_spec, archive_extension, archive_extension_spec, exe_suffix,
    exe_suffix_spec, os_label, os_label_spec, Os, PlatformId,
};
use crate::text::{joined, same_text};
use vstd::prelude::*;
use vstd::string::*;

verus! {

/// A file attached to a release.
#[derive(Clone, Debug, PartialEq, Eq)]
pub struct ReleaseAsset {
    pub name: String,
    pub download_url: String,
}

/// A published version with the files attached to it.
#[derive(Clone, Debug, PartialEq, Eq)]
pub struct Release {
    pub version: String,
    pub assets: Vec<ReleaseAsset>,
}

/// How a downloaded file is packed.
#[derive(Clone, Copy, Debug, PartialEq, Eq, Structural)]
pub enum ArchiveKind {
    GzipTar,
    Zip,
}

/// What the editor shows while the server is being installed.
#[derive(Clone, Copy, Debug, PartialEq, Eq, Structural)]
pub enum InstallationStatus {
    CheckingForUpdate,
    Downloading,
}

/// A question to the release index: the latest release of `repo`.
#[derive(Clone, Debug, PartialEq, Eq)]
pub struct ReleaseQuery {
    /// The status to show before asking.
    pub status: InstallationStatus,
    pub repo: String,
    /// Only releases with files attached qualify.
    pub require_assets: bool,
    /// Whether pre-releases qualify.
    pub pre_release: bool,
}

/// A download to perform: fetch `url` and unpack it into `dir`.
#[derive(Clone, Debug, PartialEq, Eq)]
pub struct DownloadPlan {
    /// The status to show before downloading.
    pub status: InstallationStatus,
    pub asset_name: String,
    pub url: String,
    pub dir: String,
    pub kind: ArchiveKind,
    /// Where the server's executable lies once `dir` is unpacked.
    pub binary_path: String,
}

/// The repository that publishes the language server.
pub open spec fn server_repo() -> Seq<char> {
    "LuaLS/lua-language-server"@
}

/// The archive of `version` for a platform, whose architecture is called
/// `arch`: `lua-language-server-{version}-{os}-{arch}.{extension}`.
pub open spec fn asset_name_spec(version: Seq<char>, os: Os, arch: Seq<char>) -> Seq<char> {
    "lua-language-server-"@ + version + "-"@ + os_label_spec(os) + "-"@ + arch + "."@
        + archive_extension_spec(os)
}

/// The directory that `version` is unpacked into.
pub open spec fn version_dir_spec(version: Seq<char>) -> Seq<char> {
    "lua-language-server-"@ + version
}

/// The server's executable inside the unpacked directory.
pub open spec fn binary_path_spec(version: Seq<char>, os: Os) -> Seq<char> {
    version_dir_spec(version) + "/bin/lua-language-server"@ + exe_suffix_spec(os)
}

/// How the archive for an operating system is packed.
pub open spec fn archive_kind_spec(os: Os) -> ArchiveKind {
    match os {
        Os::Mac | Os::Linux => ArchiveKind::GzipTar,
        Os::Windows => ArchiveKind::Zip,
    }
}

/// Whether `i` is the place of the first asset called `name`.
pub open spec fn is_first_named(assets: Seq<ReleaseAsset>, name: Seq<char>, i: int) -> bool {
    &&& 0 <= i < assets.len()
    &&& assets[i].name@ == name
    &&& forall|j: int| 0 <= j < i ==> assets[j].name@ != name
}

/// Whether some asset is called `name`.
pub open spec fn has_asset(assets: Seq<ReleaseAsset>, name: Seq<char>) -> bool {
    exists|i: int| 0 <= i < assets.len() && assets[i].name@ == name
}

/// How the archive for an operating system is packed.
pub fn archive_kind(os: Os) -> (k: ArchiveKind)
    ensures
        k == archive_kind_spec(os),
{
    match os {
        Os::Mac | Os::Linux => ArchiveKind::GzipTar,
        Os::Windows => ArchiveKind::Zip,
    }
}

/// The name of the archive of `version` for `platform`. Fails on the one
/// architecture for which none is published.
pub fn asset_name(version: &str, platform: PlatformId) -> (r: Result<String, Error>)
    ensures
        match arch_label_spec(platform.arch) {
            Some(arch) => r is Ok && r->Ok_0@ == asset_name_spec(version@, platform.os, arch),
            None => r == Err::<String, Error>(Error::UnsupportedPlatform),
        },
{
    match arch_label(platform.arch) {
        None => Err(Error::UnsupportedPlatform),
        Some(arch) => {
            let mut name = joined("lua-language-server-", version);
            name.append("-");
            name.append(os_label(platform.os));
            name.append("-");
            name.append(arch);
            name.append(".");
            name.append(archive_extension(platform.os));
            Ok(name)
        },
    }
}

/// The directory that `version` is unpacked into.
pub fn version_dir(version: &str) -> (r: String)
    ensures
        r@ == version_dir_spec(version@),
{
    joined("lua-language-server-", version)
}

/// The server's executable inside the unpacked directory of `version`.
pub fn binary_path(version: &str, os: Os) -> (r: String)
    ensures
        r@ == binary_path_spec(version@, os),
{
    let mut path = version_dir(version);
    path.append("/bin/lua-language-server");
    path.append(exe_suffix(os));
    path
}

/// The place of the first asset whose name is exactly `name`.
pub fn find_asset(assets: &Vec<ReleaseAsset>, name: &str) -> (r: Option<usize>)
    ensures
        r is Some <==> has_asset(assets@, name@),
        r is Some ==> is_first_named(assets@, name@, r->0 as int),
{
    let n = assets.len();
    let mut i: usize = 0;
    while i < n
        invariant
            n == assets@.len(),
            i <= n,
            forall|j: int| 0 <= j < i ==> assets@[j].name@ != name@,
        decreases n - i,
    {
        if same_text(assets[i].name.as_str(), name) {
            return Some(i);
        }
        i = i + 1;
    }
    None
}

} // verus!
