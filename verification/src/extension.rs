//! The extension's state: the paths it has resolved so far, kept for as long
//! as the process lives, and the steps that resolve the language server.
//!
//! Resolving a tool takes work that only the editor can do: looking a name up
//! on the search path, asking the release index, downloading. Each step here
//! takes the answer to the previous request and says what to do next.

use crate::assets::{
    archive_kind, archive_kind_spec, asset_name, asset_name_spec, binary_path, binary_path_spec,
    find_asset, has_asset, is_first_named, server_repo, version_dir, version_dir_spec,
    DownloadPlan, InstallationStatus, Release, ReleaseQuery,
};
use crate::error::Error;
use crate::luacats::{
    compiler, compiler_spec, library_path, library_path_spec, luacats_plan, luacats_plan_for,
    sdk_version, sdk_version_spec, trim_spec, LuacatsPlan, VersionProbe,
};
use crate::platform::{arch_label_spec, PlatformId};
use crate::text::same_text;
use vstd::prelude::*;
use vstd::string::*;
use vstd::utf8::{decode_utf8, valid_utf8};

verus! {

/// The paths resolved so far. Each is written once and never dropped.
#[derive(Clone, Debug, PartialEq, Eq)]
pub struct PlaydateExtension {
    cached_binary_path: Option<String>,
    cached_luacats_path: Option<String>,
}

/// What the first step of resolving the language server found.
#[derive(Clone, Debug, PartialEq, Eq)]
pub enum ServerLookup {
    /// The server is at hand: nothing is to be fetched.
    Ready(String),
    /// The release index has to be asked.
    NeedRelease(ReleaseQuery),
}

/// What the first step of resolving the type definitions found.
#[derive(Clone, Debug, PartialEq, Eq)]
pub enum LuacatsLookup {
    /// The definitions are at hand: nothing is to be fetched.
    Ready(String),
    /// The SDK's compiler, of this name, has to be looked for on the search
    /// path.
    FindCompiler(String),
}

/// How to start the language server.
#[derive(Clone, Debug, PartialEq, Eq)]
pub struct LanguageServerCommand {
    pub command: String,
    pub args: Vec<String>,
    pub env: Vec<(String, String)>,
}

/// The name of the language server this extension serves.
pub open spec fn server_id_spec() -> Seq<char> {
    "playdate-lua-language-server"@
}

/// The name of the executable looked for on the search path.
pub open spec fn server_executable_spec() -> Seq<char> {
    "lua-language-server"@
}

/// The path that needs no download: the one found on the search path, else
/// the one resolved earlier.
pub open spec fn at_hand(on_path: Option<String>, cache: Option<Seq<char>>) -> Option<Seq<char>> {
    match on_path {
        Some(path) => Some(path@),
        None => cache,
    }
}

/// The path that is remembered once `path` was resolved: the one that was
/// remembered before, where there was one. A remembered path is never
/// replaced.
pub open spec fn remembered(cache: Option<Seq<char>>, path: Seq<char>) -> Seq<char> {
    match cache {
        Some(earlier) => earlier,
        None => path,
    }
}

/// The cache after a download ended that would put the executable at
/// `binary_path`: a success is remembered, unless a path was remembered
/// already; a failure changes nothing.
pub open spec fn cache_after_download(
    cache: Option<Seq<char>>,
    binary_path: Seq<char>,
    downloaded: bool,
) -> Option<Seq<char>> {
    if downloaded {
        Some(remembered(cache, binary_path))
    } else {
        cache
    }
}

/// Whether `plan` is the download of `release` for a platform whose
/// architecture is called `arch`.
pub open spec fn plan_for(plan: DownloadPlan, release: Release, platform: PlatformId, arch: Seq<char>) -> bool {
    let name = asset_name_spec(release.version@, platform.os, arch);
    &&& plan.status == InstallationStatus::Downloading
    &&& plan.asset_name@ == name
    &&& exists|i: int| #[trigger]
        is_first_named(release.assets@, name, i) && plan.url == release.assets@[i].download_url
    &&& plan.dir@ == version_dir_spec(release.version@)
    &&& plan.kind == archive_kind_spec(platform.os)
    &&& plan.binary_path@ == binary_path_spec(release.version@, platform.os)
}

/// A server that was downloaded is at hand from then on: the next lookup
/// that finds nothing on the search path gives the same path, and asks for
/// no release and no download.
pub proof fn law_downloaded_server_is_at_hand(
    before: PlaydateExtension,
    after: PlaydateExtension,
    binary_path: Seq<char>,
)
    requires
        before.binary_cache() is None,
        after.binary_cache() == cache_after_download(before.binary_cache(), binary_path, true),
    ensures
        at_hand(None, after.binary_cache()) == Some(binary_path),
{
}

/// A path that was resolved stays resolved: whatever download ends later,
/// and however, the same path is at hand.
pub proof fn law_resolved_server_stays(
    before: PlaydateExtension,
    after: PlaydateExtension,
    binary_path: Seq<char>,
    downloaded: bool,
)
    requires
        before.binary_cache() is Some,
        after.binary_cache() == cache_after_download(
            before.binary_cache(),
            binary_path,
            downloaded,
        ),
    ensures
        after.binary_cache() == before.binary_cache(),
        at_hand(None, after.binary_cache()) == before.binary_cache(),
{
}

/// The name of the language server this extension serves.
pub fn server_id() -> (s: &'static str)
    ensures
        s@ == server_id_spec(),
{
    "playdate-lua-language-server"
}

/// The name of the executable looked for on the search path.
pub fn server_executable() -> (s: &'static str)
    ensures
        s@ == server_executable_spec(),
{
    "lua-language-server"
}

impl PlaydateExtension {
    /// The language-server path resolved earlier, if any.
    pub closed spec fn binary_cache(&self) -> Option<Seq<char>> {
        match self.cached_binary_path {
            Some(path) => Some(path@),
            None => None,
        }
    }

    /// The type-definition path resolved earlier, if any.
    pub closed spec fn luacats_cache(&self) -> Option<Seq<char>> {
        match self.cached_luacats_path {
            Some(path) => Some(path@),
            None => None,
        }
    }

    /// A fresh state: nothing resolved yet.
    pub fn new() -> (ext: PlaydateExtension)
        ensures
            ext.binary_cache() is None,
            ext.luacats_cache() is None,
    {
        PlaydateExtension { cached_binary_path: None, cached_luacats_path: None }
    }

    /// The language-server path resolved earlier, if any.
    pub fn cached_binary_path(&self) -> (r: Option<String>)
        ensures
            r is Some <==> self.binary_cache() is Some,
            r is Some ==> r->0@ == self.binary_cache()->0,
    {
        self.cached_binary_path.clone()
    }

    /// The type-definition path resolved earlier, if any.
    pub fn cached_luacats_path(&self) -> (r: Option<String>)
        ensures
            r is Some <==> self.luacats_cache() is Some,
            r is Some ==> r->0@ == self.luacats_cache()->0,
    {
        self.cached_luacats_path.clone()
    }

    /// First step of resolving the language server. `on_path` is what the
    /// search path gave for the server's executable. A server found there
    /// wins, then one resolved earlier; else the release index is to be
    /// asked, unless no release exists for the platform.
    pub fn language_server_binary_path(&self, on_path: Option<String>, platform: PlatformId) -> (r:
        Result<ServerLookup, Error>)
        ensures
            match at_hand(on_path, self.binary_cache()) {
                Some(path) => r is Ok && r->Ok_0 is Ready && r->Ok_0->Ready_0@ == path,
                None => if arch_label_spec(platform.arch) is None {
                    r == Err::<ServerLookup, Error>(Error::UnsupportedPlatform)
                } else {
                    &&& r is Ok
                    &&& r->Ok_0 is NeedRelease
                    &&& r->Ok_0->NeedRelease_0.status == InstallationStatus::CheckingForUpdate
                    &&& r->Ok_0->NeedRelease_0.repo@ == server_repo()
                    &&& r->Ok_0->NeedRelease_0.require_assets
                    &&& !r->Ok_0->NeedRelease_0.pre_release
                },
            },
            on_path is Some ==> r == Ok::<ServerLookup, Error>(ServerLookup::Ready(on_path->0)),
    {
        if let Some(path) = on_path {
            return Ok(ServerLookup::Ready(path));
        }
        if let Some(path) = &self.cached_binary_path {
            return Ok(ServerLookup::Ready(path.clone()));
        }
        if !platform.supported() {
            return Err(Error::UnsupportedPlatform);
        }
        Ok(
            ServerLookup::NeedRelease(
                ReleaseQuery {
                    status: InstallationStatus::CheckingForUpdate,
                    repo: String::from_str("LuaLS/lua-language-server"),
                    require_assets: true,
                    pre_release: false,
                },
            ),
        )
    }

    /// First step of resolving the type definitions. Definitions resolved
    /// earlier are at hand; else the SDK's compiler is to be looked for.
    pub fn playdate_luacats_path(&self) -> (r: LuacatsLookup)
        ensures
            match self.luacats_cache() {
                Some(path) => r is Ready && r->Ready_0@ == path,
                None => r is FindCompiler && r->FindCompiler_0@ == compiler_spec(),
            },
    {
        match &self.cached_luacats_path {
            Some(path) => LuacatsLookup::Ready(path.clone()),
            None => LuacatsLookup::FindCompiler(String::from_str(compiler())),
        }
    }

    /// Remembers `path` as the library of the type definitions, unless one
    /// is remembered already, and gives the remembered one.
    pub fn remember_luacats_path(&mut self, path: String) -> (r: String)
        ensures
            r@ == remembered(old(self).luacats_cache(), path@),
            old(self).luacats_cache() is None ==> r == path,
            final(self).luacats_cache() == Some(r@),
            final(self).binary_cache() == old(self).binary_cache(),
    {
        if let Some(earlier) = &self.cached_luacats_path {
            return earlier.clone();
        }
        self.cached_luacats_path = Some(path.clone());
        path
    }

    /// Remembers `path` as the language server's executable, unless one is
    /// remembered already, and gives the remembered one.
    pub fn remember_binary_path(&mut self, path: String) -> (r: String)
        ensures
            r@ == remembered(old(self).binary_cache(), path@),
            old(self).binary_cache() is None ==> r == path,
            final(self).binary_cache() == Some(r@),
            final(self).luacats_cache() == old(self).luacats_cache(),
    {
        if let Some(earlier) = &self.cached_binary_path {
            return earlier.clone();
        }
        self.cached_binary_path = Some(path.clone());
        path
    }

    /// Last step of resolving the type definitions: `outcome` is how the
    /// download of `plan` ended, and `work_dir` the directory it was unpacked
    /// in. After a success the library's path is formed below `work_dir`,
    /// remembered and given, unless one was remembered already, which then
    /// stays and is given. A failed download, or an unknown directory after
    /// a download, is reported with the host's text and leaves the state as
    /// it was.
    pub fn finish_luacats_download(
        &mut self,
        plan: &LuacatsPlan,
        outcome: Result<(), String>,
        work_dir: Result<String, String>,
    ) -> (r: Result<String, Error>)
        ensures
            final(self).binary_cache() == old(self).binary_cache(),
            old(self).luacats_cache() is Some ==> final(self).luacats_cache() == old(
                self,
            ).luacats_cache(),
            match outcome {
                Err(detail) => {
                    &&& r == Err::<String, Error>(
                        Error::TypeDefinitionsDownloadFailed { tag: plan.tag, detail },
                    )
                    &&& final(self).luacats_cache() == old(self).luacats_cache()
                },
                Ok(_) => match work_dir {
                    Err(detail) => {
                        &&& r == Err::<String, Error>(Error::WorkDirUnavailable { detail })
                        &&& final(self).luacats_cache() == old(self).luacats_cache()
                    },
                    Ok(dir) => {
                        &&& r is Ok
                        &&& r->Ok_0@ == remembered(
                            old(self).luacats_cache(),
                            library_path_spec(dir@, plan.dir@),
                        )
                        &&& final(self).luacats_cache() == Some(r->Ok_0@)
                    },
                },
            },
    {
        if let Err(detail) = outcome {
            return Err(Error::TypeDefinitionsDownloadFailed { tag: plan.tag.clone(), detail });
        }
        match work_dir {
            Err(detail) => Err(Error::WorkDirUnavailable { detail }),
            Ok(dir) => {
                let path = library_path(dir.as_str(), plan.dir.as_str());
                Ok(self.remember_luacats_path(path))
            },
        }
    }

    /// Last step of resolving the language server: `outcome` is how the
    /// download of `plan` ended. After a success the executable's path is
    /// remembered and given, unless one was remembered already, which then
    /// stays and is given. A failure is reported with the address that was
    /// tried and the host's text, and leaves the state as it was.
    pub fn finish_server_download(&mut self, plan: &DownloadPlan, outcome: Result<(), String>) -> (r:
        Result<String, Error>)
        ensures
            final(self).binary_cache() == cache_after_download(
                old(self).binary_cache(),
                plan.binary_path@,
                outcome is Ok,
            ),
            old(self).binary_cache() is Some ==> final(self).binary_cache() == old(
                self,
            ).binary_cache(),
            final(self).luacats_cache() == old(self).luacats_cache(),
            match outcome {
                Ok(_) => r is Ok && r->Ok_0@ == remembered(
                    old(self).binary_cache(),
                    plan.binary_path@,
                ),
                Err(detail) => r == Err::<String, Error>(
                    Error::DownloadFailed { url: plan.url, detail },
                ),
            },
    {
        match outcome {
            Ok(_) => Ok(self.remember_binary_path(plan.binary_path.clone())),
            Err(detail) => Err(Error::DownloadFailed { url: plan.url.clone(), detail }),
        }
    }
}

/// Refuses a language server other than the one served.
pub fn check_language_server(id: &str) -> (r: Result<(), Error>)
    ensures
        if id@ == server_id_spec() {
            r is Ok
        } else {
            r matches Err(Error::UnsupportedServer { id: refused }) && refused@ == id@
        },
{
    if same_text(id, server_id()) {
        Ok(())
    } else {
        Err(Error::UnsupportedServer { id: String::from_str(id) })
    }
}

/// The command that starts the language server `id`, whose executable was
/// resolved to `binary_path`: the executable alone, with no arguments and no
/// variables of its own.
pub fn language_server_command(id: &str, binary_path: String) -> (r: Result<
    LanguageServerCommand,
    Error,
>)
    ensures
        if id@ == server_id_spec() {
            &&& r is Ok
            &&& r->Ok_0.command == binary_path
            &&& r->Ok_0.args@.len() == 0
            &&& r->Ok_0.env@.len() == 0
        } else {
            r matches Err(Error::UnsupportedServer { id: refused }) && refused@ == id@
        },
{
    match check_language_server(id) {
        Err(e) => Err(e),
        Ok(_) => Ok(LanguageServerCommand { command: binary_path, args: Vec::new(), env: Vec::new() }),
    }
}

/// Second step of resolving the language server: `answer` is what the
/// release index gave. The archive for the platform is picked by its exact
/// name; the first asset so named gives the address.
pub fn plan_server_download(answer: Result<Release, String>, platform: PlatformId) -> (r: Result<
    DownloadPlan,
    Error,
>)
    ensures
        match answer {
            Err(detail) => r == Err::<DownloadPlan, Error>(Error::ReleaseQueryFailed { detail }),
            Ok(release) => match arch_label_spec(platform.arch) {
                None => r == Err::<DownloadPlan, Error>(Error::UnsupportedPlatform),
                Some(arch) => {
                    let name = asset_name_spec(release.version@, platform.os, arch);
                    if has_asset(release.assets@, name) {
                        r is Ok && plan_for(r->Ok_0, release, platform, arch)
                    } else {
                        r matches Err(Error::AssetNotFound { name: missing }) && missing@ == name
                    }
                },
            },
        },
{
    let release = match answer {
        Err(detail) => {
            return Err(Error::ReleaseQueryFailed { detail });
        },
        Ok(release) => release,
    };
    let name = match asset_name(release.version.as_str(), platform) {
        Err(e) => {
            return Err(e);
        },
        Ok(name) => name,
    };
    match find_asset(&release.assets, name.as_str()) {
        None => Err(Error::AssetNotFound { name }),
        Some(i) => {
            let plan = DownloadPlan {
                status: InstallationStatus::Downloading,
                asset_name: name,
                url: release.assets[i].download_url.clone(),
                dir: version_dir(release.version.as_str()),
                kind: archive_kind(platform.os),
                binary_path: binary_path(release.version.as_str(), platform.os),
            };
            proof {
                let ghost arch = arch_label_spec(platform.arch)->0;
                assert(is_first_named(
                    release.assets@,
                    asset_name_spec(release.version@, platform.os, arch),
                    i as int,
                ));
            }
            Ok(plan)
        },
    }
}

/// Second step of resolving the type definitions: `pdc` is what the search
/// path gave for the SDK's compiler. The compiler is to be run with
/// `--version`; its absence is a failure.
pub fn plan_version_probe(pdc: Option<String>) -> (r: Result<VersionProbe, Error>)
    ensures
        match pdc {
            None => r == Err::<VersionProbe, Error>(Error::CompilerNotFound),
            Some(program) => {
                &&& r is Ok
                &&& r->Ok_0.program == program
                &&& r->Ok_0.args@.len() == 1
                &&& r->Ok_0.args@[0]@ == "--version"@
            },
        },
{
    match pdc {
        None => Err(Error::CompilerNotFound),
        Some(program) => {
            let mut args: Vec<String> = Vec::new();
            args.push(String::from_str("--version"));
            Ok(VersionProbe { program, args })
        },
    }
}

/// Third step of resolving the type definitions: `probe` is what running
/// the compiler gave, its standard output or the reason it did not run. The
/// package is the one tagged for the version that the compiler printed.
pub fn plan_luacats_download(probe: Result<Vec<u8>, String>) -> (r: Result<LuacatsPlan, Error>)
    ensures
        match probe {
            Err(detail) => r == Err::<LuacatsPlan, Error>(Error::VersionProbeFailed { detail }),
            Ok(output) => {
                &&& r is Ok
                &&& luacats_plan_for(r->Ok_0, sdk_version_spec(output@))
                &&& valid_utf8(output@) ==> luacats_plan_for(
                    r->Ok_0,
                    trim_spec(decode_utf8(output@)),
                )
            },
        },
{
    match probe {
        Err(detail) => Err(Error::VersionProbeFailed { detail }),
        Ok(output) => {
            let version = sdk_version(output.as_slice());
            Ok(luacats_plan(version.as_str()))
        },
    }
}

} // verus!
