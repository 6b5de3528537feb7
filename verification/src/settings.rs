//! The settings handed to the Lua language server: what is the same for
//! every Playdate project, and what a workspace adds.

use crate::error::Error;
use crate::extension::{server_id, server_id_spec};
use crate::platform::Os;
use crate::sdk::{detect_sdk_path, detect_sdk_path_spec};
use crate::text::{joined, same_text};
use vstd::prelude::*;
use vstd::string::*;

verus! {

/// `runtime`: the Lua dialect.
#[derive(Clone, Debug, PartialEq, Eq)]
pub struct RuntimeSettings {
    pub version: String,
    /// `special`: functions that behave like a built-in one, each with the
    /// built-in's name.
    pub special: Vec<(String, String)>,
    /// `builtin`: standard-library modules, each with `enable` or `disable`.
    pub builtin: Vec<(String, String)>,
    /// `nonstandardSymbol`: operators beyond standard Lua.
    pub nonstandard_symbol: Vec<String>,
}

/// `diagnostics`: what is reported, and how loudly.
#[derive(Clone, Debug, PartialEq, Eq)]
pub struct DiagnosticsSettings {
    pub globals: Vec<String>,
    /// `disable`: checks that are switched off; absent where none is named.
    pub disable: Option<Vec<String>>,
    /// `severity`: checks, each with its level.
    pub severity: Vec<(String, String)>,
}

/// `workspace`: where libraries are found.
#[derive(Clone, Debug, PartialEq, Eq)]
pub struct WorkspaceSettings {
    pub library: Vec<String>,
    pub check_third_party: bool,
}

/// `completion`.
#[derive(Clone, Debug, PartialEq, Eq)]
pub struct CompletionSettings {
    pub call_snippet: String,
}

/// Everything under the key `Lua`.
#[derive(Clone, Debug, PartialEq, Eq)]
pub struct LuaSettings {
    pub runtime: RuntimeSettings,
    pub diagnostics: DiagnosticsSettings,
    pub workspace: WorkspaceSettings,
    pub completion: CompletionSettings,
}

/// The characters of each string of a list.
pub open spec fn texts(v: Seq<String>) -> Seq<Seq<char>> {
    v.map_values(|s: String| s@)
}

/// The characters of each pair of a list.
pub open spec fn text_pairs(v: Seq<(String, String)>) -> Seq<(Seq<char>, Seq<char>)> {
    v.map_values(|p: (String, String)| (p.0@, p.1@))
}

/// The compound assignment operators of the Playdate dialect.
pub open spec fn nonstandard_symbols_spec() -> Seq<Seq<char>> {
    seq!["+="@, "-="@, "*="@, "/="@, "//="@, "%="@, "<<="@, ">>="@, "&="@, "|="@, "^="@]
}

/// The standard-library modules that the console lacks.
pub open spec fn builtin_spec() -> Seq<(Seq<char>, Seq<char>)> {
    seq![("io"@, "disable"@), ("os"@, "disable"@), ("package"@, "disable"@)]
}

/// Whether `r` is the runtime of every Playdate project.
pub open spec fn is_playdate_runtime(r: RuntimeSettings) -> bool {
    &&& r.version@ == "Lua 5.4"@
    &&& text_pairs(r.special@) == seq![("import"@, "require"@)]
    &&& text_pairs(r.builtin@) == builtin_spec()
    &&& texts(r.nonstandard_symbol@) == nonstandard_symbols_spec()
}

/// Whether `d` is the diagnostics before a workspace is known: a second
/// definition of a field is hinted at, an unknown symbol warned of.
pub open spec fn is_initial_diagnostics(d: DiagnosticsSettings) -> bool {
    &&& texts(d.globals@) == seq!["playdate"@, "import"@]
    &&& d.disable is None
    &&& text_pairs(d.severity@) == seq![
        ("duplicate-set-field"@, "Hint"@),
        ("unknown-symbol"@, "Warning"@),
    ]
}

/// Whether `d` is the diagnostics of a workspace: a second definition of a
/// field is not reported, an unknown symbol hinted at.
pub open spec fn is_workspace_diagnostics(d: DiagnosticsSettings) -> bool {
    &&& texts(d.globals@) == seq!["playdate"@, "import"@]
    &&& d.disable is Some
    &&& texts(d.disable->0@) == seq!["duplicate-set-field"@]
    &&& text_pairs(d.severity@) == seq![("unknown-symbol"@, "Hint"@)]
}

/// The libraries of a workspace: the SDK's core libraries, where an SDK is
/// known, then the type definitions.
pub open spec fn library_paths_spec(sdk_path: Option<Seq<char>>, luacats_path: Seq<char>) -> Seq<
    Seq<char>,
> {
    match sdk_path {
        Some(sdk) => seq![sdk + "/CoreLibs"@, luacats_path],
        None => seq![luacats_path],
    }
}

/// Whether `s` is the settings of a workspace with the libraries `library`.
pub open spec fn is_workspace_settings(s: LuaSettings, library: Seq<Seq<char>>) -> bool {
    &&& is_playdate_runtime(s.runtime)
    &&& is_workspace_diagnostics(s.diagnostics)
    &&& texts(s.workspace.library@) == library
    &&& !s.workspace.check_third_party
    &&& s.completion.call_snippet@ == "Replace"@
}

/// Whether `s` is the settings before a workspace is known.
pub open spec fn is_initial_settings(s: LuaSettings) -> bool {
    &&& is_playdate_runtime(s.runtime)
    &&& is_initial_diagnostics(s.diagnostics)
    &&& s.workspace.library@.len() == 0
    &&& !s.workspace.check_third_party
    &&& s.completion.call_snippet@ == "Replace"@
}

/// Owned copies of `items`.
pub fn to_strings(items: &[&str]) -> (r: Vec<String>)
    ensures
        r@.len() == items@.len(),
        forall|i: int| 0 <= i < r@.len() ==> (#[trigger] r@[i])@ == items@[i]@,
{
    let n = items.len();
    let mut r: Vec<String> = Vec::new();
    let mut i: usize = 0;
    while i < n
        invariant
            n == items@.len(),
            i <= n,
            r@.len() == i,
            forall|j: int| 0 <= j < i ==> (#[trigger] r@[j])@ == items@[j]@,
        decreases n - i,
    {
        r.push(String::from_str(items[i]));
        i = i + 1;
    }
    r
}

/// Owned copies of `items`.
pub fn to_string_pairs(items: &[(&str, &str)]) -> (r: Vec<(String, String)>)
    ensures
        r@.len() == items@.len(),
        forall|i: int|
            0 <= i < r@.len() ==> (#[trigger] r@[i]).0@ == items@[i].0@ && r@[i].1@
                == items@[i].1@,
{
    let n = items.len();
    let mut r: Vec<(String, String)> = Vec::new();
    let mut i: usize = 0;
    while i < n
        invariant
            n == items@.len(),
            i <= n,
            r@.len() == i,
            forall|j: int|
                0 <= j < i ==> (#[trigger] r@[j]).0@ == items@[j].0@ && r@[j].1@ == items@[j].1@,
        decreases n - i,
    {
        r.push((String::from_str(items[i].0), String::from_str(items[i].1)));
        i = i + 1;
    }
    r
}

/// The runtime of every Playdate project.
pub fn playdate_runtime() -> (r: RuntimeSettings)
    ensures
        is_playdate_runtime(r),
{
    let special = to_string_pairs(&[("import", "require")]);
    let builtin = to_string_pairs(&[("io", "disable"), ("os", "disable"), ("package", "disable")]);
    let symbols = to_strings(&["+=", "-=", "*=", "/=", "//=", "%=", "<<=", ">>=", "&=", "|=", "^="]);
    assert(text_pairs(special@) =~= seq![("import"@, "require"@)]);
    assert(text_pairs(builtin@) =~= builtin_spec());
    assert(texts(symbols@) =~= nonstandard_symbols_spec());
    RuntimeSettings {
        version: String::from_str("Lua 5.4"),
        special,
        builtin,
        nonstandard_symbol: symbols,
    }
}

/// The libraries of a workspace, in the order in which they are searched.
pub fn library_paths(sdk_path: Option<String>, luacats_path: String) -> (r: Vec<String>)
    ensures
        texts(r@) == library_paths_spec(crate::debug::opt_view(sdk_path), luacats_path@),
{
    let mut paths: Vec<String> = Vec::new();
    if let Some(sdk) = sdk_path {
        paths.push(joined(sdk.as_str(), "/CoreLibs"));
    }
    paths.push(luacats_path);
    assert(texts(paths@) =~= library_paths_spec(crate::debug::opt_view(sdk_path), luacats_path@));
    paths
}

/// The settings before a workspace is known.
pub fn initial_settings() -> (s: LuaSettings)
    ensures
        is_initial_settings(s),
{
    let globals = to_strings(&["playdate", "import"]);
    let severity = to_string_pairs(&[("duplicate-set-field", "Hint"), ("unknown-symbol", "Warning")]);
    assert(texts(globals@) =~= seq!["playdate"@, "import"@]);
    assert(text_pairs(severity@) =~= seq![
        ("duplicate-set-field"@, "Hint"@),
        ("unknown-symbol"@, "Warning"@),
    ]);
    LuaSettings {
        runtime: playdate_runtime(),
        diagnostics: DiagnosticsSettings { globals, disable: None, severity },
        workspace: WorkspaceSettings { library: Vec::new(), check_third_party: false },
        completion: CompletionSettings { call_snippet: String::from_str("Replace") },
    }
}

/// The settings of a workspace whose libraries are `library`.
pub fn workspace_settings(library: Vec<String>) -> (s: LuaSettings)
    ensures
        is_workspace_settings(s, texts(library@)),
{
    let globals = to_strings(&["playdate", "import"]);
    let disable = to_strings(&["duplicate-set-field"]);
    let severity = to_string_pairs(&[("unknown-symbol", "Hint")]);
    assert(texts(globals@) =~= seq!["playdate"@, "import"@]);
    assert(texts(disable@) =~= seq!["duplicate-set-field"@]);
    assert(text_pairs(severity@) =~= seq![("unknown-symbol"@, "Hint"@)]);
    LuaSettings {
        runtime: playdate_runtime(),
        diagnostics: DiagnosticsSettings { globals, disable: Some(disable), severity },
        workspace: WorkspaceSettings { library, check_third_party: false },
        completion: CompletionSettings { call_snippet: String::from_str("Replace") },
    }
}

/// The settings that the language server `id` starts with: none for a
/// server other than the one served.
pub fn language_server_initialization_options(id: &str) -> (r: Option<LuaSettings>)
    ensures
        r is Some <==> id@ == server_id_spec(),
        r is Some ==> is_initial_settings(r->0),
{
    if !same_text(id, server_id()) {
        return None;
    }
    Some(initial_settings())
}

/// The settings of the language server `id` in a workspace; none for a
/// server other than the one served. `env` is the workspace's shell
/// environment, from which the SDK is detected, and `luacats` the outcome of
/// resolving the type definitions: their library, or why there is none. A
/// failed resolution fails the request, whatever was detected.
pub fn language_server_workspace_configuration(
    id: &str,
    env: &Vec<(String, String)>,
    os: Os,
    luacats: Result<String, Error>,
) -> (r: Result<Option<LuaSettings>, Error>)
    ensures
        if id@ != server_id_spec() {
            r == Ok::<Option<LuaSettings>, Error>(None)
        } else {
            match luacats {
                Err(e) => r == Err::<Option<LuaSettings>, Error>(e),
                Ok(luacats_path) => {
                    &&& r is Ok
                    &&& r->Ok_0 is Some
                    &&& is_workspace_settings(
                        r->Ok_0->0,
                        library_paths_spec(Some(detect_sdk_path_spec(env@, os)), luacats_path@),
                    )
                },
            }
        },
{
    if !same_text(id, server_id()) {
        return Ok(None);
    }
    let sdk_path = match detect_sdk_path(env, os) {
        Ok(path) => Some(path),
        Err(_) => None,
    };
    match luacats {
        Err(e) => Err(e),
        Ok(luacats_path) => Ok(Some(workspace_settings(library_paths(sdk_path, luacats_path)))),
    }
}

} // verus!
