use playdate::debug::{
    adapter_name, check_adapter, dap_request_kind, default_game_path, default_source_path, get_dap_binary,
    get_request_type, resolve_connection, substitute_opt, substitute_worktree_root,
    PlaydateDebugConfig, RequestKind, TcpArguments, TcpArgumentsTemplate, DEFAULT_HOST,
    DEFAULT_PORT, DEFAULT_TIMEOUT_MS,
};
use playdate::error::{Error, ErrorKind};
use playdate::platform::Os;
use playdate::text::replace_all;

fn config(request: &str) -> PlaydateDebugConfig {
    PlaydateDebugConfig::with_defaults(request.to_string())
}

fn env(pairs: &[(&str, &str)]) -> Vec<(String, String)> {
    pairs.iter().map(|(k, v)| (k.to_string(), v.to_string())).collect()
}

#[test]
fn defaults_of_a_bare_request() {
    assert_eq!(
        PlaydateDebugConfig::with_defaults("launch".to_string()),
        PlaydateDebugConfig {
            request: "launch".to_string(),
            game_path: Some("$ZED_WORKTREE_ROOT/builds/Game.pdx".to_string()),
            source_path: Some("$ZED_WORKTREE_ROOT/source".to_string()),
            sdk_path: None,
        }
    );
    assert_eq!(check_adapter("Playdate"), Ok(()));
    assert_eq!(
        check_adapter("Playdate "),
        Err(Error::UnsupportedAdapter { name: "Playdate ".to_string() })
    );
}

#[test]
fn default_paths() {
    assert_eq!(default_game_path(), Some("$ZED_WORKTREE_ROOT/builds/Game.pdx".to_string()));
    assert_eq!(default_source_path(), Some("$ZED_WORKTREE_ROOT/source".to_string()));
}

#[test]
fn request_type_accepts_exactly_launch_and_attach() {
    assert_eq!(get_request_type(&config("launch")), Ok(RequestKind::Launch));
    assert_eq!(get_request_type(&config("attach")), Ok(RequestKind::Attach));
    for word in ["", "Launch", "ATTACH", "Attach", " launch", "launch ", "launch\n", "bogus", "launchattach"] {
        let err = get_request_type(&config(word)).unwrap_err();
        assert_eq!(err, Error::InvalidRequest { value: word.to_string() });
        assert_eq!(err.kind(), ErrorKind::Validation);
        assert_eq!(
            err.message(),
            format!("Invalid request type '{}'. Expected 'launch' or 'attach'", word)
        );
    }
}

#[test]
fn request_kind_checks_the_adapter_first() {
    assert_eq!(adapter_name(), "Playdate");
    assert_eq!(dap_request_kind("Playdate", &config("attach")), Ok(RequestKind::Attach));
    assert_eq!(dap_request_kind("Playdate", &config("launch")), Ok(RequestKind::Launch));
    assert_eq!(
        dap_request_kind("Playdate", &config("run")),
        Err(Error::InvalidRequest { value: "run".to_string() })
    );
    let err = dap_request_kind("playdate", &config("bogus")).unwrap_err();
    assert_eq!(err, Error::UnsupportedAdapter { name: "playdate".to_string() });
    assert_eq!(err.message(), "Unsupported adapter name: playdate");
    assert_eq!(err.kind(), ErrorKind::Validation);
}

#[test]
fn substitution_leaves_text_without_placeholder() {
    for path in ["", "/abs/game.pdx", "$ZED_WORKTREE", "ZED_WORKTREE_ROOT", "$zed_worktree_root/x", "$ZED_WORKTREE_ROO"] {
        assert_eq!(substitute_worktree_root(path, "/proj"), path);
        let once = substitute_worktree_root(path, "/proj");
        assert_eq!(substitute_worktree_root(&once, "/proj"), once);
    }
}

#[test]
fn substitution_replaces_every_occurrence() {
    assert_eq!(substitute_worktree_root("$ZED_WORKTREE_ROOT/source", "/proj"), "/proj/source");
    assert_eq!(
        substitute_worktree_root("$ZED_WORKTREE_ROOT/a:$ZED_WORKTREE_ROOT/b", "/proj"),
        "/proj/a:/proj/b"
    );
    assert_eq!(
        substitute_worktree_root("$ZED_WORKTREE_ROOT$ZED_WORKTREE_ROOT", "/p"),
        "/p/p"
    );
    assert_eq!(substitute_worktree_root("x$ZED_WORKTREE_ROOT", ""), "x");
    assert_eq!(substitute_worktree_root("$ZED_WORKTREE_ROOT", "/proj"), "/proj");
    assert_eq!(
        substitute_worktree_root("$$ZED_WORKTREE_ROOTS", "/r"),
        "$/rS"
    );
    assert_eq!(
        substitute_worktree_root("é$ZED_WORKTREE_ROOT/ü", "/проект"),
        "é/проект/ü"
    );
    assert_eq!(
        substitute_worktree_root("$ZED_WORKTREE_ROOT", "$ZED_WORKTREE_ROOT"),
        "$ZED_WORKTREE_ROOT"
    );
}

#[test]
fn substitution_agrees_with_str_replace() {
    let roots = ["", "/proj", "C:\\work", "$ZED_WORKTREE_ROOT"];
    let paths = [
        "",
        "$",
        "$ZED_WORKTREE_ROOT",
        "a$ZED_WORKTREE_ROOTb$ZED_WORKTREE_ROOT",
        "$ZED_WORK$ZED_WORKTREE_ROOTTREE_ROOT",
        "$ZED_WORKTREE_ROO$ZED_WORKTREE_ROOT",
    ];
    for root in roots {
        for path in paths {
            assert_eq!(
                substitute_worktree_root(path, root),
                path.replace("$ZED_WORKTREE_ROOT", root)
            );
        }
    }
}

#[test]
fn replace_all_general() {
    assert_eq!(replace_all("aaaa", "aa", "b"), "bb");
    assert_eq!(replace_all("aaa", "aa", "b"), "ba");
    assert_eq!(replace_all("abc", "abcd", "x"), "abc");
    assert_eq!(replace_all("abc", "", "x"), "abc");
    assert_eq!(replace_all("", "a", "x"), "");
    assert_eq!(replace_all("abcabc", "bc", ""), "aa");
    assert_eq!(replace_all("abc", "abc", "abcabc"), "abcabc");
}

#[test]
fn substitute_opt_keeps_none() {
    assert_eq!(substitute_opt(&None, "/proj"), None);
    assert_eq!(
        substitute_opt(&Some("$ZED_WORKTREE_ROOT/x".to_string()), "/proj"),
        Some("/proj/x".to_string())
    );
}

#[test]
fn connection_defaults() {
    assert_eq!(DEFAULT_HOST, 0x7f000001);
    assert_eq!(DEFAULT_HOST, u32::from_be_bytes([127, 0, 0, 1]));
    assert_eq!(DEFAULT_PORT, 55934);
    assert_eq!(DEFAULT_TIMEOUT_MS, 5000);
    let expected = TcpArguments { host: 0x7f000001, port: 55934, timeout: Some(5000) };
    assert_eq!(resolve_connection(None), expected);
    assert_eq!(
        resolve_connection(Some(TcpArgumentsTemplate { port: None, host: None, timeout: None })),
        expected
    );
}

#[test]
fn connection_partial_override() {
    assert_eq!(
        resolve_connection(Some(TcpArgumentsTemplate { port: Some(9000), host: None, timeout: None })),
        TcpArguments { host: 0x7f000001, port: 9000, timeout: Some(5000) }
    );
    assert_eq!(
        resolve_connection(Some(TcpArgumentsTemplate { port: None, host: Some(0x0a000001), timeout: None })),
        TcpArguments { host: 0x0a000001, port: 55934, timeout: Some(5000) }
    );
    assert_eq!(
        resolve_connection(Some(TcpArgumentsTemplate { port: None, host: None, timeout: Some(0) })),
        TcpArguments { host: 0x7f000001, port: 55934, timeout: Some(0) }
    );
    assert_eq!(
        resolve_connection(Some(TcpArgumentsTemplate {
            port: Some(1),
            host: Some(2),
            timeout: Some(u64::MAX),
        })),
        TcpArguments { host: 2, port: 1, timeout: Some(u64::MAX) }
    );
}

#[test]
fn scenario_launch_with_defaults() {
    let env = env(&[("HOME", "/home/dev")]);
    let session =
        get_dap_binary("Playdate", config("launch"), None, &env, "/proj", Os::Linux).unwrap();
    assert_eq!(session.configuration.game_path, Some("/proj/builds/Game.pdx".to_string()));
    assert_eq!(session.configuration.source_path, Some("/proj/source".to_string()));
    let sdk = session.configuration.sdk_path.clone().unwrap();
    assert!(!sdk.is_empty());
    assert_eq!(sdk, "/home/dev/.local/share/playdate-sdk");
    assert_eq!(session.configuration.request, "launch");
    assert_eq!(session.request, RequestKind::Launch);
    assert_eq!(
        session.command,
        Some("/home/dev/.local/share/playdate-sdk/bin/PlaydateSimulator".to_string())
    );
    assert_eq!(session.arguments, vec!["/proj/builds/Game.pdx".to_string()]);
    assert!(session.envs.is_empty());
    assert_eq!(session.cwd, None);
    assert_eq!(
        session.connection,
        Some(TcpArguments { host: 0x7f000001, port: 55934, timeout: Some(5000) })
    );
}

#[test]
fn scenario_attach_with_sdk_path() {
    let mut cfg = config("attach");
    cfg.sdk_path = Some("/custom/sdk".to_string());
    let env = env(&[("PLAYDATE_SDK_PATH", "/other/sdk"), ("HOME", "/home/dev")]);
    let session = get_dap_binary("Playdate", cfg, None, &env, "/proj", Os::Mac).unwrap();
    assert_eq!(session.command, None);
    assert!(session.arguments.is_empty());
    assert!(session.envs.is_empty());
    assert_eq!(session.cwd, None);
    assert_eq!(
        session.connection,
        Some(TcpArguments { host: 0x7f000001, port: 55934, timeout: Some(5000) })
    );
    assert_eq!(session.configuration.sdk_path, Some("/custom/sdk".to_string()));
    assert_eq!(session.request, RequestKind::Attach);
    assert_eq!(session.configuration.request, "attach");
}

#[test]
fn scenario_bogus_request() {
    let err = get_dap_binary("Playdate", config("bogus"), None, &Vec::new(), "/proj", Os::Linux)
        .unwrap_err();
    assert_eq!(err, Error::InvalidRequest { value: "bogus".to_string() });
    assert_eq!(err.kind(), ErrorKind::Validation);
    assert!(err.message().contains("bogus"));
}

#[test]
fn launch_uses_the_detected_sdk_for_the_simulator() {
    let mut cfg = config("launch");
    cfg.sdk_path = Some("/custom/sdk".to_string());
    cfg.game_path = Some("/games/$ZED_WORKTREE_ROOT.pdx".to_string());
    cfg.source_path = None;
    let env = env(&[("USERPROFILE", "C:\\Users\\dev")]);
    let tcp = TcpArgumentsTemplate { port: Some(9000), host: None, timeout: None };
    let session = get_dap_binary("Playdate", cfg, Some(tcp), &env, "w", Os::Windows).unwrap();
    assert_eq!(
        session.command,
        Some("C:\\Users\\dev\\Documents\\PlaydateSDK\\bin\\PlaydateSimulator.exe".to_string())
    );
    assert_eq!(session.arguments, vec!["/games/w.pdx".to_string()]);
    assert_eq!(session.configuration.sdk_path, Some("/custom/sdk".to_string()));
    assert_eq!(session.configuration.source_path, None);
    assert_eq!(session.configuration.game_path, Some("/games/w.pdx".to_string()));
    assert_eq!(
        session.connection,
        Some(TcpArguments { host: 0x7f000001, port: 9000, timeout: Some(5000) })
    );
}

#[test]
fn launch_without_game_path_fails() {
    let mut cfg = config("launch");
    cfg.game_path = None;
    let err = get_dap_binary("Playdate", cfg, None, &Vec::new(), "/proj", Os::Mac).unwrap_err();
    assert_eq!(err, Error::MissingGamePath);
    assert_eq!(err.message(), "No game_path specified in launch configuration");
    assert_eq!(err.kind(), ErrorKind::Validation);

    let mut cfg = config("attach");
    cfg.game_path = None;
    let session = get_dap_binary("Playdate", cfg, None, &Vec::new(), "/proj", Os::Mac).unwrap();
    assert_eq!(session.configuration.game_path, None);
    assert_eq!(session.command, None);
}

#[test]
fn other_adapters_are_refused() {
    let err = get_dap_binary("CodeLLDB", config("launch"), None, &Vec::new(), "/proj", Os::Mac)
        .unwrap_err();
    assert_eq!(err, Error::UnsupportedAdapter { name: "CodeLLDB".to_string() });
    assert_eq!(err.message(), "Unsupported adapter name: CodeLLDB");
}
