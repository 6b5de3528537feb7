use playdate::platform::Os;
use playdate::sdk::{
    detect_sdk_path, get_simulator_path, home_variable, lookup_env_var, sdk_suffix,
    simulator_suffix,
};

fn env(pairs: &[(&str, &str)]) -> Vec<(String, String)> {
    pairs.iter().map(|(k, v)| (k.to_string(), v.to_string())).collect()
}

#[test]
fn lookup_takes_the_first_match() {
    let e = env(&[("A", "1"), ("B", "2"), ("A", "3"), ("C", "")]);
    assert_eq!(lookup_env_var(&e, "A"), Some("1".to_string()));
    assert_eq!(lookup_env_var(&e, "B"), Some("2".to_string()));
    assert_eq!(lookup_env_var(&e, "C"), Some(String::new()));
    assert_eq!(lookup_env_var(&e, "D"), None);
    assert_eq!(lookup_env_var(&e, "a"), None);
    assert_eq!(lookup_env_var(&Vec::new(), "A"), None);
}

#[test]
fn conventional_path_per_platform() {
    let unix = env(&[("PATH", "/bin"), ("HOME", "/home/dev")]);
    assert_eq!(detect_sdk_path(&unix, Os::Mac), Ok("/home/dev/Developer/PlaydateSDK".to_string()));
    assert_eq!(
        detect_sdk_path(&unix, Os::Linux),
        Ok("/home/dev/.local/share/playdate-sdk".to_string())
    );
    let windows = env(&[("USERPROFILE", "C:\\Users\\dev")]);
    assert_eq!(
        detect_sdk_path(&windows, Os::Windows),
        Ok("C:\\Users\\dev\\Documents\\PlaydateSDK".to_string())
    );
    assert_eq!(detect_sdk_path(&unix, Os::Linux), detect_sdk_path(&unix, Os::Linux));
}

#[test]
fn conventional_path_without_home() {
    assert_eq!(detect_sdk_path(&Vec::new(), Os::Mac), Ok("/Developer/PlaydateSDK".to_string()));
    assert_eq!(
        detect_sdk_path(&Vec::new(), Os::Linux),
        Ok("/.local/share/playdate-sdk".to_string())
    );
    assert_eq!(
        detect_sdk_path(&Vec::new(), Os::Windows),
        Ok("\\Documents\\PlaydateSDK".to_string())
    );
}

#[test]
fn home_variable_goes_by_platform() {
    assert_eq!(home_variable(Os::Mac), "HOME");
    assert_eq!(home_variable(Os::Linux), "HOME");
    assert_eq!(home_variable(Os::Windows), "USERPROFILE");
    for both in [
        env(&[("USERPROFILE", "/win"), ("HOME", "/h")]),
        env(&[("HOME", "/h"), ("USERPROFILE", "/win")]),
    ] {
        assert_eq!(detect_sdk_path(&both, Os::Linux), Ok("/h/.local/share/playdate-sdk".to_string()));
        assert_eq!(detect_sdk_path(&both, Os::Mac), Ok("/h/Developer/PlaydateSDK".to_string()));
        assert_eq!(
            detect_sdk_path(&both, Os::Windows),
            Ok("/win\\Documents\\PlaydateSDK".to_string())
        );
    }
    let only_profile = env(&[("USERPROFILE", "C:\\u")]);
    assert_eq!(
        detect_sdk_path(&only_profile, Os::Linux),
        Ok("/.local/share/playdate-sdk".to_string())
    );
    let only_home = env(&[("HOME", "/h")]);
    assert_eq!(
        detect_sdk_path(&only_home, Os::Windows),
        Ok("\\Documents\\PlaydateSDK".to_string())
    );
}

#[test]
fn first_home_value_counts() {
    let twice = env(&[("HOME", "/first"), ("HOME", "/second")]);
    assert_eq!(detect_sdk_path(&twice, Os::Mac), Ok("/first/Developer/PlaydateSDK".to_string()));
    let empty_home = env(&[("HOME", ""), ("HOME", "/later")]);
    assert_eq!(detect_sdk_path(&empty_home, Os::Mac), Ok("/Developer/PlaydateSDK".to_string()));
}

#[test]
fn override_wins() {
    let e = env(&[("HOME", "/home/dev"), ("PLAYDATE_SDK_PATH", "/opt/sdk")]);
    for os in [Os::Mac, Os::Linux, Os::Windows] {
        assert_eq!(detect_sdk_path(&e, os), Ok("/opt/sdk".to_string()));
    }
}

#[test]
fn empty_override_is_no_override() {
    let e = env(&[("PLAYDATE_SDK_PATH", ""), ("HOME", "/home/dev")]);
    assert_eq!(detect_sdk_path(&e, Os::Mac), Ok("/home/dev/Developer/PlaydateSDK".to_string()));
    let e = env(&[("playdate_sdk_path", "/lower"), ("HOME", "/h")]);
    assert_eq!(detect_sdk_path(&e, Os::Linux), Ok("/h/.local/share/playdate-sdk".to_string()));
}

#[test]
fn first_override_is_the_one_looked_up() {
    let e = env(&[("PLAYDATE_SDK_PATH", ""), ("PLAYDATE_SDK_PATH", "/x"), ("HOME", "/h")]);
    assert_eq!(detect_sdk_path(&e, Os::Linux), Ok("/h/.local/share/playdate-sdk".to_string()));
    let e = env(&[("PLAYDATE_SDK_PATH", "/first"), ("PLAYDATE_SDK_PATH", "/second")]);
    assert_eq!(detect_sdk_path(&e, Os::Linux), Ok("/first".to_string()));
    let e = env(&[("PLAYDATE_SDK_PATH", "/first"), ("PLAYDATE_SDK_PATH", "")]);
    assert_eq!(detect_sdk_path(&e, Os::Windows), Ok("/first".to_string()));
}

#[test]
fn simulator_path_per_platform() {
    let e = env(&[("PLAYDATE_SDK_PATH", "/sdk")]);
    assert_eq!(
        get_simulator_path(&e, Os::Mac),
        Ok("/sdk/bin/Playdate Simulator.app/Contents/MacOS/Playdate Simulator".to_string())
    );
    assert_eq!(get_simulator_path(&e, Os::Linux), Ok("/sdk/bin/PlaydateSimulator".to_string()));
    assert_eq!(
        get_simulator_path(&e, Os::Windows),
        Ok("/sdk\\bin\\PlaydateSimulator.exe".to_string())
    );
    let home = env(&[("HOME", "/h")]);
    assert_eq!(
        get_simulator_path(&home, Os::Linux),
        Ok("/h/.local/share/playdate-sdk/bin/PlaydateSimulator".to_string())
    );
}

#[test]
fn suffix_tables() {
    assert_eq!(sdk_suffix(Os::Mac), "/Developer/PlaydateSDK");
    assert_eq!(sdk_suffix(Os::Linux), "/.local/share/playdate-sdk");
    assert_eq!(sdk_suffix(Os::Windows), "\\Documents\\PlaydateSDK");
    assert_eq!(
        simulator_suffix(Os::Mac),
        "/bin/Playdate Simulator.app/Contents/MacOS/Playdate Simulator"
    );
    assert_eq!(simulator_suffix(Os::Linux), "/bin/PlaydateSimulator");
    assert_eq!(simulator_suffix(Os::Windows), "\\bin\\PlaydateSimulator.exe");
}
