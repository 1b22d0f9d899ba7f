use claudit::dates::Date;
use claudit::toolpath::{build_path, ccusage_candidates, since_arg, Platform};

#[test]
fn macos_candidates_in_probe_order() {
    let got = ccusage_candidates(Platform::MacOs, "/Users/u", "");
    assert_eq!(
        got,
        vec![
            "/Users/u/.npm-global/bin/ccusage".to_string(),
            "/opt/homebrew/bin/ccusage".to_string(),
            "/usr/local/bin/ccusage".to_string(),
        ]
    );
}

#[test]
fn windows_candidates_use_appdata_then_home() {
    let got = ccusage_candidates(Platform::Windows, "C:\\Users\\u", "C:\\Users\\u\\AppData\\Roaming");
    assert_eq!(
        got,
        vec![
            "C:\\Users\\u\\AppData\\Roaming\\npm\\ccusage.cmd".to_string(),
            "C:\\Users\\u\\AppData\\Roaming\\npm\\ccusage.cmd".to_string(),
        ]
    );
}

#[test]
fn linux_candidates_in_probe_order() {
    let got = ccusage_candidates(Platform::Linux, "/home/u", "");
    assert_eq!(
        got,
        vec![
            "/home/u/.npm-global/bin/ccusage".to_string(),
            "/usr/local/bin/ccusage".to_string(),
            "/usr/bin/ccusage".to_string(),
        ]
    );
}

#[test]
fn built_path_prepends_the_conventional_directories() {
    let p = build_path(Platform::Linux, "/home/u", "", "/usr/bin:/bin");
    assert_eq!(p, "/home/u/.npm-global/bin:/usr/local/bin:/usr/bin:/usr/bin:/bin");
    let mac = build_path(Platform::MacOs, "/Users/u", "", "/usr/bin");
    assert_eq!(mac, "/Users/u/.npm-global/bin:/usr/local/bin:/opt/homebrew/bin:/usr/bin");
    let win = build_path(Platform::Windows, "C:\\u", "C:\\AppData", "C:\\Windows");
    assert_eq!(win, "C:\\AppData\\npm;C:\\Windows");
}

#[test]
fn since_arg_is_the_thirty_day_lookback_in_tool_form() {
    assert_eq!(since_arg(Date { year: 2024, month: 3, day: 1 }), "20240131");
    assert_eq!(since_arg(Date { year: 2024, month: 1, day: 31 }), "20240101");
}
