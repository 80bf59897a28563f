use xmodits::dispatch::{early_mode, metadata_text, parsed_mode, pauses_at_exit, BuildInfo, Flags, Mode};
use xmodits::platform::Platform;

fn tokens(items: &[&str]) -> Vec<String> {
    items.iter().map(|s| s.to_string()).collect()
}

fn info(commit: Option<&str>) -> BuildInfo {
    BuildInfo {
        name: "xmodits".to_string(),
        version: "0.9.8".to_string(),
        authors: "someone".to_string(),
        license: "LGPL-3.0".to_string(),
        repository: "https://example.org/xmodits".to_string(),
        commit_hash: commit.map(|c| c.to_string()),
        target: "x86_64-unknown-linux-gnu".to_string(),
        rustc_version: "rustc 1.76.0".to_string(),
        target_arch: "x86_64".to_string(),
        built_time: "Thu, 01 Feb 2024 00:00:00 +0000".to_string(),
    }
}

#[test]
fn meta_token_in_first_place_selects_metadata() {
    assert_eq!(early_mode(&tokens(&["xmodits", "--Meta"])), Some(Mode::Metadata));
    assert_eq!(early_mode(&tokens(&["xmodits", "a.mod", "--Meta"])), None);
    assert_eq!(early_mode(&tokens(&["xmodits"])), None);
    assert_eq!(early_mode(&tokens(&["xmodits", "--meta"])), None);
}

#[test]
fn parsed_flags_select_mode_by_priority() {
    let all = Flags { info: true, meta: true, no_exit_prompt: false };
    assert_eq!(parsed_mode(&all), Mode::Metadata);
    let info_only = Flags { info: true, meta: false, no_exit_prompt: true };
    assert_eq!(parsed_mode(&info_only), Mode::Info);
    let none = Flags { info: false, meta: false, no_exit_prompt: false };
    assert_eq!(parsed_mode(&none), Mode::Extract);
}

#[test]
fn metadata_same_by_token_or_flag() {
    let by_token = early_mode(&tokens(&["xmodits", "--Meta"]));
    let by_flag = parsed_mode(&Flags { info: false, meta: true, no_exit_prompt: false });
    assert_eq!(by_token, Some(by_flag));
    let i = info(Some("abc123"));
    assert_eq!(metadata_text(&i), metadata_text(&info(Some("abc123"))));
}

#[test]
fn metadata_text_lists_every_fact() {
    let t = metadata_text(&info(Some("abc123")));
    assert_eq!(
        t,
        "Binary name: xmodits\nVersion: 0.9.8\nAuthor(s): someone\nLicense: LGPL-3.0\n\
Repository: https://example.org/xmodits\nCommit Hash: abc123\nBuild Target: x86_64-unknown-linux-gnu\n\
Rustc Version: rustc 1.76.0\nTarget Architechture: x86_64\nBuild Time: Thu, 01 Feb 2024 00:00:00 +0000"
    );
}

#[test]
fn metadata_text_without_commit_says_none() {
    let t = metadata_text(&info(None));
    assert!(t.contains("\nCommit Hash: none\n"));
}

#[test]
fn pause_only_after_extraction_on_windows() {
    assert!(pauses_at_exit(Platform::Windows, Mode::Extract, false));
    assert!(!pauses_at_exit(Platform::Windows, Mode::Extract, true));
    assert!(!pauses_at_exit(Platform::Windows, Mode::Info, false));
    assert!(!pauses_at_exit(Platform::Other, Mode::Extract, false));
}
