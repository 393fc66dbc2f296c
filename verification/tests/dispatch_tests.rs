use filter_host::dispatch::{flatten_error, greet, process_outcome, rename_filter_file};
use filter_host::errors::CmdError;
use filter_host::overlay::{overlay_init_script, plan_overlay_window};

#[test]
fn greet_is_exact() {
    assert_eq!(greet("World"), "Hello, World! You've been greeted from Rust!");
}

#[test]
fn rename_fails_when_destination_exists() {
    let r = rename_filter_file("old.filter".to_string(), "new.filter".to_string(), true);
    assert_eq!(r, Err(CmdError::AlreadyExists));
    assert_eq!(CmdError::AlreadyExists.message(), "目标文件已存在");
}

#[test]
fn rename_passes_both_paths_through_otherwise() {
    let r = rename_filter_file("old.filter".to_string(), "new.filter".to_string(), false);
    assert_eq!(r, Ok(("old.filter".to_string(), "new.filter".to_string())));
}

#[test]
fn process_outcome_maps_exit_status() {
    assert_eq!(process_outcome(true, "unused".to_string()), Ok(()));
    let r = process_outcome(false, "process exited with exit status: 3".to_string());
    assert_eq!(
        r,
        Err(CmdError::ProcessFailure("process exited with exit status: 3".to_string()))
    );
    assert_eq!(
        r.unwrap_err().message(),
        "process exited with exit status: 3"
    );
}

#[test]
fn flatten_error_keeps_success_and_flattens_failure() {
    let ok: Result<u32, CmdError> = Ok(7);
    assert_eq!(flatten_error(ok), Ok(7));
    let err: Result<u32, CmdError> = Err(CmdError::NotFound);
    assert_eq!(flatten_error(err), Err("Path does not exist".to_string()));
}

#[test]
fn overlay_with_existing_label_is_a_noop() {
    let r = plan_overlay_window("overlay".to_string(), "https://example.com", true);
    assert!(r.unwrap().is_none());
    let again = plan_overlay_window("overlay".to_string(), "https://other.example", true);
    assert!(again.unwrap().is_none());
}

#[test]
fn overlay_plans_a_hidden_borderless_window() {
    let cfg = plan_overlay_window("overlay".to_string(), "https://example.com", false)
        .unwrap()
        .unwrap();
    assert_eq!(cfg.label, "overlay");
    assert_eq!(cfg.url, "https://example.com/");
    assert_eq!(cfg.title, "Overlay");
    assert!(!cfg.decorations);
    assert!(!cfg.transparent);
    assert!(cfg.skip_taskbar);
    assert!(!cfg.visible);
    assert_eq!(cfg.width, 800);
    assert_eq!(cfg.height, 600);
    assert_eq!(cfg.init_script, overlay_init_script());
    assert!(cfg.init_script.contains("NitroAds"));
}

#[test]
fn overlay_url_is_parsed_not_echoed() {
    let cfg = plan_overlay_window("overlay".to_string(), "HTTP://EXAMPLE.COM/Path", false)
        .unwrap()
        .unwrap();
    assert_eq!(cfg.url, "http://example.com/Path");
}

#[test]
fn overlay_rejects_malformed_url_before_construction() {
    let r = plan_overlay_window("overlay".to_string(), "not a url", false);
    match r {
        Err(CmdError::UrlParseFailure(m)) => assert!(!m.is_empty()),
        other => panic!("expected a URL parse failure, got {:?}", other),
    }
}

#[test]
fn overlay_script_neutralizes_the_ad_global() {
    let s = overlay_init_script();
    assert!(s.contains("window.NitroAds = new Proxy"));
    assert!(s.contains("Object.freeze(window.NitroAds)"));
}
