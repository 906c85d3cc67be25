use wedge::arbitrate::{
    arbitrate, is_interception, passthrough_command, Decision, MSEDGE_PATH, MSEDGE_PROXY_PATH,
};
use wedge::browser::{browser_from_prog_id, resolve_prog_id, Browser};
use wedge::cli::{install_mode, is_uninstall_run, InstallMode};
use wedge::init_common_controls;

fn args(v: &[&str]) -> Vec<String> {
    v.iter().map(|s| String::from(*s)).collect()
}

#[test]
fn test_loop_breaking_passthrough_when_edge_is_default() {
    // Even with a perfectly deflectable URL among the arguments, an
    // intercepted launch passes through while the default browser is the
    // forced browser itself.
    let a = args(&["wedge.exe", MSEDGE_PATH, "microsoft-edge:http://example.com"]);
    assert!(is_interception(&a));
    assert!(matches!(arbitrate(&a, Browser::Edge), Decision::PassThrough));
}

#[test]
fn test_intercepted_launch_deflects_first_url() {
    let a = args(&[
        "wedge.exe",
        MSEDGE_PATH,
        "--flag",
        "microsoft-edge:http://example.com",
        "microsoft-edge:http://second.example.com",
    ]);
    match arbitrate(&a, Browser::Firefox) {
        Decision::Deflect(url) => assert_eq!("http://example.com", url),
        _ => panic!("expected a deflection"),
    }
}

#[test]
fn test_intercepted_launch_without_url_passes_through() {
    let a = args(&["wedge.exe", MSEDGE_PATH, "https://example.com/plain"]);
    assert!(matches!(arbitrate(&a, Browser::Chrome), Decision::PassThrough));
}

#[test]
fn test_direct_launch_deflects_or_does_nothing() {
    let a = args(&["wedge.exe", "microsoft-edge:http://example.com"]);
    match arbitrate(&a, Browser::Unknown) {
        Decision::Deflect(url) => assert_eq!("http://example.com", url),
        _ => panic!("expected a deflection"),
    }
    let b = args(&["wedge.exe", "not-a-protocol-uri"]);
    assert!(matches!(arbitrate(&b, Browser::Unknown), Decision::Terminal));
    let c = args(&["wedge.exe"]);
    assert!(matches!(arbitrate(&c, Browser::Unknown), Decision::Terminal));
}

#[test]
fn test_passthrough_uses_proxy_path_and_forwards_args() {
    let a = args(&["wedge.exe", MSEDGE_PATH, "--profile", "x"]);
    let (program, forwarded) = passthrough_command(&a);
    assert_eq!(MSEDGE_PROXY_PATH, program);
    assert_eq!(args(&["--profile", "x"]), forwarded);
    assert_ne!(program, MSEDGE_PATH);
}

#[test]
fn test_browser_from_prog_id_mappings() {
    assert!(matches!(browser_from_prog_id("IE.HTTP"), Browser::InternetExplorer));
    assert!(matches!(browser_from_prog_id("FirefoxURL"), Browser::Firefox));
    assert!(matches!(browser_from_prog_id("ChromeHTML"), Browser::Chrome));
    assert!(matches!(browser_from_prog_id("OperaStable"), Browser::Opera));
    assert!(matches!(
        browser_from_prog_id("AppXq0fevzme2pys62n3e0fbqa7peapykr8v"),
        Browser::Edge
    ));
    assert!(matches!(browser_from_prog_id("SomethingElse"), Browser::Unknown));
    assert!(matches!(browser_from_prog_id(""), Browser::Unknown));
}

#[test]
fn test_resolve_fails_soft_to_unknown() {
    assert!(matches!(
        resolve_prog_id(&Ok(String::from("FirefoxURL"))),
        Browser::Firefox
    ));
    assert!(matches!(
        resolve_prog_id(&Err(String::from("the key is missing"))),
        Browser::Unknown
    ));
}

#[test]
fn test_install_mode_flags() {
    assert_eq!(
        InstallMode::Unattended,
        install_mode(&args(&["installer.exe", "-quiet"]))
    );
    assert_eq!(
        InstallMode::Unattended,
        install_mode(&args(&["installer.exe", "/quiet", "other"]))
    );
    assert_eq!(InstallMode::Attended, install_mode(&args(&["installer.exe"])));
    assert_eq!(
        InstallMode::Attended,
        install_mode(&args(&["installer.exe", "--quiet"]))
    );
}

#[test]
fn test_is_uninstall_run_flag() {
    assert!(is_uninstall_run(&args(&["u.exe", "run-uninstall"])));
    assert!(!is_uninstall_run(&args(&["u.exe"])));
    assert!(!is_uninstall_run(&args(&["u.exe", "uninstall"])));
}

#[test]
fn test_init_common_controls_succeeds() {
    assert!(init_common_controls().is_ok());
}
