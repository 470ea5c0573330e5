//! The instance guard's lifecycle: mutual exclusion, idempotent release,
//! status codes and failure reports.

use tray_bridge::builder::{BuildFailure, BuildStep};
use tray_bridge::guard::{failure_report, status_code, InitError, InstanceGuard};
use tray_bridge::session::{TrayConfig, TraySession};

fn config() -> TrayConfig {
    TrayConfig { name: String::from("App"), icon_path: String::from("C:\\icon.ico") }
}

#[test]
fn init_twice_returns_already_active() {
    let mut guard = InstanceGuard::new();
    assert!(guard.try_claim().is_ok());
    guard.install(TraySession::new(config()));
    let second = guard.try_claim();
    assert_eq!(second, Err(InitError::AlreadyActive));
    // The first session is untouched: configuration and enablement stand.
    let session = guard.session.as_ref().unwrap();
    assert_eq!(session.config.name, "App");
    assert_eq!(session.config.icon_path, "C:\\icon.ico");
    assert!(!session.show_enabled);
    assert!(session.hide_enabled);
}

#[test]
fn claim_refused_while_building() {
    let mut guard = InstanceGuard::new();
    assert!(guard.try_claim().is_ok());
    assert_eq!(guard.try_claim(), Err(InitError::AlreadyActive));
}

#[test]
fn deinit_is_idempotent() {
    let mut guard = InstanceGuard::new();
    guard.release();
    guard.release();
    guard.release();
    assert!(guard.session.is_none());
    assert!(!guard.building);
}

#[test]
fn deinit_releases_active_session() {
    let mut guard = InstanceGuard::new();
    assert!(guard.try_claim().is_ok());
    guard.install(TraySession::new(config()));
    assert!(guard.session.is_some());
    guard.release();
    assert!(guard.session.is_none());
    guard.release();
    assert!(guard.session.is_none());
}

#[test]
fn reinit_succeeds_after_release() {
    let mut guard = InstanceGuard::new();
    assert!(guard.try_claim().is_ok());
    guard.install(TraySession::new(config()));
    guard.release();
    // The slot was correctly released: a wholly new init claim succeeds.
    assert!(guard.try_claim().is_ok());
    guard.install(TraySession::new(config()));
    assert!(guard.session.is_some());
}

#[test]
fn abort_leaves_slot_empty() {
    let mut guard = InstanceGuard::new();
    assert!(guard.try_claim().is_ok());
    guard.abort_build();
    assert!(guard.session.is_none());
    assert!(!guard.building);
    assert!(guard.try_claim().is_ok());
}

#[test]
fn status_codes_are_distinct_per_stage() {
    assert_eq!(status_code(&Ok(())), 0);
    assert_eq!(status_code(&Err(InitError::AlreadyActive)), -1);
    assert_eq!(status_code(&Err(InitError::ToolkitInit(String::from("boom")))), -2);
    let failure = BuildFailure { step: BuildStep::Icon, detail: String::from("bad path") };
    assert_eq!(status_code(&Err(InitError::Build(failure))), -3);
}

#[test]
fn failure_reports_are_tagged() {
    assert_eq!(failure_report(&InitError::AlreadyActive), "!Already inited");
    assert_eq!(
        failure_report(&InitError::ToolkitInit(String::from("boom"))),
        "!Nwg init error: boom"
    );
    let failure = BuildFailure { step: BuildStep::Window, detail: String::from("no class") };
    assert_eq!(failure_report(&InitError::Build(failure)), "!Tray build error: no class");
}

#[test]
fn set_show_keeps_items_mutually_exclusive() {
    let mut session = TraySession::new(config());
    session.set_show(true);
    assert!(!session.show_enabled);
    assert!(session.hide_enabled);
    session.set_show(false);
    assert!(session.show_enabled);
    assert!(!session.hide_enabled);
    session.set_show(true);
    assert!(!(session.show_enabled && session.hide_enabled));
}
