use global_install::command::package_install_directory;
use global_install::envvars::{child_env, EnvVar};
use global_install::machine::{InstallEvent, InstallState, UiAction};
use global_install::outcome::{classify_outcome, stderr_mentions_missing_package, ProcessOutcome};
use global_install::package::{InstallResult, Package, PlatformSpec, ToolchainImage};

fn pkg(name: &str) -> Package {
    Package {
        name: name.to_string(),
        spec: name.to_string(),
    }
}

fn var(name: &str, value: &str) -> EnvVar {
    EnvVar {
        name: name.to_string(),
        value: value.to_string(),
    }
}

fn outcome(success: bool, stderr: &str) -> ProcessOutcome {
    ProcessOutcome {
        success,
        stdout: Vec::new(),
        stderr: stderr.as_bytes().to_vec(),
    }
}

fn platform() -> PlatformSpec {
    PlatformSpec {
        node: "18.17.0".to_string(),
        npm: None,
    }
}

fn image() -> ToolchainImage {
    ToolchainImage {
        bin_path: "/volta/tools/image/node/18.17.0/bin".to_string(),
    }
}

#[test]
fn argument_list_exact() {
    let p = pkg("left-pad");
    let plan = p.install_command(&image(), "/volta");
    assert_eq!(plan.program, "npm");
    let expected: Vec<String> = vec![
        "install".to_string(),
        "--global".to_string(),
        "--loglevel=warn".to_string(),
        "--no-update-notifier".to_string(),
        "--no-audit".to_string(),
        "left-pad".to_string(),
    ];
    assert_eq!(plan.args, expected);
}

#[test]
fn argument_list_ends_with_full_spec() {
    let p = Package {
        name: "typescript".to_string(),
        spec: "typescript@5.3.2".to_string(),
    };
    let plan = p.install_command(&image(), "/volta");
    assert_eq!(plan.args[5], "typescript@5.3.2");
}

#[test]
fn env_overrides_exact() {
    let p = pkg("left-pad");
    let plan = p.install_command(&image(), "/volta");
    assert_eq!(plan.env_overrides.len(), 2);
    assert_eq!(plan.env_overrides[0].name, "PATH");
    assert_eq!(plan.env_overrides[0].value, "/volta/tools/image/node/18.17.0/bin");
    assert_eq!(plan.env_overrides[1].name, "npm_config_prefix");
    assert_eq!(plan.env_overrides[1].value, "/volta/tools/image/packages/left-pad");
}

#[test]
fn child_env_keeps_inherited_variables() {
    let p = pkg("left-pad");
    let plan = p.install_command(&image(), "/volta");
    let inherited = vec![
        var("HOME", "/root"),
        var("LANG", "C.UTF-8"),
        var("PATH", "/usr/bin:/bin"),
        var("HTTPS_PROXY", "http://proxy:3128"),
    ];
    let env = child_env(inherited.clone(), plan.env_overrides.clone());

    // The inherited environment passes through unmodified, in order.
    assert_eq!(&env[..inherited.len()], &inherited[..]);
    // The overrides follow, so applying the list in order makes them win.
    assert_eq!(&env[inherited.len()..], &plan.env_overrides[..]);
    let last_path = env.iter().rev().find(|v| v.name == "PATH").unwrap();
    assert_eq!(last_path.value, "/volta/tools/image/node/18.17.0/bin");
    let last_prefix = env.iter().rev().find(|v| v.name == "npm_config_prefix").unwrap();
    assert_eq!(last_prefix.value, "/volta/tools/image/packages/left-pad");
    let last_proxy = env.iter().rev().find(|v| v.name == "HTTPS_PROXY").unwrap();
    assert_eq!(last_proxy.value, "http://proxy:3128");
}

#[test]
fn install_directory_is_per_package() {
    assert_eq!(
        package_install_directory("/volta", "left-pad"),
        "/volta/tools/image/packages/left-pad"
    );
    assert_ne!(
        package_install_directory("/volta", "left-pad"),
        package_install_directory("/volta", "right-pad")
    );
}

#[test]
fn success_regardless_of_stderr() {
    let spec = "left-pad".to_string();
    let o = outcome(true, "npm WARN deprecated\nnpm ERR! code E404");
    assert_eq!(classify_outcome(&spec, &o), InstallResult::Success);
}

#[test]
fn failure_with_marker_is_package_not_found() {
    let spec = "left-pad".to_string();
    let o = outcome(false, "npm ERR! code E404");
    assert_eq!(
        classify_outcome(&spec, &o),
        InstallResult::PackageNotFound {
            package: "left-pad".to_string()
        }
    );
}

#[test]
fn failure_without_marker_is_install_failed() {
    let spec = "left-pad".to_string();
    let o = outcome(false, "npm ERR! EACCES: permission denied");
    assert_eq!(
        classify_outcome(&spec, &o),
        InstallResult::InstallFailed {
            package: "left-pad".to_string()
        }
    );
}

#[test]
fn marker_search_edges() {
    assert!(stderr_mentions_missing_package(&b"code E404".to_vec()));
    assert!(stderr_mentions_missing_package(&b"code E404 tail".to_vec()));
    assert!(stderr_mentions_missing_package(&b"head code E404".to_vec()));
    assert!(!stderr_mentions_missing_package(&Vec::new()));
    assert!(!stderr_mentions_missing_package(&b"code E40".to_vec()));
    assert!(!stderr_mentions_missing_package(&b"code  E404".to_vec()));
    assert!(!stderr_mentions_missing_package(&b"CODE E404".to_vec()));
    assert!(!stderr_mentions_missing_package(&b"code E404"[..8].to_vec()));
}

// Drives one full install request through the machine and returns the final
// result together with every progress-indicator action the steps asked for.
fn drive(
    p: &Package,
    home: &str,
    resolved: Option<PlatformSpec>,
    checkout: Result<ToolchainImage, String>,
    ran: Option<ProcessOutcome>,
) -> (InstallResult, Vec<UiAction>, Vec<String>) {
    let mut state = InstallState::ResolvingPlatform;
    let mut actions: Vec<UiAction> = Vec::new();
    let mut prefixes: Vec<String> = Vec::new();
    let mut resolved = Some(resolved);
    let mut checkout = Some(checkout);
    let mut ran = Some(ran);
    loop {
        let event = match &state {
            InstallState::ResolvingPlatform => InstallEvent::Resolved {
                platform: resolved.take().unwrap(),
            },
            InstallState::CheckingOut { .. } => InstallEvent::CheckedOut {
                image: checkout.take().unwrap(),
            },
            InstallState::Running { plan } => {
                prefixes.push(plan.env_overrides[1].value.clone());
                InstallEvent::Ran {
                    outcome: ran.take().unwrap(),
                }
            }
            InstallState::Done { result } => return (result.clone(), actions, prefixes),
        };
        let step = p.global_install(home, state, event);
        if let Some(a) = step.ui {
            actions.push(a);
        }
        state = step.next;
    }
}

#[test]
fn scenario_successful_install() {
    let p = pkg("left-pad");
    let (result, actions, prefixes) = drive(
        &p,
        "/volta",
        Some(platform()),
        Ok(image()),
        Some(outcome(true, "")),
    );
    assert_eq!(result, InstallResult::Success);
    assert_eq!(prefixes, vec![package_install_directory("/volta", "left-pad")]);
    assert_eq!(actions, vec![UiAction::StartProgress, UiAction::StopProgress]);
}

#[test]
fn scenario_package_not_found() {
    let p = pkg("nonexistent-pkg-xyz");
    let (result, actions, _) = drive(
        &p,
        "/volta",
        Some(platform()),
        Ok(image()),
        Some(outcome(false, "npm ERR! code E404\nnpm ERR! 404 Not Found")),
    );
    assert_eq!(
        result,
        InstallResult::PackageNotFound {
            package: "nonexistent-pkg-xyz".to_string()
        }
    );
    assert_eq!(actions, vec![UiAction::StartProgress, UiAction::StopProgress]);
}

#[test]
fn scenario_generic_failure() {
    let p = pkg("some-pkg");
    let (result, actions, _) = drive(
        &p,
        "/volta",
        Some(platform()),
        Ok(image()),
        Some(outcome(false, "npm ERR! network timeout")),
    );
    assert_eq!(
        result,
        InstallResult::InstallFailed {
            package: "some-pkg".to_string()
        }
    );
    assert_eq!(actions, vec![UiAction::StartProgress, UiAction::StopProgress]);
}

#[test]
fn scenario_no_active_platform() {
    let p = pkg("left-pad");
    let (result, actions, prefixes) = drive(
        &p,
        "/volta",
        None,
        Err("never asked".to_string()),
        None,
    );
    assert_eq!(result, InstallResult::NoActivePlatform);
    // No process was planned or run, and the progress indicator never shown.
    assert!(prefixes.is_empty());
    assert!(actions.is_empty());
}

#[test]
fn scenario_checkout_error_propagates() {
    let p = pkg("left-pad");
    let (result, actions, prefixes) = drive(
        &p,
        "/volta",
        Some(platform()),
        Err("node 18.17.0 is not available".to_string()),
        None,
    );
    assert_eq!(
        result,
        InstallResult::CheckoutError {
            message: "node 18.17.0 is not available".to_string()
        }
    );
    assert!(prefixes.is_empty());
    assert!(actions.is_empty());
}

#[test]
fn scenario_launch_failure() {
    let p = pkg("left-pad");
    let (result, actions, _) = drive(&p, "/volta", Some(platform()), Ok(image()), None);
    assert_eq!(
        result,
        InstallResult::InstallLaunchFailed {
            package: "left-pad".to_string()
        }
    );
    // The indicator was shown for the launch and dismissed on its failure.
    assert_eq!(actions, vec![UiAction::StartProgress, UiAction::StopProgress]);
}

#[test]
fn progress_dismissed_once_on_every_outcome() {
    let runs = vec![
        drive(&pkg("a"), "/volta", Some(platform()), Ok(image()), Some(outcome(true, ""))),
        drive(
            &pkg("b"),
            "/volta",
            Some(platform()),
            Ok(image()),
            Some(outcome(false, "npm ERR! code E404")),
        ),
        drive(
            &pkg("c"),
            "/volta",
            Some(platform()),
            Ok(image()),
            Some(outcome(false, "npm ERR! other")),
        ),
        drive(&pkg("d"), "/volta", Some(platform()), Ok(image()), None),
        drive(&pkg("e"), "/volta", None, Err("unused".to_string()), None),
        drive(&pkg("f"), "/volta", Some(platform()), Err("bad".to_string()), None),
    ];
    for (_, actions, _) in runs {
        let starts = actions.iter().filter(|a| **a == UiAction::StartProgress).count();
        let stops = actions.iter().filter(|a| **a == UiAction::StopProgress).count();
        assert_eq!(starts, stops);
        assert!(stops <= 1);
    }
}
