use knot::client::errors::ClientError;
use knot::client::launcher::{
    spawn_failure, spawned_pid, CurrentExeLauncher, DefaultLauncher, ExternalPathLauncher,
    StandardDaemonLauncher, SystemPathLauncher,
};

#[test]
fn test_current_exe_launcher_binary_path() {
    let launcher = CurrentExeLauncher::new("/usr/local/bin/knot");
    assert_eq!(launcher.binary_path(), "/usr/local/bin/knot");
}

#[test]
fn test_current_exe_launcher_args() {
    let mut launcher = CurrentExeLauncher::new("/usr/local/bin/knot");
    launcher.arg("--mode").arg("test");
    assert_eq!(launcher.args(), &vec!["--mode".to_string(), "test".to_string()]);
}

#[test]
fn test_default_launcher_binary_path() {
    let launcher = DefaultLauncher::new();
    let path = launcher.binary_path();
    assert!(path == "knotd" || path.ends_with("/knotd"));
}

#[test]
fn test_external_path_launcher_binary_path() {
    let path = "/usr/bin/custom_knot";
    let launcher = ExternalPathLauncher::new(path);
    assert_eq!(launcher.binary_path(), path);
}

#[test]
fn test_external_path_launcher_args() {
    let mut launcher = ExternalPathLauncher::new("custom_knot");
    launcher.arg("--config").arg("custom.toml");
    assert_eq!(launcher.args(), &vec!["--config".to_string(), "custom.toml".to_string()]);
}

#[test]
fn test_standard_daemon_launcher_binary_path() {
    let launcher = StandardDaemonLauncher::new().unwrap();
    assert!(launcher.binary_path().ends_with("/knotd"));
}

#[test]
fn test_standard_daemon_launcher_args() {
    let mut launcher = StandardDaemonLauncher::new().unwrap();
    launcher.arg("--debug").arg("-v");
    assert_eq!(launcher.args(), &vec!["--debug".to_string(), "-v".to_string()]);
}

#[test]
fn test_system_path_launcher_binary_path() {
    let launcher = SystemPathLauncher::new();
    assert_eq!(launcher.binary_path(), "knot");
}

#[test]
fn test_system_path_launcher_args() {
    let mut launcher = SystemPathLauncher::new();
    launcher.arg("--debug").arg("-v");
    assert_eq!(launcher.args(), &vec!["--debug".to_string(), "-v".to_string()]);
}

#[test]
fn standard_launcher_in_data_dir_and_missing_binary() {
    let mut launcher = StandardDaemonLauncher::new_in(Some("/data")).unwrap();
    assert_eq!(launcher.binary_path(), "/data/bin/knotd");
    launcher.arg("-q");
    let external = launcher.to_external(true).unwrap();
    assert_eq!(external.binary_path(), "/data/bin/knotd");
    assert_eq!(external.args(), &vec!["-q".to_string()]);
    match launcher.to_external(false) {
        Err(ClientError::Daemon(knot::client::errors::DaemonLifecycleError::LaunchFailed { message, binary_path, error })) => {
            assert_eq!(message, "The knot daemon binary was not found in the standard Knot binary directory");
            assert_eq!(binary_path, "/data/bin/knotd");
            assert_eq!(error, "file does not exist");
        }
        _ => panic!("expected a launch failure"),
    }
    assert!(StandardDaemonLauncher::new_in(None).is_err());
}

#[test]
fn default_launcher_falls_back_to_bare_name() {
    assert_eq!(DefaultLauncher::new_in(None).binary_path(), "knotd");
    assert_eq!(DefaultLauncher::new_in(Some("/d")).binary_path(), "/d/bin/knotd");
    let failure = DefaultLauncher::launch_failure("/d/bin/knotd", &spawn_failure("/d/bin/knotd", "denied"));
    match failure {
        ClientError::Daemon(knot::client::errors::DaemonLifecycleError::LaunchFailed { binary_path, error, .. }) => {
            assert_eq!(binary_path, "/d/bin/knotd");
            assert_eq!(error, "failed to start the knot background daemon");
        }
        _ => panic!("expected a launch failure"),
    }
}

#[test]
fn spawn_results() {
    assert_eq!(spawned_pid("/bin/knotd", Some(12)).ok(), Some(12));
    match spawned_pid("/bin/knotd", None) {
        Err(ClientError::Daemon(knot::client::errors::DaemonLifecycleError::LaunchFailed { message, error, .. })) => {
            assert!(message.starts_with("Daemon process exited immediately"));
            assert_eq!(error, "");
        }
        _ => panic!("expected a launch failure"),
    }
    let system = SystemPathLauncher::new().to_external();
    assert_eq!(system.binary_path(), "knot");
    let mut current = CurrentExeLauncher::new("/x/knot");
    current.arg("daemon");
    assert_eq!(current.to_external().args(), &vec!["daemon".to_string()]);
}
