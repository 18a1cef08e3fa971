use knot::base::errors::PathResolutionError;
use knot::base::number::{parse_u32, to_decimal};
use knot::base::paths::{
    binary_dir, binary_dir_in, binary_path_in, cli_binary_path, daemon_binary_path, runtime_dir_for,
    KNOT_DAEMON_BINARY_NAME,
};

#[test]
fn decimal_text() {
    assert_eq!(to_decimal(0), "0");
    assert_eq!(to_decimal(1000), "1000");
    assert_eq!(to_decimal(4294967295), "4294967295");
}

#[test]
fn parse_like_std() {
    for s in ["0", "+7", "42", "4294967295", "4294967296", "", "+", "-1", "1a", " 1", "007"] {
        assert_eq!(parse_u32(s), s.parse::<u32>().ok(), "input {s:?}");
    }
}

#[test]
fn binary_paths_under_data_dir() {
    assert_eq!(binary_dir_in(Some("/home/u/.local/share/knot")).unwrap(), "/home/u/.local/share/knot/bin");
    assert_eq!(
        binary_path_in(Some("/data"), KNOT_DAEMON_BINARY_NAME).unwrap(),
        "/data/bin/knotd"
    );
    assert!(matches!(binary_dir_in(None), Err(PathResolutionError)));
}

#[test]
fn runtime_dir_choices() {
    assert_eq!(runtime_dir_for(Some("/run/user/5"), 5), "/run/user/5/knot");
    assert_eq!(runtime_dir_for(None, 1000), "/run/user/1000/knot");
}

#[test]
fn path_resolution_message() {
    assert_eq!(
        PathResolutionError.message(),
        "could not resolve a valid application data directory for this platform/user"
    );
}

#[test]
fn joining_follows_unix_rules() {
    assert_eq!(binary_dir_in(Some("/data/")).unwrap(), "/data/bin");
    assert_eq!(binary_dir_in(Some("")).unwrap(), "bin");
    assert_eq!(binary_path_in(Some("rel"), "/abs/knotd").unwrap(), "/abs/knotd");
    assert_eq!(runtime_dir_for(Some("/run/user/5/"), 5), "/run/user/5/knot");
}

#[test]
fn binary_paths_share_their_directory() {
    match (binary_dir(), cli_binary_path(), daemon_binary_path()) {
        (Ok(dir), Ok(cli), Ok(daemon)) => {
            assert!(dir.ends_with("/knot/bin"));
            assert_eq!(cli, format!("{}/knot", dir));
            assert_eq!(daemon, format!("{}/knotd", dir));
        }
        (Err(_), Err(_), Err(_)) => {}
        _ => panic!("the binary paths disagree on the data directory"),
    }
}
