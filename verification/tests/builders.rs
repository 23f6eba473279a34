use rocker::command::DockerBuild;
use rocker::command::DockerCommand;
use rocker::command::Rocker;

#[test]
fn build_args_deterministic() {
    let b = Rocker::build().tag("myimage:latest").context("src");
    assert_eq!(b.args(), b.args());
}

#[test]
fn create_args_deterministic() {
    let c = Rocker::create("alpine");
    assert_eq!(c.args(), c.args());
}

#[test]
fn copy_args_deterministic() {
    let c = Rocker::copy().from_container("abc", "/data").to_host("/tmp/out");
    assert_eq!(c.args(), c.args());
}

#[test]
fn build_default_args() {
    let args = Rocker::build().args();
    assert_eq!(
        args,
        vec![
            "build".to_string(),
            "-f".to_string(),
            "Dockerfile".to_string(),
            ".".to_string(),
        ]
    );
}

#[test]
fn unset_tag_emits_no_flag_pair() {
    let args = Rocker::build().context("ctx").file("F").args();
    assert_eq!(args.len(), 4);
    assert!(!args.iter().any(|a| a == "-t"));
}

#[test]
fn tag_subsequence_precedes_context() {
    let args = Rocker::build().tag("myimage:latest").args();
    let n = args.len();
    assert_eq!(args[n - 3], "-t");
    assert_eq!(args[n - 2], "myimage:latest");
    assert_eq!(args[n - 1], ".");
}

#[test]
fn build_overrides_replace_fields() {
    let args = Rocker::build().file("Other.dockerfile").context("services/api").args();
    assert_eq!(
        args,
        vec![
            "build".to_string(),
            "-f".to_string(),
            "Other.dockerfile".to_string(),
            "services/api".to_string(),
        ]
    );
}

#[test]
fn builder_updates_leave_original_unchanged() {
    let base = DockerBuild::new();
    let _changed = base.context("elsewhere").tag("t:1");
    assert_eq!(
        base.args(),
        vec![
            "build".to_string(),
            "-f".to_string(),
            "Dockerfile".to_string(),
            ".".to_string(),
        ]
    );
}

#[test]
fn create_args() {
    let args = Rocker::create("alpine:3.20").args();
    assert_eq!(args, vec!["create".to_string(), "alpine:3.20".to_string()]);
}

#[test]
fn copy_args_colon_joined() {
    let args = Rocker::copy().from_container("abc123", "/var/log").to_host("/tmp/log").args();
    assert_eq!(
        args,
        vec!["cp".to_string(), "abc123:/var/log".to_string(), "/tmp/log".to_string()]
    );
}

#[test]
fn unset_copy_endpoints_emit_nothing() {
    let args = Rocker::copy().args();
    assert_eq!(args, vec!["cp".to_string()]);
    assert!(!args.iter().any(|a| a.is_empty()));
}

#[test]
fn copy_with_only_destination() {
    let args = Rocker::copy().to_host("/tmp/out").args();
    assert_eq!(args, vec!["cp".to_string(), "/tmp/out".to_string()]);
}
