use photon::kube::{
    basic_auth_header, plan_secret_create, plan_secret_patch, plan_secret_update,
    Error as KubeError, SecretData, SecretLookup,
};
use photon::options::{CliError, Opts, OutputCommand};
use photon::point::StrMap;

fn args(list: &[&str]) -> Vec<String> {
    list.iter().map(|s| (*s).to_owned()).collect()
}

#[test]
fn parse_console_command() {
    let opts = Opts::parse_from_args(args(&[
        "--client-id",
        "abc",
        "--client-secret",
        "SECRET-REDACTED",
        "console",
    ]))
    .unwrap();
    assert_eq!(opts.client_id, "abc");
    assert_eq!(opts.client_secret, "SECRET-REDACTED");
    assert!(matches!(opts.output, OutputCommand::Console));
}

#[test]
fn parse_kube_secret_command() {
    let opts = Opts::parse_from_args(args(&[
        "--client-id",
        "abc",
        "--client-secret",
        "SECRET-REDACTED",
        "kube-secret",
        "rte-token",
        "--secret-key",
        "token",
        "--namespace",
        "energy",
    ]))
    .unwrap();
    match opts.output {
        OutputCommand::KubeSecret(k) => {
            assert_eq!(k.secret_name, "rte-token");
            assert_eq!(k.secret_key, "token");
            assert_eq!(k.namespace.as_deref(), Some("energy"));
            assert!(k.context.is_none());
            assert!(k.cluster.is_none());
        }
        OutputCommand::Console => panic!("wrong command"),
    }
}

#[test]
fn parse_rejects_missing_credentials() {
    match Opts::parse_from_args(args(&["console"])) {
        Err(CliError::Missing(n)) => assert_eq!(n, "--client-id"),
        other => panic!("unexpected: {:?}", other),
    }
}

#[test]
fn parse_rejects_unknown_command() {
    match Opts::parse_from_args(args(&[
        "--client-id",
        "abc",
        "--client-secret",
        "SECRET-REDACTED",
        "dump",
    ])) {
        Err(CliError::UnknownCommand(c)) => assert_eq!(c, "dump"),
        other => panic!("unexpected: {:?}", other),
    }
}

#[test]
fn auth_header_is_basic_base64() {
    assert_eq!(basic_auth_header("user", "pass"), "Basic dXNlcjpwYXNz");
}

#[test]
fn secret_patch_replaces_only_the_configured_key() {
    let mut data: SecretData = StrMap::new();
    data.insert("token".to_owned(), b"old".to_vec());
    data.insert("other".to_owned(), b"keep".to_vec());
    let updated = plan_secret_patch(Some(&data), "rte-token", "token", "newtok").unwrap();
    // base64 of "newtok"
    assert_eq!(updated.get("token").unwrap(), b"bmV3dG9r");
    assert_eq!(updated.get("other").unwrap(), b"keep");
    assert_eq!(updated.len(), 2);
}

#[test]
fn secret_patch_requires_the_key() {
    let mut data: SecretData = StrMap::new();
    data.insert("other".to_owned(), b"keep".to_vec());
    match plan_secret_patch(Some(&data), "rte-token", "token", "newtok") {
        Err(KubeError::SecretKeyNotFound(name, key)) => {
            assert_eq!(name, "rte-token");
            assert_eq!(key, "token");
        }
        other => panic!("unexpected: {:?}", other),
    }
}

#[test]
fn secret_patch_requires_a_data_map() {
    match plan_secret_patch(None, "rte-token", "token", "newtok") {
        Err(KubeError::InvalidSecret(name)) => assert_eq!(name, "rte-token"),
        other => panic!("unexpected: {:?}", other),
    }
}

#[test]
fn secret_create_holds_one_entry() {
    let data = plan_secret_create("token", "newtok");
    assert_eq!(data.len(), 1);
    assert_eq!(data.get("token").unwrap(), b"bmV3dG9r");
}

#[test]
fn secret_update_creates_when_absent() {
    let data = plan_secret_update(SecretLookup::Absent, "rte-token", "token", "newtok").unwrap();
    assert_eq!(data.len(), 1);
    assert_eq!(data.get("token").unwrap(), b"bmV3dG9r");
}

#[test]
fn secret_update_patches_when_found() {
    let mut data: SecretData = StrMap::new();
    data.insert("token".to_owned(), b"old".to_vec());
    let updated =
        plan_secret_update(SecretLookup::Found(Some(&data)), "rte-token", "token", "newtok")
            .unwrap();
    assert_eq!(updated.get("token").unwrap(), b"bmV3dG9r");
    match plan_secret_update(SecretLookup::Found(None), "rte-token", "token", "newtok") {
        Err(KubeError::InvalidSecret(name)) => assert_eq!(name, "rte-token"),
        other => panic!("unexpected: {:?}", other),
    }
}
