use backupz::config::{Config, ConfigError, Credential, LoadedDocument};
use backupz::storage::Repository;

#[test]
fn missing_document_yields_the_default() {
    let config = Config::load(LoadedDocument::Missing).unwrap();
    assert_eq!("/mnt/secretz", config.secretz.path);
    assert_eq!(vec!["target".to_string()], config.backup.excludes);
    assert_eq!(
        vec!["/mnt/codez".to_string(), "/mnt/secretz".to_string()],
        config.backup.targets
    );
    match &config.backup.credential {
        Credential::Passphrase(p) => assert_eq!("very_secure_password", p.as_str()),
        Credential::PasswordFile(_) => panic!("default credential is an inline passphrase"),
    }
    match &config.backup.repository {
        Repository::Local(lp) => assert_eq!("/mnt/backupz/wk", lp.path),
        Repository::S3(_) => panic!("default repository is local"),
    }
}

#[test]
fn invalid_document_is_a_hard_error_not_the_default() {
    let outcome = Config::load(LoadedDocument::Invalid("expected a table".to_string()));
    match outcome {
        Err(ConfigError::Invalid(complaint)) => assert_eq!("expected a table", complaint),
        _ => panic!("a present but invalid document must surface its parse complaint"),
    }
}

#[test]
fn valid_document_is_taken_as_it_is() {
    let mut config = Config::load(LoadedDocument::Missing).unwrap();
    config.secretz.path = "/elsewhere".to_string();
    let reloaded = Config::load(LoadedDocument::Parsed(config)).unwrap();
    assert_eq!("/elsewhere", reloaded.secretz.path);
}

#[test]
fn init_refuses_to_overwrite_without_force() {
    let outcome = Config::init_plan(true, false, false);
    assert!(matches!(outcome, Err(ConfigError::AlreadyExists)));
}

#[test]
fn init_overwrites_when_forced() {
    let config = Config::init_plan(true, true, false).unwrap();
    assert_eq!("/mnt/secretz", config.secretz.path);
    assert!(matches!(config.backup.repository, Repository::Local(_)));
}

#[test]
fn init_writes_the_default_when_no_document_exists() {
    let config = Config::init_plan(false, false, false).unwrap();
    assert!(matches!(config.backup.repository, Repository::Local(_)));
}

#[test]
fn init_with_remote_sample_uses_the_placeholder_s3_backend() {
    let config = Config::init_plan(false, false, true).unwrap();
    match &config.backup.repository {
        Repository::S3(s3) => {
            assert_eq!("my_bucket", s3.bucket);
            assert_eq!(Some("https://my-s3-endpoint.net".to_string()), s3.endpoint);
            assert_eq!("access_key_id", s3.access_key_id);
            assert_eq!("secret_access_key", s3.secret_access_key);
            assert_eq!(Some("us-east-1".to_string()), s3.region);
        },
        Repository::Local(_) => panic!("remote sample must use the S3 backend"),
    }
}
