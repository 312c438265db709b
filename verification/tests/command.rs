use backupz::command::{build, Operation};
use backupz::config::{Backup, Credential};
use backupz::storage::{LocalPath, Repository, S3Info};

fn sample_backup() -> Backup {
    Backup {
        credential: Credential::Passphrase("very_secure_password".to_string()),
        excludes: vec!["target".to_string()],
        targets: vec!["/mnt/codez".to_string(), "/mnt/secretz".to_string()],
        repository: Repository::Local(LocalPath { path: "/mnt/backupz/wk".to_string() }),
    }
}

#[test]
fn run_emits_excludes_before_targets_in_order() {
    let inv = build(&sample_backup(), &Operation::Run);
    assert_eq!("restic", inv.program);
    assert_eq!(
        vec![
            "backup".to_string(),
            "--exclude=target".to_string(),
            "/mnt/codez".to_string(),
            "/mnt/secretz".to_string(),
        ],
        inv.args
    );
}

#[test]
fn run_preserves_declared_order_of_excludes_and_targets() {
    let mut backup = sample_backup();
    backup.excludes = vec!["a".to_string(), "b".to_string(), "c".to_string()];
    backup.targets = vec!["/one".to_string(), "/two".to_string()];
    let inv = build(&backup, &Operation::Run);
    assert_eq!(
        vec![
            "backup".to_string(),
            "--exclude=a".to_string(),
            "--exclude=b".to_string(),
            "--exclude=c".to_string(),
            "/one".to_string(),
            "/two".to_string(),
        ],
        inv.args
    );
}

#[test]
fn restore_args_end_in_host_target_and_snapshot_id() {
    let inv = build(
        &sample_backup(),
        &Operation::Restore {
            host: "h".to_string(),
            target: "/".to_string(),
            snapshot_id: "latest".to_string(),
        },
    );
    assert_eq!(
        vec![
            "restore".to_string(),
            "-H".to_string(),
            "h".to_string(),
            "--target".to_string(),
            "/".to_string(),
            "latest".to_string(),
        ],
        inv.args
    );
}

#[test]
fn init_and_snapshots_take_no_extra_args() {
    let init = build(&sample_backup(), &Operation::Init);
    assert_eq!(vec!["init".to_string()], init.args);
    let snapshots = build(&sample_backup(), &Operation::Snapshots);
    assert_eq!(vec!["snapshots".to_string()], snapshots.args);
}

#[test]
fn gc_maps_to_forget_and_prune() {
    let inv = build(&sample_backup(), &Operation::Gc);
    assert_eq!(vec!["forget".to_string(), "--prune".to_string()], inv.args);
}

#[test]
fn env_carries_repository_and_passphrase() {
    let inv = build(&sample_backup(), &Operation::Run);
    assert_eq!(
        vec![
            ("RESTIC_REPOSITORY".to_string(), "/mnt/backupz/wk".to_string()),
            ("RESTIC_PASSWORD".to_string(), "very_secure_password".to_string()),
        ],
        inv.env
    );
}

#[test]
fn env_carries_password_file_reference() {
    let mut backup = sample_backup();
    backup.credential = Credential::PasswordFile("/etc/backup.pass".to_string());
    let inv = build(&backup, &Operation::Snapshots);
    assert_eq!(
        ("RESTIC_PASSWORD_FILE".to_string(), "/etc/backup.pass".to_string()),
        inv.env[1]
    );
}

#[test]
fn backend_env_is_merged_after_repository_and_credential() {
    let mut backup = sample_backup();
    backup.repository = Repository::S3(S3Info {
        bucket: "b".to_string(),
        access_key_id: "id".to_string(),
        secret_access_key: "key".to_string(),
        endpoint: Some("https://x".to_string()),
        region: Some("us-east-1".to_string()),
    });
    let inv = build(&backup, &Operation::Init);
    assert_eq!(
        vec![
            ("RESTIC_REPOSITORY".to_string(), "s3:https://x/b".to_string()),
            ("RESTIC_PASSWORD".to_string(), "very_secure_password".to_string()),
            ("AWS_ACCESS_KEY_ID".to_string(), "id".to_string()),
            ("AWS_SECRET_ACCESS_KEY".to_string(), "key".to_string()),
            ("AWS_DEFAULT_REGION".to_string(), "us-east-1".to_string()),
        ],
        inv.env
    );
}
