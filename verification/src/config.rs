//! The configuration model: the single persisted document, its hard-coded
//! default, and the outcomes of loading and initializing it.
//!
//! Reading and writing the document is the caller's side of the boundary;
//! this module decides what a load outcome means and what an `init` is
//! allowed to write.

use vstd::prelude::*;
use crate::adopt::Secretz;
use crate::storage::{LocalPath, Repository, S3Info};
use crate::storage::str_views;

verus! {

/// The secret that unlocks the backup repository: an inline passphrase or a
/// reference to a file holding it.
pub enum Credential {
    Passphrase(String),
    PasswordFile(String),
}

/// Backup settings: the credential, the exclude patterns, the directories to
/// back up, and the storage backend.
pub struct Backup {
    pub credential: Credential,
    pub excludes: Vec<String>,
    pub targets: Vec<String>,
    pub repository: Repository,
}

/// The single persisted configuration document.
pub struct Config {
    pub secretz: Secretz,
    pub backup: Backup,
}

/// Errors of the configuration model itself.
#[derive(Debug)]
pub enum ConfigError {
    /// A document already exists and overwriting was not forced.
    AlreadyExists,
    /// A document is present but structurally invalid; carries the parse
    /// complaint.
    Invalid(String),
}

/// What reading the persisted document produced: no document at all, a
/// structurally valid one, or a present but invalid one with the parse
/// complaint.
pub enum LoadedDocument {
    Missing,
    Parsed(Config),
    Invalid(String),
}

/// The default S3 backend sample: every field an obviously fake placeholder.
pub open spec fn spec_is_default_s3(s: S3Info) -> bool {
    &&& s.bucket@ == "my_bucket"@
    &&& (s.endpoint matches Some(e) && e@ == "https://my-s3-endpoint.net"@)
    &&& s.access_key_id@ == "access_key_id"@
    &&& s.secret_access_key@ == "secret_access_key"@
    &&& (s.region matches Some(r) && r@ == "us-east-1"@)
}

/// The default backup settings shared by both default documents: a
/// placeholder passphrase, one exclude pattern and two targets.
pub open spec fn spec_is_default_backup_base(b: Backup) -> bool {
    &&& (b.credential matches Credential::Passphrase(p) && p@ == "very_secure_password"@)
    &&& str_views(b.excludes@) == seq!["target"@]
    &&& str_views(b.targets@) == seq!["/mnt/codez"@, "/mnt/secretz"@]
}

/// The built-in default document: placeholder backup settings over a local
/// repository.
pub open spec fn spec_is_default_config(c: Config) -> bool {
    &&& c.secretz.path@ == "/mnt/secretz"@
    &&& spec_is_default_backup_base(c.backup)
    &&& (c.backup.repository matches Repository::Local(lp) && lp.path@ == "/mnt/backupz/wk"@)
}

/// The default document with the remote-storage sample: the same settings
/// over the placeholder S3 backend.
pub open spec fn spec_is_default_remote_config(c: Config) -> bool {
    &&& c.secretz.path@ == "/mnt/secretz"@
    &&& spec_is_default_backup_base(c.backup)
    &&& (c.backup.repository matches Repository::S3(s) && spec_is_default_s3(s))
}

impl Default for S3Info {
    /// The placeholder S3 backend offered as a remote-storage sample.
    fn default() -> (r: S3Info)
        ensures
            spec_is_default_s3(r),
    {
        S3Info {
            bucket: String::from_str("my_bucket"),
            endpoint: Some(String::from_str("https://my-s3-endpoint.net")),
            access_key_id: String::from_str("access_key_id"),
            secret_access_key: String::from_str("secret_access_key"),
            region: Some(String::from_str("us-east-1")),
        }
    }
}

impl Default for Config {
    /// The built-in default document, substituted when no document exists
    /// and written by an explicit `init`; never persisted silently.
    fn default() -> (r: Config)
        ensures
            spec_is_default_config(r),
    {
        let mut excludes: Vec<String> = Vec::new();
        excludes.push(String::from_str("target"));
        let mut targets: Vec<String> = Vec::new();
        targets.push(String::from_str("/mnt/codez"));
        targets.push(String::from_str("/mnt/secretz"));
        proof {
            assert(str_views(excludes@) =~= seq!["target"@]);
            assert(str_views(targets@) =~= seq!["/mnt/codez"@, "/mnt/secretz"@]);
        }
        Config {
            secretz: Secretz { path: String::from_str("/mnt/secretz") },
            backup: Backup {
                credential: Credential::Passphrase(String::from_str("very_secure_password")),
                excludes,
                targets,
                repository: Repository::Local(
                    LocalPath { path: String::from_str("/mnt/backupz/wk") },
                ),
            },
        }
    }
}

impl Config {
    /// Turns the outcome of reading the persisted document into a
    /// configuration: a missing document yields the built-in default, a
    /// valid one is taken as it is, and a present but invalid one is a hard
    /// error carrying the parse complaint — never silently replaced.
    pub fn load(doc: LoadedDocument) -> (r: Result<Config, ConfigError>)
        ensures
            (doc matches LoadedDocument::Missing ==> r matches Ok(c) && spec_is_default_config(
                c,
            )),
            (doc matches LoadedDocument::Parsed(c) ==> r == Ok::<Config, ConfigError>(c)),
            (doc matches LoadedDocument::Invalid(m) ==> r == Err::<Config, ConfigError>(
                ConfigError::Invalid(m),
            )),
    {
        match doc {
            LoadedDocument::Missing => Ok(Config::default()),
            LoadedDocument::Parsed(config) => Ok(config),
            LoadedDocument::Invalid(complaint) => Err(ConfigError::Invalid(complaint)),
        }
    }

    /// Decides what `config init` writes: refuses to overwrite an existing
    /// document unless forced, and otherwise hands back the default
    /// document, with the remote-storage sample in place of the local
    /// repository when requested.
    pub fn init_plan(exists: bool, force: bool, remote: bool) -> (r: Result<Config, ConfigError>)
        ensures
            exists && !force ==> r == Err::<Config, ConfigError>(ConfigError::AlreadyExists),
            !(exists && !force) ==> (match r {
                Ok(c) => if remote {
                    spec_is_default_remote_config(c)
                } else {
                    spec_is_default_config(c)
                },
                Err(_) => false,
            }),
    {
        if exists && !force {
            return Err(ConfigError::AlreadyExists);
        }
        let mut config = Config::default();
        if remote {
            config.backup.repository = Repository::S3(S3Info::default());
        }
        Ok(config)
    }
}

} // verus!
