//! The command synthesizer: from backup settings and a requested operation
//! to the exact argument vector and environment of one backup-engine
//! invocation. No process is spawned here; the caller runs the result.

use vstd::prelude::*;
use crate::config::{Backup, Credential};
use crate::storage::{pair_views, str_views};

verus! {

/// One backup-engine verb, with the verb-specific inputs of a restore.
pub enum Operation {
    Init,
    Run,
    Snapshots,
    Restore { host: String, target: String, snapshot_id: String },
    Gc,
}

/// A description of one external-process run: the program, its argument
/// vector, and the environment variables set for it.
pub struct ProcessInvocation {
    pub program: String,
    pub args: Vec<String>,
    pub env: Vec<(String, String)>,
}

/// The engine verb an operation maps to; garbage collection maps to the
/// engine's forget-and-prune maintenance verb.
pub open spec fn spec_verb(op: Operation) -> Seq<char> {
    match op {
        Operation::Init => "init"@,
        Operation::Run => "backup"@,
        Operation::Snapshots => "snapshots"@,
        Operation::Restore { .. } => "restore"@,
        Operation::Gc => "forget"@,
    }
}

/// The flag one exclude pattern becomes.
pub open spec fn spec_exclude_flag(pattern: Seq<char>) -> Seq<char> {
    "--exclude="@ + pattern
}

/// The flags a sequence of exclude patterns becomes, in declared order.
pub open spec fn spec_exclude_flags(patterns: Seq<Seq<char>>) -> Seq<Seq<char>> {
    patterns.map_values(|e: Seq<char>| spec_exclude_flag(e))
}

/// The verb-specific arguments: every exclude flag before every target for a
/// run, the host, target directory and trailing snapshot id for a restore.
pub open spec fn spec_extra_args(backup: Backup, op: Operation) -> Seq<Seq<char>> {
    match op {
        Operation::Init => Seq::empty(),
        Operation::Run => spec_exclude_flags(str_views(backup.excludes@)) + str_views(
            backup.targets@,
        ),
        Operation::Snapshots => Seq::empty(),
        Operation::Restore { host, target, snapshot_id } => seq![
            "-H"@,
            host@,
            "--target"@,
            target@,
            snapshot_id@,
        ],
        Operation::Gc => seq!["--prune"@],
    }
}

/// The full argument vector: the verb, then the verb-specific arguments.
pub open spec fn spec_args(backup: Backup, op: Operation) -> Seq<Seq<char>> {
    seq![spec_verb(op)] + spec_extra_args(backup, op)
}

/// The environment entry carrying the credential: an inline passphrase and a
/// passphrase-file reference travel under different names.
pub open spec fn spec_credential_env(c: Credential) -> (Seq<char>, Seq<char>) {
    match c {
        Credential::Passphrase(p) => ("RESTIC_PASSWORD"@, p@),
        Credential::PasswordFile(f) => ("RESTIC_PASSWORD_FILE"@, f@),
    }
}

/// The invocation environment: the repository address and the credential
/// first, then the backend-specific variables.
pub open spec fn spec_env(backup: Backup) -> Seq<(Seq<char>, Seq<char>)> {
    seq![
        ("RESTIC_REPOSITORY"@, backup.repository.spec_path()),
        spec_credential_env(backup.credential),
    ] + backup.repository.spec_env()
}

/// Builds the exact invocation for one operation: program `restic`, the
/// operation's argument vector, and the merged environment.
pub fn build(backup: &Backup, op: &Operation) -> (inv: ProcessInvocation)
    ensures
        inv.program@ == "restic"@,
        str_views(inv.args@) == spec_args(*backup, *op),
        pair_views(inv.env@) == spec_env(*backup),
{
    let mut args: Vec<String> = Vec::new();
    match op {
        Operation::Init => {
            args.push(String::from_str("init"));
            proof {
                assert(str_views(args@) =~= spec_args(*backup, *op));
            }
        },
        Operation::Run => {
            args.push(String::from_str("backup"));
            let n_excludes = backup.excludes.len();
            let mut i: usize = 0;
            while i < n_excludes
                invariant
                    i <= n_excludes,
                    n_excludes == backup.excludes@.len(),
                    args@.len() == 1 + i,
                    args@[0]@ == "backup"@,
                    forall|t: int| 1 <= t < 1 + i ==> #[trigger] args@[t]@ == spec_exclude_flag(
                        backup.excludes@[t - 1]@,
                    ),
                decreases n_excludes - i,
            {
                let mut flag = String::from_str("--exclude=");
                flag.append(backup.excludes[i].as_str());
                args.push(flag);
                i = i + 1;
            }
            let n_targets = backup.targets.len();
            let mut j: usize = 0;
            while j < n_targets
                invariant
                    j <= n_targets,
                    n_targets == backup.targets@.len(),
                    n_excludes == backup.excludes@.len(),
                    args@.len() == 1 + n_excludes + j,
                    args@[0]@ == "backup"@,
                    forall|t: int| 1 <= t < 1 + n_excludes ==> #[trigger] args@[t]@
                        == spec_exclude_flag(backup.excludes@[t - 1]@),
                    forall|t: int| 1 + n_excludes <= t < 1 + n_excludes + j ==> #[trigger] args@[t]@
                        == backup.targets@[t - 1 - n_excludes]@,
                decreases n_targets - j,
            {
                args.push(backup.targets[j].clone());
                j = j + 1;
            }
            proof {
                assert(str_views(args@) =~= spec_args(*backup, *op));
            }
        },
        Operation::Snapshots => {
            args.push(String::from_str("snapshots"));
            proof {
                assert(str_views(args@) =~= spec_args(*backup, *op));
            }
        },
        Operation::Restore { host, target, snapshot_id } => {
            args.push(String::from_str("restore"));
            args.push(String::from_str("-H"));
            args.push(host.clone());
            args.push(String::from_str("--target"));
            args.push(target.clone());
            args.push(snapshot_id.clone());
            proof {
                assert(str_views(args@) =~= spec_args(*backup, *op));
            }
        },
        Operation::Gc => {
            args.push(String::from_str("forget"));
            args.push(String::from_str("--prune"));
            proof {
                assert(str_views(args@) =~= spec_args(*backup, *op));
            }
        },
    }
    let resolved = backup.repository.resolve();
    let address = resolved.0;
    let backend_env = resolved.1;
    let mut env: Vec<(String, String)> = Vec::new();
    env.push((String::from_str("RESTIC_REPOSITORY"), address));
    match &backup.credential {
        Credential::Passphrase(p) => {
            env.push((String::from_str("RESTIC_PASSWORD"), p.clone()));
        },
        Credential::PasswordFile(f) => {
            env.push((String::from_str("RESTIC_PASSWORD_FILE"), f.clone()));
        },
    }
    let n_backend = backend_env.len();
    let mut k: usize = 0;
    while k < n_backend
        invariant
            k <= n_backend,
            n_backend == backend_env@.len(),
            env@.len() == 2 + k,
            (env@[0].0@, env@[0].1@) == ("RESTIC_REPOSITORY"@, backup.repository.spec_path()),
            (env@[1].0@, env@[1].1@) == spec_credential_env(backup.credential),
            forall|t: int| 2 <= t < 2 + k ==> (#[trigger] env@[t].0@, env@[t].1@) == (
                backend_env@[t - 2].0@,
                backend_env@[t - 2].1@,
            ),
        decreases n_backend - k,
    {
        let name = backend_env[k].0.clone();
        let value = backend_env[k].1.clone();
        env.push((name, value));
        k = k + 1;
    }
    proof {
        assert(pair_views(env@) =~= spec_env(*backup));
    }
    ProcessInvocation { program: String::from_str("restic"), args, env }
}

/// The exclude flags of a run stand before every target path: the argument
/// vector of a run is the verb, then exactly the declared excludes in order,
/// each as its flag, then exactly the declared targets in order.
pub proof fn lemma_run_args_order(backup: Backup)
    ensures
        spec_args(backup, Operation::Run).len() == 1 + backup.excludes@.len()
            + backup.targets@.len(),
        spec_args(backup, Operation::Run)[0] == "backup"@,
        forall|i: int| 0 <= i < backup.excludes@.len() ==> spec_args(backup, Operation::Run)[1 + i]
            == spec_exclude_flag(backup.excludes@[i]@),
        forall|j: int| 0 <= j < backup.targets@.len() ==> spec_args(backup, Operation::Run)[1
            + backup.excludes@.len() + j] == backup.targets@[j]@,
{
}

/// The arguments of a restore end in the host flag and tag, the target flag
/// and directory, and the snapshot id as the final positional argument, in
/// that exact order.
pub proof fn lemma_restore_args_shape(
    backup: Backup,
    host: Seq<char>,
    target: Seq<char>,
    snapshot_id: Seq<char>,
    op: Operation,
)
    requires
        op matches Operation::Restore { host: h, target: t, snapshot_id: s } && h@ == host && t@
            == target && s@ == snapshot_id,
    ensures
        spec_args(backup, op) =~= seq![
            "restore"@,
            "-H"@,
            host,
            "--target"@,
            target,
            snapshot_id,
        ],
{
}

/// Merging the backend environment never overwrites the repository or
/// credential variables: those stand first, and every backend entry travels
/// under a different name.
pub proof fn lemma_env_never_overwrites(backup: Backup)
    ensures
        spec_env(backup).len() >= 2,
        spec_env(backup)[0].0 == "RESTIC_REPOSITORY"@,
        spec_env(backup)[1] == spec_credential_env(backup.credential),
        forall|i: int| 2 <= i < spec_env(backup).len() ==> #[trigger] spec_env(backup)[i].0
            != "RESTIC_REPOSITORY"@ && spec_env(backup)[i].0 != "RESTIC_PASSWORD"@ && spec_env(
            backup,
        )[i].0 != "RESTIC_PASSWORD_FILE"@,
{
    reveal_strlit("RESTIC_REPOSITORY");
    reveal_strlit("RESTIC_PASSWORD");
    reveal_strlit("RESTIC_PASSWORD_FILE");
    reveal_strlit("AWS_ACCESS_KEY_ID");
    reveal_strlit("AWS_SECRET_ACCESS_KEY");
    reveal_strlit("AWS_DEFAULT_REGION");
    assert forall|i: int| 2 <= i < spec_env(backup).len() implies #[trigger] spec_env(
        backup,
    )[i].0 != "RESTIC_REPOSITORY"@ && spec_env(backup)[i].0 != "RESTIC_PASSWORD"@ && spec_env(
        backup,
    )[i].0 != "RESTIC_PASSWORD_FILE"@ by {
        let name = spec_env(backup)[i].0;
        assert(name == "AWS_ACCESS_KEY_ID"@ || name == "AWS_SECRET_ACCESS_KEY"@ || name
            == "AWS_DEFAULT_REGION"@);
        assert("AWS_ACCESS_KEY_ID"@[0] != "RESTIC_REPOSITORY"@[0]);
    }
}

} // verus!
