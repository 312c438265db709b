use backupz::adopt::{AdoptionError, Secretz};

fn secretz() -> Secretz {
    Secretz { path: "/mnt/secretz".to_string() }
}

#[test]
fn directory_is_rejected_and_nothing_is_planned() {
    let plan = secretz().adoption_plan("u", "/home/u", "/home/u/a/dir", true, false);
    assert_eq!(Err(AdoptionError::IsDirectory), plan);
}

#[test]
fn symlink_is_rejected_and_nothing_is_planned() {
    let plan = secretz().adoption_plan("u", "/home/u", "/home/u/a/link", false, true);
    assert_eq!(Err(AdoptionError::IsSymlink), plan);
}

#[test]
fn directory_check_comes_before_symlink_check() {
    let plan = secretz().adoption_plan("u", "/home/u", "/home/u/a/dir", true, true);
    assert_eq!(Err(AdoptionError::IsDirectory), plan);
}

#[test]
fn nested_file_is_mirrored_under_the_pack_directory() {
    let plan = secretz()
        .adoption_plan("u", "/home/u", "/home/u/a/b/secret.txt", false, false)
        .unwrap()
        .unwrap();
    assert_eq!("/mnt/secretz/u/pack/a/b", plan.dest_dir);
    assert_eq!("/mnt/secretz/u/pack/a/b/secret.txt", plan.dest_path);
}

#[test]
fn file_outside_home_is_silently_skipped() {
    let plan = secretz().adoption_plan("u", "/home/u", "/etc/passwd", false, false);
    assert!(matches!(plan, Ok(None)));
}

#[test]
fn file_directly_in_home_is_silently_skipped() {
    let plan = secretz().adoption_plan("u", "/home/u", "/home/u/secret.txt", false, false);
    assert!(matches!(plan, Ok(None)));
}

#[test]
fn home_itself_is_not_under_home() {
    let plan = secretz().adoption_plan("u", "/home/u", "/home/u", false, false);
    assert!(matches!(plan, Ok(None)));
}

#[test]
fn sibling_with_home_prefix_is_not_under_home() {
    let plan = secretz().adoption_plan("u", "/home/u", "/home/user2/a/b", false, false);
    assert!(matches!(plan, Ok(None)));
}

#[test]
fn adopt_rejects_a_directory_whatever_the_environment() {
    let outcome = secretz().adopt("/tmp", true, false);
    assert_eq!(Err(AdoptionError::IsDirectory), outcome);
}

#[test]
fn adopt_rejects_a_symlink_whatever_the_environment() {
    let outcome = secretz().adopt("/tmp/link", false, true);
    assert_eq!(Err(AdoptionError::IsSymlink), outcome);
}

#[test]
fn adopt_of_a_relative_path_is_a_no_op() {
    let outcome = secretz().adopt("relative.txt", false, false);
    assert!(matches!(outcome, Ok(None)));
}

#[test]
fn pack_dir_joins_root_username_and_pack() {
    assert_eq!("/mnt/secretz/u/pack", secretz().pack_dir("u"));
}
