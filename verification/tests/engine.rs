use zstress::EngineErrorKind;
use zstress::EngineOutcome;
use zstress::ZfsError;
use zstress::classify_engine_error;
use zstress::contains_str;
use zstress::create_outcome;
use zstress::dataset_children_outcome;
use zstress::destroy_outcome;
use zstress::get_outcome;
use zstress::snapshot_exists_outcome;
use zstress::snapshot_list_outcome;
use zstress::strict_outcome;
use zstress::zfs_clone;
use zstress::zfs_create;
use zstress::zfs_dataset_children;
use zstress::zfs_destroy;
use zstress::zfs_destroy_snapshot;
use zstress::zfs_get;
use zstress::zfs_send_to_null;
use zstress::zfs_snapshot;
use zstress::zfs_snapshot_exists;
use zstress::zfs_snapshot_list;

#[test]
fn destroy_invocation() {
    let argv = zfs_destroy("dynamite/plant", true).unwrap();
    assert_eq!(argv, vec!["destroy", "-r", "dynamite/plant"]);
    let argv = zfs_destroy("dynamite/plant", false).unwrap();
    assert_eq!(argv, vec!["destroy", "dynamite/plant"]);
    assert_eq!(zfs_destroy("a@b", true), Err(ZfsError::InvalidDatasetName));
}

#[test]
fn destroy_snapshot_invocation() {
    let argv = zfs_destroy_snapshot("dynamite/plant/0001", "backup-1").unwrap();
    assert_eq!(argv, vec!["destroy", "dynamite/plant/0001@backup-1"]);
    assert_eq!(
        zfs_destroy_snapshot("a@b", "s"),
        Err(ZfsError::InvalidDatasetName)
    );
    assert_eq!(
        zfs_destroy_snapshot("a", "s/t"),
        Err(ZfsError::InvalidSnapshotName)
    );
}

#[test]
fn create_invocation() {
    let argv = zfs_create("dynamite/seed").unwrap();
    assert_eq!(argv, vec!["create", "dynamite/seed"]);
    assert_eq!(zfs_create("x@y"), Err(ZfsError::InvalidDatasetName));
}

#[test]
fn snapshot_invocation() {
    let argv = zfs_snapshot("dynamite/seed/0001", "final", false).unwrap();
    assert_eq!(argv, vec!["snapshot", "dynamite/seed/0001@final"]);
    let argv = zfs_snapshot("dynamite/seed", "final", true).unwrap();
    assert_eq!(argv, vec!["snapshot", "-r", "dynamite/seed@final"]);
    assert_eq!(
        zfs_snapshot("dynamite", "a@b", false),
        Err(ZfsError::InvalidSnapshotName)
    );
}

#[test]
fn clone_invocation() {
    let argv = zfs_clone("dynamite/seed/0001", "final", "dynamite/plant/0001").unwrap();
    assert_eq!(
        argv,
        vec!["clone", "dynamite/seed/0001@final", "dynamite/plant/0001"]
    );
    assert_eq!(
        zfs_clone("dynamite", "final", "bad@target"),
        Err(ZfsError::InvalidDatasetName)
    );
    assert_eq!(
        zfs_clone("dynamite", "fin/al", "dynamite/plant/0001"),
        Err(ZfsError::InvalidSnapshotName)
    );
}

#[test]
fn get_invocation() {
    let argv = zfs_get("dynamite/seed/0001", "mountpoint").unwrap();
    assert_eq!(
        argv,
        vec!["get", "-H", "-o", "value", "mountpoint", "dynamite/seed/0001"]
    );
    assert_eq!(
        zfs_get("x@y", "mountpoint"),
        Err(ZfsError::InvalidDatasetName)
    );
}

#[test]
fn snapshot_exists_invocation() {
    let argv = zfs_snapshot_exists("dynamite/seed/0001", "final").unwrap();
    assert_eq!(argv, vec!["list", "-Ho", "name", "dynamite/seed/0001@final"]);
}

#[test]
fn dataset_children_invocation() {
    let argv = zfs_dataset_children("dynamite/plant").unwrap();
    assert_eq!(
        argv,
        vec!["list", "-t", "filesystem", "-d", "1", "-Ho", "name", "dynamite/plant"]
    );
}

#[test]
fn snapshot_list_invocation() {
    let argv = zfs_snapshot_list("dynamite/plant/0001").unwrap();
    assert_eq!(
        argv,
        vec![
            "list",
            "-t",
            "snapshot",
            "-d",
            "1",
            "-Ho",
            "name",
            "-s",
            "creation",
            "dynamite/plant/0001"
        ]
    );
}

#[test]
fn send_invocation() {
    let argv = zfs_send_to_null("dynamite/plant/0001", "backup-1", "backup-2").unwrap();
    assert_eq!(
        argv,
        vec![
            "send",
            "-i",
            "dynamite/plant/0001@backup-1",
            "dynamite/plant/0001@backup-2"
        ]
    );
    assert_eq!(
        zfs_send_to_null("d", "ok", "bad/name"),
        Err(ZfsError::InvalidSnapshotName)
    );
}

#[test]
fn error_classification() {
    assert_eq!(
        classify_engine_error("cannot open 'x': dataset does not exist\n"),
        EngineErrorKind::NotFound
    );
    assert_eq!(
        classify_engine_error("cannot create 'x': dataset already exists\n"),
        EngineErrorKind::AlreadyExists
    );
    assert_eq!(
        classify_engine_error("cannot mount 'x': permission denied\n"),
        EngineErrorKind::Other
    );
    assert_eq!(classify_engine_error(""), EngineErrorKind::Other);
}

#[test]
fn substring_search() {
    assert!(contains_str("dataset does not exist", "does not"));
    assert!(contains_str("abc", ""));
    assert!(!contains_str("", "a"));
    assert!(!contains_str("abab", "abba"));
    assert!(contains_str("aaab", "aab"));
}

#[test]
fn destroy_outcome_tolerates_missing_target() {
    assert_eq!(destroy_outcome(EngineOutcome::Success), Ok(()));
    assert_eq!(
        destroy_outcome(EngineOutcome::Failure(EngineErrorKind::NotFound)),
        Ok(())
    );
    assert_eq!(
        destroy_outcome(EngineOutcome::Failure(EngineErrorKind::Other)),
        Err(ZfsError::Engine(EngineErrorKind::Other))
    );
}

#[test]
fn create_outcome_tolerates_existing_target_on_request() {
    assert_eq!(create_outcome(true, EngineOutcome::Success), Ok(()));
    assert_eq!(
        create_outcome(true, EngineOutcome::Failure(EngineErrorKind::AlreadyExists)),
        Ok(())
    );
    assert_eq!(
        create_outcome(false, EngineOutcome::Failure(EngineErrorKind::AlreadyExists)),
        Err(ZfsError::Engine(EngineErrorKind::AlreadyExists))
    );
    assert_eq!(
        create_outcome(true, EngineOutcome::Failure(EngineErrorKind::Other)),
        Err(ZfsError::Engine(EngineErrorKind::Other))
    );
}

#[test]
fn strict_outcome_tolerates_nothing() {
    assert_eq!(strict_outcome(EngineOutcome::Success), Ok(()));
    assert_eq!(
        strict_outcome(EngineOutcome::Failure(EngineErrorKind::NotFound)),
        Err(ZfsError::Engine(EngineErrorKind::NotFound))
    );
}

#[test]
fn existence_probe_outcome() {
    assert_eq!(snapshot_exists_outcome(EngineOutcome::Success), Ok(true));
    assert_eq!(
        snapshot_exists_outcome(EngineOutcome::Failure(EngineErrorKind::NotFound)),
        Ok(false)
    );
    assert_eq!(
        snapshot_exists_outcome(EngineOutcome::Failure(EngineErrorKind::Other)),
        Err(ZfsError::Engine(EngineErrorKind::Other))
    );
}

#[test]
fn property_read_outcome_trims_newlines() {
    assert_eq!(
        get_outcome(EngineOutcome::Success, "/plants/0001\n"),
        Ok("/plants/0001".to_string())
    );
    assert_eq!(get_outcome(EngineOutcome::Success, "none\n\n"), Ok("none".to_string()));
    assert_eq!(get_outcome(EngineOutcome::Success, ""), Ok("".to_string()));
    assert_eq!(
        get_outcome(EngineOutcome::Failure(EngineErrorKind::Other), ""),
        Err(ZfsError::Engine(EngineErrorKind::Other))
    );
}

#[test]
fn children_outcome_splits_lines() {
    let v = dataset_children_outcome(
        EngineOutcome::Success,
        "dynamite/plant\ndynamite/plant/0001\ndynamite/plant/0002\n",
    )
    .unwrap();
    assert_eq!(
        v,
        vec!["dynamite/plant", "dynamite/plant/0001", "dynamite/plant/0002"]
    );
    let empty = dataset_children_outcome(EngineOutcome::Success, "").unwrap();
    assert!(empty.is_empty());
}

#[test]
fn outputs_without_trailing_newline_parse_too() {
    assert_eq!(
        get_outcome(EngineOutcome::Success, "/plants/0001"),
        Ok("/plants/0001".to_string())
    );
    let v = dataset_children_outcome(EngineOutcome::Success, "dynamite/plant").unwrap();
    assert_eq!(v, vec!["dynamite/plant"]);
    let v = snapshot_list_outcome(EngineOutcome::Success, "d/p@backup-1").unwrap();
    assert_eq!(v, vec!["backup-1"]);
}

#[test]
fn empty_snapshot_listing_is_no_snapshots() {
    let v = snapshot_list_outcome(EngineOutcome::Success, "").unwrap();
    assert!(v.is_empty());
}

#[test]
fn snapshot_list_outcome_extracts_names_in_order() {
    let v = snapshot_list_outcome(
        EngineOutcome::Success,
        "d/p@backup-1\nd/p@backup-2\nd/p@backup-3\n",
    )
    .unwrap();
    assert_eq!(v, vec!["backup-1", "backup-2", "backup-3"]);
    assert_eq!(
        snapshot_list_outcome(EngineOutcome::Success, "nodelimiter\n"),
        Err(ZfsError::UnexpectedOutput)
    );
    assert_eq!(
        snapshot_list_outcome(EngineOutcome::Success, "two@at@signs\n"),
        Err(ZfsError::UnexpectedOutput)
    );
    assert_eq!(
        snapshot_list_outcome(EngineOutcome::Failure(EngineErrorKind::NotFound), ""),
        Err(ZfsError::Engine(EngineErrorKind::NotFound))
    );
}
