use zstress::MAXSNAPS;
use zstress::retention_step;
use zstress::retention_trim;
use zstress::transfer_pair;
use zstress::seed_setup_plan;
use zstress::SeedStep;

fn snaps(names: &[&str]) -> Vec<String> {
    names.iter().map(|s| s.to_string()).collect()
}

#[test]
fn retention_trims_to_below_the_bound() {
    let (destroyed, kept) = retention_trim(snaps(&["s1", "s2", "s3", "s4", "s5", "s6"]), MAXSNAPS);
    assert_eq!(destroyed, vec!["s1", "s2"]);
    assert_eq!(kept, vec!["s3", "s4", "s5", "s6"]);
    assert!(kept.len() < MAXSNAPS);
}

#[test]
fn retention_removes_only_what_is_needed() {
    let (destroyed, kept) = retention_trim(snaps(&["s1", "s2", "s3", "s4", "s5"]), MAXSNAPS);
    assert_eq!(destroyed, vec!["s1"]);
    assert_eq!(kept, vec!["s2", "s3", "s4", "s5"]);
}

#[test]
fn retention_leaves_short_lists_alone() {
    let (destroyed, kept) = retention_trim(snaps(&["s1", "s2", "s3", "s4"]), MAXSNAPS);
    assert!(destroyed.is_empty());
    assert_eq!(kept, vec!["s1", "s2", "s3", "s4"]);
    let (destroyed, kept) = retention_trim(snaps(&[]), MAXSNAPS);
    assert!(destroyed.is_empty());
    assert!(kept.is_empty());
}

#[test]
fn retention_step_names_the_oldest() {
    assert_eq!(retention_step(&snaps(&["a", "b", "c", "d"]), MAXSNAPS), None);
    assert_eq!(
        retention_step(&snaps(&["a", "b", "c", "d", "e"]), MAXSNAPS),
        Some("a".to_string())
    );
    assert_eq!(retention_step(&snaps(&[]), MAXSNAPS), None);
}

#[test]
fn transfer_needs_two_snapshots() {
    assert_eq!(transfer_pair(&snaps(&[])), None);
    assert_eq!(transfer_pair(&snaps(&["only"])), None);
    assert_eq!(
        transfer_pair(&snaps(&["old", "new"])),
        Some(("old".to_string(), "new".to_string()))
    );
    assert_eq!(
        transfer_pair(&snaps(&["s1", "s2", "s3", "s4"])),
        Some(("s3".to_string(), "s4".to_string()))
    );
}

#[test]
fn setup_is_idempotent_when_sentinel_exists() {
    let plan = seed_setup_plan(true);
    assert!(plan.is_empty());
}

#[test]
fn setup_regenerates_fully_when_sentinel_is_missing() {
    let plan = seed_setup_plan(false);
    assert_eq!(
        plan,
        vec![
            SeedStep::DestroyDataset,
            SeedStep::CreateDataset,
            SeedStep::GenerateCorpus,
            SeedStep::TakeFinalSnapshot,
        ]
    );
}
