use zstress::validate_dataset_name;
use zstress::validate_snapshot_name;
use zstress::final_snapshot_name;
use zstress::seed_dataset_name;
use zstress::plant_dataset_name;
use zstress::cycle_snapshot_name;
use zstress::render::dec_string;
use zstress::render::hex4_string;
use zstress::render::hex16_string;
use zstress::render::id4_string;

#[test]
fn dataset_names_reject_delimiter() {
    assert!(validate_dataset_name("dynamite/plant/0001"));
    assert!(validate_dataset_name("dynamite"));
    assert!(!validate_dataset_name("dynamite@final"));
    assert!(!validate_dataset_name("@"));
    assert!(validate_dataset_name(""));
}

#[test]
fn snapshot_names_reject_delimiter_and_separator() {
    assert!(validate_snapshot_name("final"));
    assert!(validate_snapshot_name("backup-1234"));
    assert!(!validate_snapshot_name("a@b"));
    assert!(!validate_snapshot_name("a/b"));
    assert!(!validate_snapshot_name("/"));
}

#[test]
fn sentinel_snapshot_name() {
    assert_eq!(final_snapshot_name(), "final");
}

#[test]
fn seed_and_plant_dataset_names() {
    assert_eq!(seed_dataset_name("dynamite", 1), "dynamite/seed/0001");
    assert_eq!(seed_dataset_name("dynamite", 0), "dynamite/seed/0000");
    assert_eq!(seed_dataset_name("tank", 9999), "tank/seed/9999");
    assert_eq!(plant_dataset_name("dynamite", 42), "dynamite/plant/0042");
    assert_eq!(plant_dataset_name("dynamite", 60), "dynamite/plant/0060");
}

#[test]
fn cycle_snapshot_names_share_the_seconds() {
    assert_eq!(cycle_snapshot_name(0), "backup-0");
    assert_eq!(cycle_snapshot_name(1234567890), "backup-1234567890");
    assert!(validate_snapshot_name(&cycle_snapshot_name(u64::MAX)));
}

#[test]
fn fixed_width_renderings() {
    assert_eq!(id4_string(7), "0007");
    assert_eq!(id4_string(9999), "9999");
    assert_eq!(hex4_string(0), "0000");
    assert_eq!(hex4_string(10), "000A");
    assert_eq!(hex4_string(15), "000F");
    assert_eq!(hex16_string(0xDEADBEEF), "00000000DEADBEEF");
    assert_eq!(hex16_string(0), "0000000000000000");
    assert_eq!(hex16_string(u64::MAX), "FFFFFFFFFFFFFFFF");
    assert_eq!(dec_string(0), "0");
    assert_eq!(dec_string(10), "10");
    assert_eq!(dec_string(18446744073709551615), "18446744073709551615");
}
