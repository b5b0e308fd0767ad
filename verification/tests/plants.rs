use zstress::Plant;
use zstress::Seed;

#[test]
fn seed_reports_its_dataset() {
    let seed = Seed {
        id: 3,
        dataset: "dynamite/seed/0003".to_string(),
    };
    assert_eq!(seed.dataset(), "dynamite/seed/0003");
}

#[test]
fn plant_reports_its_dataset() {
    let plant = Plant {
        id: 12,
        parent: "dynamite/seed/0003".to_string(),
        dataset: "dynamite/plant/0012".to_string(),
        mountpoint: "/plants/0012".to_string(),
    };
    assert_eq!(plant.dataset(), "dynamite/plant/0012");
}
