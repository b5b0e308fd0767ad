//! Seed and plant setup decisions.
//!
//! A seed is set up exactly once: the sentinel snapshot `final` marks a
//! completed setup.  When the sentinel is present, setup performs no
//! destructive or generative step at all; when it is absent — a fresh
//! dataset or an interrupted earlier run — the dataset is destroyed and
//! fully regenerated, never partially repaired.  A plant is a writable
//! clone of a seed's sentinel snapshot, always recreated from a clean
//! slate.

use vstd::prelude::*;
use crate::names::child_dataset_name;
use crate::names::has_char;
use crate::names::lemma_has_char_concat;
use crate::names::plant_root_name;
use crate::names::seed_root_name;
use crate::names::valid_dataset_name;
use crate::names::valid_snapshot_name;
use crate::render::id4_chars;
use crate::render::id4_string;
use crate::render::is_dec_char;

verus! {

/// The sentinel snapshot that marks a completed seed setup.
pub fn final_snapshot_name() -> (r: &'static str)
    ensures
        r@ == seq!['f', 'i', 'n', 'a', 'l'],
        valid_snapshot_name(r@),
{
    proof {
        reveal_strlit("final");
        assert(!"final"@.contains('@'));
        assert(!"final"@.contains('/'));
    }
    "final"
}

/// One step of a seed setup, in the order the steps run.
#[derive(Clone, Copy, PartialEq, Eq, Structural, Debug)]
pub enum SeedStep {
    /// Recursively destroy the seed dataset, clearing any partial state.
    DestroyDataset,
    /// Create the seed dataset afresh.
    CreateDataset,
    /// Populate the dataset's mountpoint with the randomized corpus.
    GenerateCorpus,
    /// Take the sentinel snapshot that marks the setup complete.
    TakeFinalSnapshot,
}

/// The steps a seed setup performs, given whether the sentinel snapshot
/// already exists.  A seed whose sentinel is present is already set up:
/// nothing is destroyed and nothing is generated.  One whose sentinel is
/// absent is destroyed and fully regenerated, ending with the sentinel.
pub fn seed_setup_plan(final_exists: bool) -> (plan: Vec<SeedStep>)
    ensures
        final_exists ==> plan@.len() == 0,
        !final_exists ==> plan@ == seq![
            SeedStep::DestroyDataset,
            SeedStep::CreateDataset,
            SeedStep::GenerateCorpus,
            SeedStep::TakeFinalSnapshot,
        ],
{
    let mut plan: Vec<SeedStep> = Vec::new();
    if !final_exists {
        plan.push(SeedStep::DestroyDataset);
        plan.push(SeedStep::CreateDataset);
        plan.push(SeedStep::GenerateCorpus);
        plan.push(SeedStep::TakeFinalSnapshot);
        proof {
            assert(plan@ =~= seq![
                SeedStep::DestroyDataset,
                SeedStep::CreateDataset,
                SeedStep::GenerateCorpus,
                SeedStep::TakeFinalSnapshot,
            ]);
        }
    }
    plan
}

/// The name of seed `id` under `pool`: `pool/seed/<four digits>`.  The
/// suffix holds no `@`, so the name is valid exactly when the pool's is.
pub fn seed_dataset_name(pool: &str, id: u64) -> (r: String)
    requires
        id < 10000,
    ensures
        r@ == pool@ + seq!['/', 's', 'e', 'e', 'd', '/'] + id4_chars(id as int),
        valid_dataset_name(r@) == valid_dataset_name(pool@),
{
    let root = seed_root_name(pool);
    let id4 = id4_string(id);
    let r = child_dataset_name(root.as_str(), id4.as_str());
    proof {
        assert(r@ =~= pool@ + seq!['/', 's', 'e', 'e', 'd', '/'] + id4_chars(id as int));
        lemma_suffixed_name_validity(pool@, seq!['/', 's', 'e', 'e', 'd', '/'], id4_chars(id as int));
    }
    r
}

/// The name of plant `id` under `pool`: `pool/plant/<four digits>`.  The
/// suffix holds no `@`, so the name is valid exactly when the pool's is.
pub fn plant_dataset_name(pool: &str, id: u64) -> (r: String)
    requires
        id < 10000,
    ensures
        r@ == pool@ + seq!['/', 'p', 'l', 'a', 'n', 't', '/'] + id4_chars(id as int),
        valid_dataset_name(r@) == valid_dataset_name(pool@),
{
    let root = plant_root_name(pool);
    let id4 = id4_string(id);
    let r = child_dataset_name(root.as_str(), id4.as_str());
    proof {
        assert(r@ =~= pool@ + seq!['/', 'p', 'l', 'a', 'n', 't', '/'] + id4_chars(id as int));
        lemma_suffixed_name_validity(
            pool@,
            seq!['/', 'p', 'l', 'a', 'n', 't', '/'],
            id4_chars(id as int),
        );
    }
    r
}

/// A dataset name extended by an `@`-free separator and four digits is
/// valid exactly when the base name is.
proof fn lemma_suffixed_name_validity(pool: Seq<char>, sep: Seq<char>, digits: Seq<char>)
    requires
        !has_char(sep, '@'),
        forall|i: int| 0 <= i < digits.len() ==> is_dec_char(digits[i]),
    ensures
        valid_dataset_name(pool + sep + digits) == valid_dataset_name(pool),
{
    assert(!has_char(digits, '@')) by {
        if has_char(digits, '@') {
            let i = choose|i: int| 0 <= i < digits.len() && digits[i] == '@';
            assert(is_dec_char(digits[i]));
        }
    }
    lemma_has_char_concat(pool, sep, '@');
    lemma_has_char_concat(pool + sep, digits, '@');
}

/// A seed dataset: its id and its full dataset name.
pub struct Seed {
    pub id: u64,
    pub dataset: String,
}

impl Seed {
    /// The dataset name the seed lives at.
    pub fn dataset(&self) -> (r: &str)
        ensures
            r@ == self.dataset@,
    {
        self.dataset.as_str()
    }
}

/// A plant: a writable clone of a seed, with the mountpoint the engine
/// reported for it.
pub struct Plant {
    pub id: u64,
    pub parent: String,
    pub dataset: String,
    pub mountpoint: String,
}

impl Plant {
    /// The dataset name the plant lives at.
    pub fn dataset(&self) -> (r: &str)
        ensures
            r@ == self.dataset@,
    {
        self.dataset.as_str()
    }
}

} // verus!
