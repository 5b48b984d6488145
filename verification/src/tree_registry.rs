//! The tree registry: every sponsored tree with its species, region, planter
//! and status; the verifiers who approve or reject plantings; the planters'
//! scores; the milestone CO2 credits of each tree; and the catalogue of
//! species.
//!
//! The registry answers questions by species, region and status. Those
//! answers are defined below over the list of trees in minting order, which
//! is how the contract's indexes grow: each mint appends the new id to the
//! index entries of its species, its sponsor, its species and region, and its
//! species with the status `Planted`.
use vstd::prelude::*;
use vstd::hash_map::{HashMapWithView, StringHashMap};
use crate::common::{Address, HarvestaError, contains_address};

verus! {

/// Seconds in a year of milestones.
pub const ONE_YEAR_SECS: u64 = 31_536_000;

/// Kilograms of CO2 credited per year of a tree's life.
pub const CO2_KG_PER_YEAR: i128 = 48;

/// The registry's own errors, with the codes under which the host reports them.
#[derive(Clone, Copy, Debug, PartialEq, Eq, Structural)]
pub enum TreeRegistryError {
    NotFound,
    InvalidStatus,
    NotAuthorized,
    SpeciesNotFound,
    SpeciesAlreadyExists,
    InvalidSpeciesName,
}

/// The numeric code of a registry error.
pub open spec fn registry_error_code(e: TreeRegistryError) -> u32 {
    match e {
        TreeRegistryError::NotFound => 85,
        TreeRegistryError::InvalidStatus => 86,
        TreeRegistryError::NotAuthorized => 87,
        TreeRegistryError::SpeciesNotFound => 88,
        TreeRegistryError::SpeciesAlreadyExists => 89,
        TreeRegistryError::InvalidSpeciesName => 90,
    }
}

impl TreeRegistryError {
    /// The code under which the host reports this error.
    pub fn code(&self) -> (r: u32)
        ensures
            r == registry_error_code(*self),
    {
        match self {
            TreeRegistryError::NotFound => 85,
            TreeRegistryError::InvalidStatus => 86,
            TreeRegistryError::NotAuthorized => 87,
            TreeRegistryError::SpeciesNotFound => 88,
            TreeRegistryError::SpeciesAlreadyExists => 89,
            TreeRegistryError::InvalidSpeciesName => 90,
        }
    }
}

/// Why a registry call fails: one of the shared errors, or one of the
/// registry's own.
#[derive(Clone, Copy, Debug, PartialEq, Eq, Structural)]
pub enum RegistryFailure {
    Shared(HarvestaError),
    Registry(TreeRegistryError),
}

/// Where a tree is in its life.
#[derive(Clone, Copy, Debug, PartialEq, Eq, Structural)]
pub enum TreeStatus {
    Planted,
    Verified,
    Matured,
    Rejected,
}

/// One sponsored tree.
#[derive(Debug)]
pub struct TreeRecord {
    pub id: u64,
    pub species: String,
    pub sponsor: Address,
    pub planter: Address,
    pub region: String,
    /// Ledger time of the mint, in seconds.
    pub planted_at: u64,
    pub status: TreeStatus,
    /// Hash of the verifier's notes, set when the planting is verified.
    pub notes_hash: Option<String>,
    /// Claimed milestones: bit 0 for one year, bit 1 for five, bit 2 for ten.
    pub milestone_claims: u32,
}

/// A copy of an optional text.
fn copy_text(t: &Option<String>) -> (r: Option<String>)
    ensures
        r == *t,
{
    match t {
        Some(s) => Some(s.clone()),
        None => None,
    }
}

impl Clone for TreeRecord {
    fn clone(&self) -> (r: Self)
        ensures
            r == *self,
    {
        TreeRecord {
            id: self.id,
            species: self.species.clone(),
            sponsor: self.sponsor,
            planter: self.planter,
            region: self.region.clone(),
            planted_at: self.planted_at,
            status: self.status,
            notes_hash: copy_text(&self.notes_hash),
            milestone_claims: self.milestone_claims,
        }
    }
}

/// What the registry knows of a species.
#[derive(Clone, Copy, Debug, PartialEq, Eq, Structural)]
pub struct SpeciesInfo {
    /// CO2 absorbed, scaled.
    pub co2_scaled: i128,
    pub maturity_years: u32,
    /// Ledger time of the last registration or update.
    pub updated_at: u64,
}

/// What the host does after an operation succeeds, in order: the call into
/// the escrow contract, and announcements.
#[derive(Debug, PartialEq)]
pub enum RegistryAction {
    /// The escrow contract releases the tree's funds to its planter.
    ReleaseEscrow { escrow: Address, tree_id: u64 },
    TreeMinted { tree_id: u64, sponsor: Address, species: String, region: String, planter: Address },
    VerifierAdded { verifier: Address },
    VerifierRemoved { verifier: Address },
    TreeVerified { tree_id: u64, verifier: Address, notes_hash: Option<String> },
    TreeRejected { tree_id: u64, verifier: Address, notes_hash: Option<String> },
    MilestoneClaimed { tree_id: u64, sponsor: Address, milestone_years: u64, amount: i128 },
    SpeciesRegistered { slug: String, co2_scaled: i128, maturity_years: u32 },
    SpeciesUpdated { slug: String, co2_scaled: i128, maturity_years: u32 },
    SpeciesUnregistered { slug: String },
    Paused { at: u64 },
    Unpaused { at: u64 },
}

/// The registry's storage, as the specifications see it.
pub struct RegistryState {
    pub admin: Option<Address>,
    pub escrow: Option<Address>,
    pub paused: bool,
    pub verifiers: Seq<Address>,
    /// The trees in minting order; a tree's id is its position.
    pub trees: Seq<TreeRecord>,
    /// Each planter's score, by the planter's address number.
    pub scores: Map<u64, u64>,
    /// The species catalogue, by slug.
    pub species: Map<Seq<char>, SpeciesInfo>,
}

/// The tree registry contract's storage.
pub struct TreeRegistry {
    admin: Option<Address>,
    escrow: Option<Address>,
    paused: bool,
    verifiers: Vec<Address>,
    trees: Vec<TreeRecord>,
    scores: HashMapWithView<u64, u64>,
    species: StringHashMap<SpeciesInfo>,
}

impl View for TreeRegistry {
    type V = RegistryState;

    closed spec fn view(&self) -> RegistryState {
        RegistryState {
            admin: self.admin,
            escrow: self.escrow,
            paused: self.paused,
            verifiers: self.verifiers@,
            trees: self.trees@,
            scores: self.scores@,
            species: self.species@,
        }
    }
}

// ---- the answers of the indexes ----

/// The ids of the trees that `keep` selects, in minting order.
pub open spec fn ids_where(trees: Seq<TreeRecord>, keep: spec_fn(TreeRecord) -> bool) -> Seq<u64>
    decreases trees.len(),
{
    if trees.len() == 0 {
        seq![]
    } else {
        let prev = ids_where(trees.drop_last(), keep);
        if keep(trees.last()) {
            prev.push((trees.len() - 1) as u64)
        } else {
            prev
        }
    }
}

/// The trees that `keep` selects, in minting order.
pub open spec fn trees_where(trees: Seq<TreeRecord>, keep: spec_fn(TreeRecord) -> bool) -> Seq<TreeRecord>
    decreases trees.len(),
{
    if trees.len() == 0 {
        seq![]
    } else {
        let prev = trees_where(trees.drop_last(), keep);
        if keep(trees.last()) {
            prev.push(trees.last())
        } else {
            prev
        }
    }
}

/// Whether some text of `list` reads `t`.
pub open spec fn text_in(list: Seq<String>, t: Seq<char>) -> bool {
    exists|j: int| 0 <= j < list.len() && #[trigger] list[j]@ == t
}

/// The species of the trees that `keep` selects, each once, in the order in
/// which they first appear.
pub open spec fn species_where(trees: Seq<TreeRecord>, keep: spec_fn(TreeRecord) -> bool) -> Seq<String>
    decreases trees.len(),
{
    if trees.len() == 0 {
        seq![]
    } else {
        let prev = species_where(trees.drop_last(), keep);
        let t = trees.last();
        if keep(t) && !text_in(prev, t.species@) {
            prev.push(t.species)
        } else {
            prev
        }
    }
}

pub open spec fn every_tree() -> spec_fn(TreeRecord) -> bool {
    |t: TreeRecord| true
}

pub open spec fn of_species(species: Seq<char>) -> spec_fn(TreeRecord) -> bool {
    |t: TreeRecord| t.species@ == species
}

pub open spec fn of_region(region: Seq<char>) -> spec_fn(TreeRecord) -> bool {
    |t: TreeRecord| t.region@ == region
}

pub open spec fn of_species_in_region(species: Seq<char>, region: Seq<char>) -> spec_fn(TreeRecord) -> bool {
    |t: TreeRecord| t.species@ == species && t.region@ == region
}

pub open spec fn of_sponsor(sponsor: Address) -> spec_fn(TreeRecord) -> bool {
    |t: TreeRecord| t.sponsor == sponsor
}

/// The ids of the trees of a species.
pub open spec fn species_ids(s: RegistryState, species: Seq<char>) -> Seq<u64> {
    ids_where(s.trees, of_species(species))
}

/// The index by species and status holds the trees of the species under the
/// status they were minted with, `Planted`, and nothing under another status.
pub open spec fn species_status_ids(s: RegistryState, species: Seq<char>, status: TreeStatus) -> Seq<u64> {
    if status == TreeStatus::Planted {
        species_ids(s, species)
    } else {
        seq![]
    }
}

/// A planter's score: the plantings of theirs that a verifier approved.
pub open spec fn score_of(s: RegistryState, planter: Address) -> u64 {
    if s.scores.contains_key(planter.0) {
        s.scores[planter.0]
    } else {
        0
    }
}

/// What `get_tree` answers.
pub open spec fn tree_of(s: RegistryState, id: u64) -> Option<TreeRecord> {
    if id < s.trees.len() {
        Some(s.trees[id as int])
    } else {
        None
    }
}

/// The trees of a planter that count towards the planter's score: verified,
/// or matured after a verification.
pub open spec fn credited_to(planter: Address) -> spec_fn(TreeRecord) -> bool {
    |t: TreeRecord| t.planter == planter && (t.status == TreeStatus::Verified || t.status == TreeStatus::Matured)
}

/// The registry's well-formedness: a tree's id is its position, its claimed
/// milestones are among the three bits, a matured tree has claimed all three,
/// nothing is stored before the admin is set, and a planter's score is at
/// most the number of their verified or matured trees.
pub open spec fn registry_wf(s: RegistryState) -> bool {
    &&& s.trees.len() <= u64::MAX
    &&& forall|i: int| 0 <= i < s.trees.len() ==> (#[trigger] s.trees[i]).id == i
    &&& forall|i: int| 0 <= i < s.trees.len() ==> (#[trigger] s.trees[i]).milestone_claims < 8
    &&& forall|i: int|
        0 <= i < s.trees.len() && (#[trigger] s.trees[i]).status == TreeStatus::Matured
            ==> s.trees[i].milestone_claims == 7
    &&& s.admin is None ==> {
        &&& s.escrow is None
        &&& !s.paused
        &&& s.verifiers.len() == 0
        &&& s.trees.len() == 0
        &&& s.scores.dom().is_empty()
        &&& s.species.dom().is_empty()
    }
    &&& s.admin is Some <==> s.escrow is Some
    &&& forall|a: u64| #[trigger] s.scores.contains_key(a)
        ==> s.scores[a] <= ids_where(s.trees, credited_to(Address(a))).len()
}

/// The registry with no storage.
pub open spec fn empty_registry() -> RegistryState {
    RegistryState {
        admin: None,
        escrow: None,
        paused: false,
        verifiers: seq![],
        trees: seq![],
        scores: Map::empty(),
        species: Map::empty(),
    }
}

// ---- guards ----

pub open spec fn shared(e: HarvestaError) -> RegistryFailure {
    RegistryFailure::Shared(e)
}

pub open spec fn own(e: TreeRegistryError) -> RegistryFailure {
    RegistryFailure::Registry(e)
}

pub open spec fn not_paused_result(s: RegistryState) -> Result<(), RegistryFailure> {
    if s.paused {
        Err(shared(HarvestaError::ContractPaused))
    } else {
        Ok(())
    }
}

pub open spec fn admin_result(s: RegistryState) -> Result<Address, RegistryFailure> {
    match s.admin {
        Some(a) => Ok(a),
        None => Err(shared(HarvestaError::NotInitialized)),
    }
}

/// The admin check of an admin-only call.
pub open spec fn admin_gate(s: RegistryState) -> Result<(), RegistryFailure> {
    match s.admin {
        Some(_) => Ok(()),
        None => Err(shared(HarvestaError::NotInitialized)),
    }
}

pub open spec fn escrow_result(s: RegistryState) -> Result<Address, RegistryFailure> {
    match s.escrow {
        Some(e) => Ok(e),
        None => Err(shared(HarvestaError::NotInitialized)),
    }
}

pub open spec fn verifier_check(s: RegistryState, verifier: Address) -> Result<(), RegistryFailure> {
    if s.verifiers.contains(verifier) {
        Ok(())
    } else {
        Err(own(TreeRegistryError::NotAuthorized))
    }
}

/// `s` with the admin's change `t` when the admin is set, and unchanged otherwise.
pub open spec fn if_admin(s: RegistryState, t: RegistryState) -> RegistryState {
    if s.admin is Some { t } else { s }
}

// ---- initialize ----

pub open spec fn initialize_result(s: RegistryState) -> Result<(), RegistryFailure> {
    if s.admin is Some {
        Err(shared(HarvestaError::AlreadyInitialized))
    } else {
        Ok(())
    }
}

pub open spec fn initialize_state(s: RegistryState, admin: Address, escrow: Address) -> RegistryState {
    if s.admin is Some {
        s
    } else {
        RegistryState {
            admin: Some(admin),
            escrow: Some(escrow),
            paused: false,
            verifiers: seq![],
            ..s
        }
    }
}

// ---- mint_tree ----

pub open spec fn mint_result(s: RegistryState) -> Result<u64, RegistryFailure> {
    match not_paused_result(s) {
        Err(e) => Err(e),
        Ok(_) => match escrow_result(s) {
            Err(e) => Err(e),
            Ok(_) => Ok(s.trees.len() as u64),
        },
    }
}

/// The record of a newly minted tree.
pub open spec fn minted_record(
    id: u64,
    sponsor: Address,
    species: String,
    region: String,
    planter: Address,
    now: u64,
) -> TreeRecord {
    TreeRecord {
        id,
        species,
        sponsor,
        planter,
        region,
        planted_at: now,
        status: TreeStatus::Planted,
        notes_hash: None,
        milestone_claims: 0,
    }
}

pub open spec fn mint_state(
    s: RegistryState,
    sponsor: Address,
    species: String,
    region: String,
    planter: Address,
    now: u64,
) -> RegistryState {
    if mint_result(s) is Ok {
        RegistryState {
            trees: s.trees.push(minted_record(s.trees.len() as u64, sponsor, species, region, planter, now)),
            ..s
        }
    } else {
        s
    }
}

pub open spec fn mint_actions(
    s: RegistryState,
    sponsor: Address,
    species: String,
    region: String,
    planter: Address,
) -> Seq<RegistryAction> {
    if mint_result(s) is Ok {
        seq![RegistryAction::TreeMinted { tree_id: s.trees.len() as u64, sponsor, species, region, planter }]
    } else {
        seq![]
    }
}

// ---- verifiers ----

/// `list` without any occurrence of `v`.
pub open spec fn without(list: Seq<Address>, v: Address) -> Seq<Address>
    decreases list.len(),
{
    if list.len() == 0 {
        seq![]
    } else {
        let prev = without(list.drop_last(), v);
        if list.last() == v {
            prev
        } else {
            prev.push(list.last())
        }
    }
}

/// Only a verifier that was not listed yet is announced.
pub open spec fn add_verifier_actions(s: RegistryState, verifier: Address) -> Seq<RegistryAction> {
    if s.admin is Some && !s.verifiers.contains(verifier) {
        seq![RegistryAction::VerifierAdded { verifier }]
    } else {
        seq![]
    }
}

pub open spec fn remove_verifier_actions(s: RegistryState, verifier: Address) -> Seq<RegistryAction> {
    if s.admin is Some {
        seq![RegistryAction::VerifierRemoved { verifier }]
    } else {
        seq![]
    }
}

pub open spec fn add_verifier_state(s: RegistryState, verifier: Address) -> RegistryState {
    if s.admin is Some && !s.verifiers.contains(verifier) {
        RegistryState { verifiers: s.verifiers.push(verifier), ..s }
    } else {
        s
    }
}

pub open spec fn remove_verifier_state(s: RegistryState, verifier: Address) -> RegistryState {
    if_admin(s, RegistryState { verifiers: without(s.verifiers, verifier), ..s })
}

// ---- verify_tree ----

/// The checks of a verification: not paused, a listed verifier, a tree that
/// exists and is still only planted.
pub open spec fn verify_checks(s: RegistryState, verifier: Address, tree_id: u64) -> Result<(), RegistryFailure> {
    if s.paused {
        Err(shared(HarvestaError::ContractPaused))
    } else if !s.verifiers.contains(verifier) {
        Err(own(TreeRegistryError::NotAuthorized))
    } else if tree_id >= s.trees.len() {
        Err(own(TreeRegistryError::NotFound))
    } else if s.trees[tree_id as int].status != TreeStatus::Planted {
        Err(own(TreeRegistryError::InvalidStatus))
    } else {
        Ok(())
    }
}

/// An approval asks the escrow contract to release the tree's funds and is
/// announced; a rejection is announced.
pub open spec fn verify_actions(
    s: RegistryState,
    verifier: Address,
    tree_id: u64,
    approved: bool,
    notes_hash: Option<String>,
) -> Seq<RegistryAction> {
    if verify_checks(s, verifier, tree_id) is Ok {
        if approved {
            seq![
                RegistryAction::ReleaseEscrow { escrow: s.escrow->0, tree_id },
                RegistryAction::TreeVerified { tree_id, verifier, notes_hash },
            ]
        } else {
            seq![RegistryAction::TreeRejected { tree_id, verifier, notes_hash }]
        }
    } else {
        seq![]
    }
}

pub open spec fn verified_record(t: TreeRecord, approved: bool, notes_hash: Option<String>) -> TreeRecord {
    TreeRecord {
        status: if approved { TreeStatus::Verified } else { TreeStatus::Rejected },
        notes_hash,
        ..t
    }
}

pub open spec fn verify_state(
    s: RegistryState,
    verifier: Address,
    tree_id: u64,
    approved: bool,
    notes_hash: Option<String>,
) -> RegistryState {
    if verify_checks(s, verifier, tree_id) is Ok {
        let t = s.trees[tree_id as int];
        RegistryState {
            trees: s.trees.update(tree_id as int, verified_record(t, approved, notes_hash)),
            scores: if approved {
                s.scores.insert(t.planter.0, (score_of(s, t.planter) + 1) as u64)
            } else {
                s.scores
            },
            ..s
        }
    } else {
        s
    }
}

// ---- claim_milestone ----

/// The bit that records a milestone, for the milestones of one, five and ten years.
pub open spec fn milestone_bit(years: u64) -> Option<u32> {
    if years == 1 {
        Some(1)
    } else if years == 5 {
        Some(2)
    } else if years == 10 {
        Some(4)
    } else {
        None
    }
}

/// The CO2 credits of a milestone of `years` years.
pub open spec fn co2_credits(years: u64) -> i128 {
    (CO2_KG_PER_YEAR * years) as i128
}

/// The checks of a milestone claim that come before its date: not paused, an
/// existing tree of this sponsor that was not rejected, a known milestone
/// that was not claimed yet. On success, the milestone's bit.
pub open spec fn claim_checks(s: RegistryState, sponsor: Address, tree_id: u64, years: u64) -> Result<u32, RegistryFailure> {
    if s.paused {
        Err(shared(HarvestaError::ContractPaused))
    } else if tree_id >= s.trees.len() {
        Err(own(TreeRegistryError::NotFound))
    } else if s.trees[tree_id as int].sponsor != sponsor {
        Err(own(TreeRegistryError::NotAuthorized))
    } else if s.trees[tree_id as int].status == TreeStatus::Rejected {
        Err(own(TreeRegistryError::InvalidStatus))
    } else {
        match milestone_bit(years) {
            None => Err(own(TreeRegistryError::InvalidStatus)),
            Some(flag) => if s.trees[tree_id as int].milestone_claims & flag != 0 {
                Err(own(TreeRegistryError::InvalidStatus))
            } else {
                Ok(flag)
            },
        }
    }
}

/// The time from which a milestone may be claimed.
pub open spec fn milestone_due(t: TreeRecord, years: u64) -> int {
    t.planted_at + years * ONE_YEAR_SECS
}

pub open spec fn claim_result(s: RegistryState, sponsor: Address, tree_id: u64, years: u64, now: u64) -> Result<i128, RegistryFailure> {
    match claim_checks(s, sponsor, tree_id, years) {
        Err(e) => Err(e),
        Ok(_) => if now < milestone_due(s.trees[tree_id as int], years) {
            Err(own(TreeRegistryError::InvalidStatus))
        } else {
            Ok(co2_credits(years))
        },
    }
}

pub open spec fn claim_actions(s: RegistryState, sponsor: Address, tree_id: u64, years: u64, now: u64) -> Seq<RegistryAction> {
    if claim_result(s, sponsor, tree_id, years, now) is Ok {
        seq![RegistryAction::MilestoneClaimed { tree_id, sponsor, milestone_years: years, amount: co2_credits(years) }]
    } else {
        seq![]
    }
}

pub open spec fn claimed_record(t: TreeRecord, flag: u32) -> TreeRecord {
    let claims = t.milestone_claims | flag;
    TreeRecord {
        milestone_claims: claims,
        status: if claims == 7 { TreeStatus::Matured } else { t.status },
        ..t
    }
}

pub open spec fn claim_state(s: RegistryState, sponsor: Address, tree_id: u64, years: u64, now: u64) -> RegistryState {
    if claim_result(s, sponsor, tree_id, years, now) is Ok {
        RegistryState {
            trees: s.trees.update(
                tree_id as int,
                claimed_record(s.trees[tree_id as int], claim_checks(s, sponsor, tree_id, years)->Ok_0),
            ),
            ..s
        }
    } else {
        s
    }
}

// ---- species catalogue ----

pub open spec fn species_fields_check(s: RegistryState, co2_scaled: i128, maturity_years: u32) -> Result<(), RegistryFailure> {
    if s.admin is None {
        Err(shared(HarvestaError::NotInitialized))
    } else if co2_scaled <= 0 {
        Err(shared(HarvestaError::Co2MustBePositive))
    } else if maturity_years == 0 {
        Err(shared(HarvestaError::MaturityYearsMustBePositive))
    } else {
        Ok(())
    }
}

pub open spec fn register_species_result(s: RegistryState, slug: Seq<char>, co2_scaled: i128, maturity_years: u32) -> Result<(), RegistryFailure> {
    match species_fields_check(s, co2_scaled, maturity_years) {
        Err(e) => Err(e),
        Ok(_) => if s.species.contains_key(slug) {
            Err(own(TreeRegistryError::SpeciesAlreadyExists))
        } else {
            Ok(())
        },
    }
}

pub open spec fn update_species_result(s: RegistryState, slug: Seq<char>, co2_scaled: i128, maturity_years: u32) -> Result<(), RegistryFailure> {
    match species_fields_check(s, co2_scaled, maturity_years) {
        Err(e) => Err(e),
        Ok(_) => if !s.species.contains_key(slug) {
            Err(own(TreeRegistryError::SpeciesNotFound))
        } else {
            Ok(())
        },
    }
}

/// `s` with the species `slug` recorded as given.
pub open spec fn with_species(s: RegistryState, slug: Seq<char>, co2_scaled: i128, maturity_years: u32, now: u64) -> RegistryState {
    RegistryState {
        species: s.species.insert(slug, SpeciesInfo { co2_scaled, maturity_years, updated_at: now }),
        ..s
    }
}

pub open spec fn register_species_state(s: RegistryState, slug: Seq<char>, co2_scaled: i128, maturity_years: u32, now: u64) -> RegistryState {
    if register_species_result(s, slug, co2_scaled, maturity_years) is Ok {
        with_species(s, slug, co2_scaled, maturity_years, now)
    } else {
        s
    }
}

pub open spec fn update_species_state(s: RegistryState, slug: Seq<char>, co2_scaled: i128, maturity_years: u32, now: u64) -> RegistryState {
    if update_species_result(s, slug, co2_scaled, maturity_years) is Ok {
        with_species(s, slug, co2_scaled, maturity_years, now)
    } else {
        s
    }
}

pub open spec fn register_species_actions(s: RegistryState, slug: String, co2_scaled: i128, maturity_years: u32) -> Seq<RegistryAction> {
    if register_species_result(s, slug@, co2_scaled, maturity_years) is Ok {
        seq![RegistryAction::SpeciesRegistered { slug, co2_scaled, maturity_years }]
    } else {
        seq![]
    }
}

pub open spec fn update_species_actions(s: RegistryState, slug: String, co2_scaled: i128, maturity_years: u32) -> Seq<RegistryAction> {
    if update_species_result(s, slug@, co2_scaled, maturity_years) is Ok {
        seq![RegistryAction::SpeciesUpdated { slug, co2_scaled, maturity_years }]
    } else {
        seq![]
    }
}

pub open spec fn unregister_species_result(s: RegistryState, slug: Seq<char>) -> Result<(), RegistryFailure> {
    match admin_result(s) {
        Err(e) => Err(e),
        Ok(_) => if species_ids(s, slug).len() > 0 {
            Err(own(TreeRegistryError::InvalidStatus))
        } else {
            Ok(())
        },
    }
}

pub open spec fn unregister_species_state(s: RegistryState, slug: Seq<char>) -> RegistryState {
    if unregister_species_result(s, slug) is Ok {
        RegistryState { species: s.species.remove(slug), ..s }
    } else {
        s
    }
}

pub open spec fn unregister_species_actions(s: RegistryState, slug: String) -> Seq<RegistryAction> {
    if unregister_species_result(s, slug@) is Ok {
        seq![RegistryAction::SpeciesUnregistered { slug }]
    } else {
        seq![]
    }
}

pub open spec fn species_info_of(s: RegistryState, slug: Seq<char>) -> Option<SpeciesInfo> {
    if s.species.contains_key(slug) {
        Some(s.species[slug])
    } else {
        None
    }
}

// ---- pause ----

pub open spec fn pause_state(s: RegistryState, paused: bool) -> RegistryState {
    if_admin(s, RegistryState { paused, ..s })
}

/// A pause or an unpause is announced with its time.
pub open spec fn pause_actions(s: RegistryState, paused: bool, now: u64) -> Seq<RegistryAction> {
    if s.admin is Some {
        if paused {
            seq![RegistryAction::Paused { at: now }]
        } else {
            seq![RegistryAction::Unpaused { at: now }]
        }
    } else {
        seq![]
    }
}

// ---- proofs used by the implementation ----

proof fn lemma_ids_where_step(trees: Seq<TreeRecord>, keep: spec_fn(TreeRecord) -> bool, i: int)
    requires
        0 <= i < trees.len(),
    ensures
        ids_where(trees.take(i + 1), keep) == if keep(trees[i]) {
            ids_where(trees.take(i), keep).push(i as u64)
        } else {
            ids_where(trees.take(i), keep)
        },
        trees_where(trees.take(i + 1), keep) == if keep(trees[i]) {
            trees_where(trees.take(i), keep).push(trees[i])
        } else {
            trees_where(trees.take(i), keep)
        },
        species_where(trees.take(i + 1), keep) == if keep(trees[i]) && !text_in(species_where(trees.take(i), keep), trees[i].species@) {
            species_where(trees.take(i), keep).push(trees[i].species)
        } else {
            species_where(trees.take(i), keep)
        },
{
    assert(trees.take(i + 1).drop_last() =~= trees.take(i));
    assert(trees.take(i + 1).last() == trees[i]);
}

proof fn lemma_without_step(list: Seq<Address>, v: Address, i: int)
    requires
        0 <= i < list.len(),
    ensures
        without(list.take(i + 1), v) == if list[i] == v {
            without(list.take(i), v)
        } else {
            without(list.take(i), v).push(list[i])
        },
{
    assert(list.take(i + 1).drop_last() =~= list.take(i));
}


proof fn lemma_count_push(trees: Seq<TreeRecord>, t: TreeRecord, keep: spec_fn(TreeRecord) -> bool)
    ensures
        ids_where(trees.push(t), keep).len() == ids_where(trees, keep).len() + (if keep(t) { 1int } else { 0int }),
{
    assert(trees.push(t).drop_last() =~= trees);
}

proof fn lemma_count_update(trees: Seq<TreeRecord>, k: int, t: TreeRecord, keep: spec_fn(TreeRecord) -> bool)
    requires
        0 <= k < trees.len(),
    ensures
        ids_where(trees.update(k, t), keep).len() == ids_where(trees, keep).len()
            - (if keep(trees[k]) { 1int } else { 0int }) + (if keep(t) { 1int } else { 0int }),
    decreases trees.len(),
{
    let u = trees.update(k, t);
    if k == trees.len() - 1 {
        assert(u.drop_last() =~= trees.drop_last());
    } else {
        assert(u.drop_last() =~= trees.drop_last().update(k, t));
        lemma_count_update(trees.drop_last(), k, t, keep);
        assert(u.last() == trees.last());
        assert(trees.drop_last()[k] == trees[k]);
    }
}

proof fn lemma_count_below(trees: Seq<TreeRecord>, k: int, keep: spec_fn(TreeRecord) -> bool)
    requires
        0 <= k < trees.len(),
        !keep(trees[k]),
    ensures
        ids_where(trees, keep).len() < trees.len(),
    decreases trees.len(),
{
    if k == trees.len() - 1 {
        lemma_ids_where_len(trees.drop_last(), keep);
    } else {
        assert(trees.drop_last()[k] == trees[k]);
        lemma_count_below(trees.drop_last(), k, keep);
    }
}

/// A new tree at the end keeps the scores within their bounds.
proof fn lemma_push_keeps_scores(s: RegistryState, t: TreeRecord)
    requires
        forall|a: u64| #[trigger] s.scores.contains_key(a)
            ==> s.scores[a] <= ids_where(s.trees, credited_to(Address(a))).len(),
    ensures
        forall|a: u64| #[trigger] s.scores.contains_key(a)
            ==> s.scores[a] <= ids_where(s.trees.push(t), credited_to(Address(a))).len(),
{
    assert forall|a: u64| #[trigger] s.scores.contains_key(a)
        implies s.scores[a] <= ids_where(s.trees.push(t), credited_to(Address(a))).len() by {
        lemma_count_push(s.trees, t, credited_to(Address(a)));
    }
}

/// A verification keeps the registry well-formed, and finds the planter's
/// score below the largest number, so that an approval can add one to it.
pub proof fn lemma_verify_wf(s: RegistryState, verifier: Address, tree_id: u64, approved: bool, notes_hash: Option<String>)
    requires
        registry_wf(s),
        verify_checks(s, verifier, tree_id) is Ok,
    ensures
        registry_wf(verify_state(s, verifier, tree_id, approved, notes_hash)),
        score_of(s, s.trees[tree_id as int].planter) < u64::MAX,
{
    let k = tree_id as int;
    let t = s.trees[k];
    let p = t.planter;
    let nt = verified_record(t, approved, notes_hash);
    lemma_count_below(s.trees, k, credited_to(p));
    assert(Address(p.0) == p);
    if s.scores.contains_key(p.0) {
        assert(s.scores[p.0] <= ids_where(s.trees, credited_to(Address(p.0))).len());
    }
    let n = verify_state(s, verifier, tree_id, approved, notes_hash);
    assert forall|a: u64| #[trigger] n.scores.contains_key(a)
        implies n.scores[a] <= ids_where(n.trees, credited_to(Address(a))).len() by {
        lemma_count_update(s.trees, k, nt, credited_to(Address(a)));
        if approved && a == p.0 {
        } else {
            assert(s.scores.contains_key(a));
        }
    }
    assert forall|i: int| 0 <= i < n.trees.len() implies (#[trigger] n.trees[i]).id == i by {
        if i != k {
            assert(n.trees[i] == s.trees[i]);
        }
    }
    assert forall|i: int| 0 <= i < n.trees.len() implies (#[trigger] n.trees[i]).milestone_claims < 8 by {
        if i != k {
            assert(n.trees[i] == s.trees[i]);
        }
    }
    assert forall|i: int|
        0 <= i < n.trees.len() && (#[trigger] n.trees[i]).status == TreeStatus::Matured implies n.trees[i].milestone_claims
        == 7 by {
        if i != k {
            assert(n.trees[i] == s.trees[i]);
        }
    }
}

/// A milestone claim keeps the scores within their bounds: a claim can only
/// add trees that count towards a score.
proof fn lemma_claim_keeps_scores(s: RegistryState, k: int, nt: TreeRecord)
    requires
        0 <= k < s.trees.len(),
        nt.planter == s.trees[k].planter,
        s.trees[k].status == TreeStatus::Verified || s.trees[k].status == TreeStatus::Matured
            ==> nt.status == TreeStatus::Verified || nt.status == TreeStatus::Matured,
        forall|a: u64| #[trigger] s.scores.contains_key(a)
            ==> s.scores[a] <= ids_where(s.trees, credited_to(Address(a))).len(),
    ensures
        forall|a: u64| #[trigger] s.scores.contains_key(a)
            ==> s.scores[a] <= ids_where(s.trees.update(k, nt), credited_to(Address(a))).len(),
{
    assert forall|a: u64| #[trigger] s.scores.contains_key(a)
        implies s.scores[a] <= ids_where(s.trees.update(k, nt), credited_to(Address(a))).len() by {
        lemma_count_update(s.trees, k, nt, credited_to(Address(a)));
    }
}

/// Whether some text of `list` equals `t`.
fn contains_text(list: &Vec<String>, t: &String) -> (r: bool)
    ensures
        r == text_in(list@, t@),
{
    let mut i: usize = 0;
    while i < list.len()
        invariant
            i <= list.len(),
            forall|j: int| 0 <= j < i ==> list@[j]@ != t@,
        decreases list.len() - i,
    {
        if list[i] == *t {
            return true;
        }
        i = i + 1;
    }
    false
}

// ---- restoring stored state ----

/// Whether stored settings fit together: the admin and the escrow contract
/// are set together, and before them the registry is unpaused with no
/// verifiers.
pub open spec fn settings_fit(admin: Option<Address>, escrow: Option<Address>, paused: bool, verifiers: Seq<Address>) -> bool {
    &&& admin is Some <==> escrow is Some
    &&& admin is None ==> !paused && verifiers.len() == 0
}

/// Whether a stored tree can come next in `s`: its id is the number of trees
/// so far, its milestone bits are among the three, a matured tree has all
/// three, and the admin is set.
pub open spec fn tree_fits(s: RegistryState, record: TreeRecord) -> bool {
    &&& s.admin is Some
    &&& record.id == s.trees.len()
    &&& record.milestone_claims < 8
    &&& record.status == TreeStatus::Matured ==> record.milestone_claims == 7
}

impl TreeRegistry {
    /// The registry before anything is stored.
    pub fn new() -> (r: TreeRegistry)
        ensures
            r@ == empty_registry(),
            registry_wf(r@),
    {
        proof {
            broadcast use vstd::std_specs::hash::axiom_u64_obeys_hash_table_key_model;
        }
        let r = TreeRegistry {
            admin: None,
            escrow: None,
            paused: false,
            verifiers: Vec::new(),
            trees: Vec::new(),
            scores: HashMapWithView::new(),
            species: StringHashMap::new(),
        };
        assert(r@.verifiers =~= seq![]);
        assert(r@.trees =~= seq![]);
        r
    }

    /// Rebuilds the registry from stored settings, without trees, scores or
    /// species yet; `None` when the settings do not fit together.
    pub fn restore(admin: Option<Address>, escrow: Option<Address>, paused: bool, verifiers: Vec<Address>) -> (r: Option<TreeRegistry>)
        ensures
            r is Some <==> settings_fit(admin, escrow, paused, verifiers@),
            r matches Some(reg) ==> reg@ == (RegistryState {
                admin,
                escrow,
                paused,
                verifiers: verifiers@,
                trees: seq![],
                scores: Map::empty(),
                species: Map::empty(),
            }) && registry_wf(reg@),
    {
        if admin.is_some() != escrow.is_some() {
            return None;
        }
        if admin.is_none() && (paused || verifiers.len() > 0) {
            return None;
        }
        let mut reg = TreeRegistry::new();
        reg.admin = admin;
        reg.escrow = escrow;
        reg.paused = paused;
        reg.verifiers = verifiers;
        Some(reg)
    }

    /// Appends a stored tree when it fits (see `tree_fits`); returns whether
    /// it did.
    pub fn load_tree(&mut self, record: TreeRecord) -> (ok: bool)
        requires
            registry_wf(old(self)@),
        ensures
            ok == (tree_fits(old(self)@, record) && old(self)@.trees.len() < u64::MAX),
            final(self)@ == (if ok { RegistryState { trees: old(self)@.trees.push(record), ..old(self)@ } } else { old(self)@ }),
            registry_wf(final(self)@),
    {
        if self.admin.is_none() || self.trees.len() as u64 == u64::MAX || record.id != self.trees.len() as u64 {
            return false;
        }
        if record.milestone_claims >= 8 || (record.status == TreeStatus::Matured && record.milestone_claims != 7) {
            return false;
        }
        proof {
            lemma_push_keeps_scores(self@, record);
        }
        self.trees.push(record);
        true
    }

    /// The number of a planter's trees that count towards their score.
    pub fn credited_count(&self, planter: Address) -> (r: u64)
        ensures
            r == ids_where(self@.trees, credited_to(planter)).len(),
    {
        let mut count: u64 = 0;
        let mut i: usize = 0;
        while i < self.trees.len()
            invariant
                i <= self.trees.len(),
                count == ids_where(self.trees@.take(i as int), credited_to(planter)).len(),
            decreases self.trees.len() - i,
        {
            proof {
                lemma_ids_where_step(self.trees@, credited_to(planter), i as int);
                lemma_ids_where_len(self.trees@.take(i as int), credited_to(planter));
            }
            let t = &self.trees[i];
            if t.planter.0 == planter.0 && (t.status == TreeStatus::Verified || t.status == TreeStatus::Matured) {
                count = count + 1;
            }
            i = i + 1;
        }
        assert(self.trees@.take(self.trees.len() as int) =~= self.trees@);
        count
    }

    /// Sets a stored planter score, once the admin is set, while the planter
    /// has none, and when it is at most the number of the planter's verified
    /// or matured trees (so load the trees first); returns whether it did.
    pub fn load_score(&mut self, planter: Address, score: u64) -> (ok: bool)
        requires
            registry_wf(old(self)@),
        ensures
            ok == (old(self)@.admin is Some && !old(self)@.scores.contains_key(planter.0)
                && score <= ids_where(old(self)@.trees, credited_to(planter)).len()),
            final(self)@ == (if ok {
                RegistryState { scores: old(self)@.scores.insert(planter.0, score), ..old(self)@ }
            } else {
                old(self)@
            }),
            registry_wf(final(self)@),
    {
        if self.admin.is_none() || self.scores.contains_key(&planter.0) {
            return false;
        }
        if score > self.credited_count(planter) {
            return false;
        }
        proof {
            assert(Address(planter.0) == planter);
        }
        self.scores.insert(planter.0, score);
        true
    }

    /// Adds a stored species, once the admin is set and while the slug is
    /// not catalogued; returns whether it did.
    pub fn load_species(&mut self, slug: String, info: SpeciesInfo) -> (ok: bool)
        requires
            registry_wf(old(self)@),
        ensures
            ok == (old(self)@.admin is Some && !old(self)@.species.contains_key(slug@)),
            final(self)@ == (if ok {
                RegistryState { species: old(self)@.species.insert(slug@, info), ..old(self)@ }
            } else {
                old(self)@
            }),
            registry_wf(final(self)@),
    {
        if self.admin.is_none() || self.species.contains_key(slug.as_str()) {
            return false;
        }
        self.species.insert(slug, info);
        true
    }

    /// Sets the admin and the escrow contract, once; the registry starts
    /// unpaused with no verifiers and no trees.
    pub fn initialize(&mut self, admin: Address, escrow: Address) -> (r: Result<(), RegistryFailure>)
        requires
            registry_wf(old(self)@),
        ensures
            r == initialize_result(old(self)@),
            final(self)@ == initialize_state(old(self)@, admin, escrow),
            registry_wf(final(self)@),
    {
        if self.admin.is_some() {
            return Err(RegistryFailure::Shared(HarvestaError::AlreadyInitialized));
        }
        self.admin = Some(admin);
        self.escrow = Some(escrow);
        self.paused = false;
        self.verifiers = Vec::new();
        assert(self@.verifiers =~= seq![]);
        Ok(())
    }

    /// Fails with `ContractPaused` while the registry is paused.
    pub fn assert_not_paused(&self) -> (r: Result<(), RegistryFailure>)
        ensures
            r == not_paused_result(self@),
    {
        if self.paused {
            Err(RegistryFailure::Shared(HarvestaError::ContractPaused))
        } else {
            Ok(())
        }
    }

    /// The admin, whose authorization the admin-only calls need.
    pub fn require_admin(&self) -> (r: Result<Address, RegistryFailure>)
        ensures
            r == admin_result(self@),
    {
        match self.admin {
            Some(a) => Ok(a),
            None => Err(RegistryFailure::Shared(HarvestaError::NotInitialized)),
        }
    }

    /// The escrow contract, whose authorization a mint needs.
    pub fn require_escrow(&self) -> (r: Result<Address, RegistryFailure>)
        ensures
            r == escrow_result(self@),
    {
        match self.escrow {
            Some(e) => Ok(e),
            None => Err(RegistryFailure::Shared(HarvestaError::NotInitialized)),
        }
    }

    /// Fails with `NotAuthorized` unless `verifier` is listed. The host checks
    /// the verifier's own authorization first.
    pub fn require_verifier(&self, verifier: Address) -> (r: Result<(), RegistryFailure>)
        ensures
            r == verifier_check(self@, verifier),
    {
        if contains_address(&self.verifiers, verifier) {
            Ok(())
        } else {
            Err(RegistryFailure::Registry(TreeRegistryError::NotAuthorized))
        }
    }

    /// Mints a tree under the next id and returns that id. The call needs the
    /// escrow contract's authorization (see `require_escrow`).
    pub fn mint_tree(
        &mut self,
        sponsor: Address,
        species: String,
        region: String,
        planter: Address,
        now: u64,
        actions: &mut Vec<RegistryAction>,
    ) -> (r: Result<u64, RegistryFailure>)
        requires
            registry_wf(old(self)@),
            mint_result(old(self)@) is Ok ==> old(self)@.trees.len() < u64::MAX,
        ensures
            r == mint_result(old(self)@),
            final(self)@ == mint_state(old(self)@, sponsor, species, region, planter, now),
            final(actions)@ == old(actions)@ + mint_actions(old(self)@, sponsor, species, region, planter),
            registry_wf(final(self)@),
    {
        self.assert_not_paused()?;
        self.require_escrow()?;
        let tree_id = self.trees.len() as u64;
        let announce = RegistryAction::TreeMinted {
            tree_id,
            sponsor,
            species: species.clone(),
            region: region.clone(),
            planter,
        };
        let record = TreeRecord {
            id: tree_id,
            species,
            sponsor,
            planter,
            region,
            planted_at: now,
            status: TreeStatus::Planted,
            notes_hash: None,
            milestone_claims: 0,
        };
        proof {
            lemma_push_keeps_scores(self@, record);
        }
        self.trees.push(record);
        actions.push(announce);
        assert(actions@ =~= old(actions)@ + mint_actions(old(self)@, sponsor, species, region, planter));
        Ok(tree_id)
    }

    /// Lists a verifier, and announces it when it was not listed yet. The
    /// call needs the admin's authorization (see `require_admin`).
    pub fn add_verifier(&mut self, verifier: Address, actions: &mut Vec<RegistryAction>) -> (r: Result<(), RegistryFailure>)
        requires
            registry_wf(old(self)@),
        ensures
            r == admin_gate(old(self)@),
            final(self)@ == add_verifier_state(old(self)@, verifier),
            final(actions)@ == old(actions)@ + add_verifier_actions(old(self)@, verifier),
            registry_wf(final(self)@),
    {
        self.require_admin()?;
        if !contains_address(&self.verifiers, verifier) {
            self.verifiers.push(verifier);
            actions.push(RegistryAction::VerifierAdded { verifier });
        }
        assert(actions@ =~= old(actions)@ + add_verifier_actions(old(self)@, verifier));
        Ok(())
    }

    /// Takes a verifier off the list, and announces it. The call needs the
    /// admin's authorization (see `require_admin`).
    pub fn remove_verifier(&mut self, verifier: Address, actions: &mut Vec<RegistryAction>) -> (r: Result<(), RegistryFailure>)
        requires
            registry_wf(old(self)@),
        ensures
            r == admin_gate(old(self)@),
            final(self)@ == remove_verifier_state(old(self)@, verifier),
            final(actions)@ == old(actions)@ + remove_verifier_actions(old(self)@, verifier),
            registry_wf(final(self)@),
    {
        self.require_admin()?;
        let mut kept: Vec<Address> = Vec::new();
        let mut i: usize = 0;
        while i < self.verifiers.len()
            invariant
                i <= self.verifiers.len(),
                kept@ == without(self.verifiers@.take(i as int), verifier),
            decreases self.verifiers.len() - i,
        {
            proof {
                lemma_without_step(self.verifiers@, verifier, i as int);
            }
            let v = self.verifiers[i];
            if v.0 != verifier.0 {
                kept.push(v);
            }
            i = i + 1;
        }
        assert(self.verifiers@.take(self.verifiers.len() as int) =~= self.verifiers@);
        self.verifiers = kept;
        actions.push(RegistryAction::VerifierRemoved { verifier });
        assert(actions@ =~= old(actions)@ + remove_verifier_actions(old(self)@, verifier));
        Ok(())
    }

    /// The listed verifiers.
    pub fn get_verifiers(&self) -> (r: Vec<Address>)
        ensures
            r@ == self@.verifiers,
    {
        let mut out: Vec<Address> = Vec::new();
        let mut i: usize = 0;
        while i < self.verifiers.len()
            invariant
                i <= self.verifiers.len(),
                out@ == self.verifiers@.take(i as int),
            decreases self.verifiers.len() - i,
        {
            out.push(self.verifiers[i]);
            i = i + 1;
            assert(out@ =~= self.verifiers@.take(i as int));
        }
        assert(self.verifiers@.take(self.verifiers.len() as int) =~= self.verifiers@);
        out
    }

    /// How many of a planter's plantings were approved.
    pub fn get_planter_score(&self, planter: Address) -> (r: u64)
        ensures
            r == score_of(self@, planter),
    {
        match self.scores.get(&planter.0) {
            Some(score) => *score,
            None => 0,
        }
    }

    /// A verifier approves or rejects a planting, recording the hash of their
    /// notes. An approval adds one to the planter's score and asks the escrow
    /// to release the tree's funds. The host checks the verifier's
    /// authorization after `assert_not_paused`.
    pub fn verify_tree(
        &mut self,
        verifier: Address,
        tree_id: u64,
        approved: bool,
        notes_hash: Option<String>,
        actions: &mut Vec<RegistryAction>,
    ) -> (r: Result<(), RegistryFailure>)
        requires
            registry_wf(old(self)@),
        ensures
            r == verify_checks(old(self)@, verifier, tree_id),
            final(self)@ == verify_state(old(self)@, verifier, tree_id, approved, notes_hash),
            final(actions)@ == old(actions)@ + verify_actions(old(self)@, verifier, tree_id, approved, notes_hash),
            registry_wf(final(self)@),
    {
        self.assert_not_paused()?;
        self.require_verifier(verifier)?;
        if tree_id >= self.trees.len() as u64 {
            return Err(RegistryFailure::Registry(TreeRegistryError::NotFound));
        }
        let idx = tree_id as usize;
        let mut record = self.trees[idx].clone();
        if record.status != TreeStatus::Planted {
            return Err(RegistryFailure::Registry(TreeRegistryError::InvalidStatus));
        }
        proof {
            lemma_verify_wf(self@, verifier, tree_id, approved, notes_hash);
        }
        let noted = copy_text(&notes_hash);
        record.notes_hash = notes_hash;
        if approved {
            record.status = TreeStatus::Verified;
            let score = self.get_planter_score(record.planter);
            self.scores.insert(record.planter.0, score + 1);
            let escrow = match self.escrow {
                Some(e) => e,
                None => {
                    // the escrow is set together with the admin, who listed the verifier
                    assert(false);
                    return Err(RegistryFailure::Shared(HarvestaError::NotInitialized));
                },
            };
            actions.push(RegistryAction::ReleaseEscrow { escrow, tree_id });
            actions.push(RegistryAction::TreeVerified { tree_id, verifier, notes_hash: noted });
        } else {
            record.status = TreeStatus::Rejected;
            actions.push(RegistryAction::TreeRejected { tree_id, verifier, notes_hash: noted });
        }
        self.trees.set(idx, record);
        assert(actions@ =~= old(actions)@ + verify_actions(old(self)@, verifier, tree_id, approved, notes_hash));
        Ok(())
    }

    /// The tree with this id, if there is one.
    pub fn get_tree(&self, id: u64) -> (r: Option<TreeRecord>)
        ensures
            r == tree_of(self@, id),
    {
        if id < self.trees.len() as u64 {
            Some(self.trees[id as usize].clone())
        } else {
            None
        }
    }

    /// The trees of a sponsor, in minting order.
    pub fn list_by_sponsor(&self, sponsor: Address) -> (r: Vec<TreeRecord>)
        ensures
            r@ == trees_where(self@.trees, of_sponsor(sponsor)),
    {
        let mut out: Vec<TreeRecord> = Vec::new();
        let mut i: usize = 0;
        while i < self.trees.len()
            invariant
                i <= self.trees.len(),
                out@ == trees_where(self.trees@.take(i as int), of_sponsor(sponsor)),
            decreases self.trees.len() - i,
        {
            proof {
                lemma_ids_where_step(self.trees@, of_sponsor(sponsor), i as int);
            }
            if self.trees[i].sponsor.0 == sponsor.0 {
                out.push(self.trees[i].clone());
            }
            i = i + 1;
        }
        assert(self.trees@.take(self.trees.len() as int) =~= self.trees@);
        out
    }

    /// Claims the CO2 credits of a tree's milestone of one, five or ten years
    /// and returns them. Claiming the last of the three matures the tree.
    /// The host checks the sponsor's authorization after `assert_not_paused`.
    pub fn claim_milestone(
        &mut self,
        sponsor: Address,
        tree_id: u64,
        milestone_years: u64,
        now: u64,
        actions: &mut Vec<RegistryAction>,
    ) -> (r: Result<i128, RegistryFailure>)
        requires
            registry_wf(old(self)@),
            claim_checks(old(self)@, sponsor, tree_id, milestone_years) is Ok
                ==> milestone_due(old(self)@.trees[tree_id as int], milestone_years) <= u64::MAX,
        ensures
            r == claim_result(old(self)@, sponsor, tree_id, milestone_years, now),
            final(self)@ == claim_state(old(self)@, sponsor, tree_id, milestone_years, now),
            final(actions)@ == old(actions)@ + claim_actions(old(self)@, sponsor, tree_id, milestone_years, now),
            registry_wf(final(self)@),
    {
        self.assert_not_paused()?;
        if tree_id >= self.trees.len() as u64 {
            return Err(RegistryFailure::Registry(TreeRegistryError::NotFound));
        }
        let idx = tree_id as usize;
        let mut record = self.trees[idx].clone();
        if record.sponsor.0 != sponsor.0 {
            return Err(RegistryFailure::Registry(TreeRegistryError::NotAuthorized));
        }
        if record.status == TreeStatus::Rejected {
            return Err(RegistryFailure::Registry(TreeRegistryError::InvalidStatus));
        }
        let flag = match Self::milestone_flag(milestone_years) {
            Some(f) => f,
            None => return Err(RegistryFailure::Registry(TreeRegistryError::InvalidStatus)),
        };
        if record.milestone_claims & flag != 0 {
            return Err(RegistryFailure::Registry(TreeRegistryError::InvalidStatus));
        }
        let required = record.planted_at + milestone_years * ONE_YEAR_SECS;
        if now < required {
            return Err(RegistryFailure::Registry(TreeRegistryError::InvalidStatus));
        }
        let old_claims = record.milestone_claims;
        record.milestone_claims = old_claims | flag;
        proof {
            assert(old_claims < 8 && (flag == 1 || flag == 2 || flag == 4) ==> (old_claims | flag) < 8) by (bit_vector);
            assert(old_claims == 7 && (flag == 1 || flag == 2 || flag == 4) ==> old_claims & flag != 0) by (bit_vector);
        }
        if record.milestone_claims == 7 {
            record.status = TreeStatus::Matured;
        }
        proof {
            lemma_claim_keeps_scores(self@, idx as int, record);
        }
        self.trees.set(idx, record);
        let amount = Self::co2_credits_for_years(milestone_years);
        actions.push(RegistryAction::MilestoneClaimed { tree_id, sponsor, milestone_years, amount });
        assert(actions@ =~= old(actions)@ + claim_actions(old(self)@, sponsor, tree_id, milestone_years, now));
        Ok(amount)
    }

    /// The number of trees minted so far.
    pub fn tree_count(&self) -> (r: u64)
        ensures
            r == self@.trees.len(),
    {
        self.trees.len() as u64
    }

    /// Adds a species to the catalogue. The call needs the admin's
    /// authorization (see `require_admin`).
    pub fn register_species(
        &mut self,
        slug: String,
        co2_scaled: i128,
        maturity_years: u32,
        now: u64,
        actions: &mut Vec<RegistryAction>,
    ) -> (r: Result<(), RegistryFailure>)
        requires
            registry_wf(old(self)@),
        ensures
            r == register_species_result(old(self)@, slug@, co2_scaled, maturity_years),
            final(self)@ == register_species_state(old(self)@, slug@, co2_scaled, maturity_years, now),
            final(actions)@ == old(actions)@ + register_species_actions(old(self)@, slug, co2_scaled, maturity_years),
            registry_wf(final(self)@),
    {
        self.require_admin()?;
        if co2_scaled <= 0 {
            return Err(RegistryFailure::Shared(HarvestaError::Co2MustBePositive));
        }
        if maturity_years == 0 {
            return Err(RegistryFailure::Shared(HarvestaError::MaturityYearsMustBePositive));
        }
        if self.species.contains_key(slug.as_str()) {
            return Err(RegistryFailure::Registry(TreeRegistryError::SpeciesAlreadyExists));
        }
        actions.push(RegistryAction::SpeciesRegistered { slug: slug.clone(), co2_scaled, maturity_years });
        self.species.insert(slug, SpeciesInfo { co2_scaled, maturity_years, updated_at: now });
        assert(actions@ =~= old(actions)@ + register_species_actions(old(self)@, slug, co2_scaled, maturity_years));
        Ok(())
    }

    /// Changes a catalogued species. The call needs the admin's authorization
    /// (see `require_admin`).
    pub fn update_species(
        &mut self,
        slug: String,
        co2_scaled: i128,
        maturity_years: u32,
        now: u64,
        actions: &mut Vec<RegistryAction>,
    ) -> (r: Result<(), RegistryFailure>)
        requires
            registry_wf(old(self)@),
        ensures
            r == update_species_result(old(self)@, slug@, co2_scaled, maturity_years),
            final(self)@ == update_species_state(old(self)@, slug@, co2_scaled, maturity_years, now),
            final(actions)@ == old(actions)@ + update_species_actions(old(self)@, slug, co2_scaled, maturity_years),
            registry_wf(final(self)@),
    {
        self.require_admin()?;
        if co2_scaled <= 0 {
            return Err(RegistryFailure::Shared(HarvestaError::Co2MustBePositive));
        }
        if maturity_years == 0 {
            return Err(RegistryFailure::Shared(HarvestaError::MaturityYearsMustBePositive));
        }
        if !self.species.contains_key(slug.as_str()) {
            return Err(RegistryFailure::Registry(TreeRegistryError::SpeciesNotFound));
        }
        actions.push(RegistryAction::SpeciesUpdated { slug: slug.clone(), co2_scaled, maturity_years });
        self.species.insert(slug, SpeciesInfo { co2_scaled, maturity_years, updated_at: now });
        assert(actions@ =~= old(actions)@ + update_species_actions(old(self)@, slug, co2_scaled, maturity_years));
        Ok(())
    }

    /// What the catalogue holds of a species.
    pub fn get_species_info(&self, slug: &String) -> (r: Option<SpeciesInfo>)
        ensures
            r == species_info_of(self@, slug@),
    {
        match self.species.get(slug.as_str()) {
            Some(info) => Some(*info),
            None => None,
        }
    }

    /// Removes a species from the catalogue, unless trees of it were minted.
    /// The call needs the admin's authorization (see `require_admin`).
    pub fn unregister_species(&mut self, slug: &String, actions: &mut Vec<RegistryAction>) -> (r: Result<(), RegistryFailure>)
        requires
            registry_wf(old(self)@),
        ensures
            r == unregister_species_result(old(self)@, slug@),
            final(self)@ == unregister_species_state(old(self)@, slug@),
            final(actions)@ == old(actions)@ + unregister_species_actions(old(self)@, *slug),
            registry_wf(final(self)@),
    {
        self.require_admin()?;
        let ids = self.get_tree_ids_by_species(slug);
        if ids.len() > 0 {
            return Err(RegistryFailure::Registry(TreeRegistryError::InvalidStatus));
        }
        self.species.remove(slug.as_str());
        actions.push(RegistryAction::SpeciesUnregistered { slug: slug.clone() });
        assert(actions@ =~= old(actions)@ + unregister_species_actions(old(self)@, *slug));
        Ok(())
    }

    /// The species of all trees, each once, in the order of their first tree.
    pub fn get_distinct_species(&self) -> (r: Vec<String>)
        ensures
            r@ == species_where(self@.trees, every_tree()),
    {
        let mut out: Vec<String> = Vec::new();
        let mut i: usize = 0;
        while i < self.trees.len()
            invariant
                i <= self.trees.len(),
                out@ == species_where(self.trees@.take(i as int), every_tree()),
            decreases self.trees.len() - i,
        {
            proof {
                lemma_ids_where_step(self.trees@, every_tree(), i as int);
            }
            if !contains_text(&out, &self.trees[i].species) {
                out.push(self.trees[i].species.clone());
            }
            i = i + 1;
        }
        assert(self.trees@.take(self.trees.len() as int) =~= self.trees@);
        out
    }

    /// The ids of the trees of a species, in minting order.
    pub fn get_tree_ids_by_species(&self, species: &String) -> (r: Vec<u64>)
        ensures
            r@ == species_ids(self@, species@),
    {
        let mut out: Vec<u64> = Vec::new();
        let mut i: usize = 0;
        while i < self.trees.len()
            invariant
                i <= self.trees.len(),
                out@ == ids_where(self.trees@.take(i as int), of_species(species@)),
            decreases self.trees.len() - i,
        {
            proof {
                lemma_ids_where_step(self.trees@, of_species(species@), i as int);
            }
            if self.trees[i].species == *species {
                out.push(i as u64);
            }
            i = i + 1;
        }
        assert(self.trees@.take(self.trees.len() as int) =~= self.trees@);
        out
    }

    /// The number of trees of a species.
    pub fn get_species_count(&self, species: &String) -> (r: u64)
        ensures
            r == species_ids(self@, species@).len(),
    {
        let ids = self.get_tree_ids_by_species(species);
        proof {
            lemma_ids_where_len(self@.trees, of_species(species@));
        }
        ids.len() as u64
    }

    /// The ids of the trees of a species in a region, in minting order.
    pub fn get_tree_ids_by_species_and_region(&self, species: &String, region: &String) -> (r: Vec<u64>)
        ensures
            r@ == ids_where(self@.trees, of_species_in_region(species@, region@)),
    {
        let mut out: Vec<u64> = Vec::new();
        let mut i: usize = 0;
        while i < self.trees.len()
            invariant
                i <= self.trees.len(),
                out@ == ids_where(self.trees@.take(i as int), of_species_in_region(species@, region@)),
            decreases self.trees.len() - i,
        {
            proof {
                lemma_ids_where_step(self.trees@, of_species_in_region(species@, region@), i as int);
            }
            if self.trees[i].species == *species && self.trees[i].region == *region {
                out.push(i as u64);
            }
            i = i + 1;
        }
        assert(self.trees@.take(self.trees.len() as int) =~= self.trees@);
        out
    }

    /// The ids that the index by species and status holds.
    pub fn get_tree_ids_by_species_and_status(&self, species: &String, status: TreeStatus) -> (r: Vec<u64>)
        ensures
            r@ == species_status_ids(self@, species@, status),
    {
        if status == TreeStatus::Planted {
            self.get_tree_ids_by_species(species)
        } else {
            let out: Vec<u64> = Vec::new();
            assert(out@ =~= seq![]);
            out
        }
    }

    /// The species of the trees in a region, each once, in the order of their
    /// first tree there.
    pub fn get_species_in_region(&self, region: &String) -> (r: Vec<String>)
        ensures
            r@ == species_where(self@.trees, of_region(region@)),
    {
        let mut out: Vec<String> = Vec::new();
        let mut i: usize = 0;
        while i < self.trees.len()
            invariant
                i <= self.trees.len(),
                out@ == species_where(self.trees@.take(i as int), of_region(region@)),
            decreases self.trees.len() - i,
        {
            proof {
                lemma_ids_where_step(self.trees@, of_region(region@), i as int);
            }
            if self.trees[i].region == *region && !contains_text(&out, &self.trees[i].species) {
                out.push(self.trees[i].species.clone());
            }
            i = i + 1;
        }
        assert(self.trees@.take(self.trees.len() as int) =~= self.trees@);
        out
    }

    /// Pauses minting, verification and milestone claims, and announces it at
    /// `now`. The call needs the admin's authorization (see `require_admin`).
    pub fn pause(&mut self, now: u64, actions: &mut Vec<RegistryAction>) -> (r: Result<(), RegistryFailure>)
        requires
            registry_wf(old(self)@),
        ensures
            r == admin_gate(old(self)@),
            final(self)@ == pause_state(old(self)@, true),
            final(actions)@ == old(actions)@ + pause_actions(old(self)@, true, now),
            registry_wf(final(self)@),
    {
        self.require_admin()?;
        self.paused = true;
        actions.push(RegistryAction::Paused { at: now });
        assert(actions@ =~= old(actions)@ + pause_actions(old(self)@, true, now));
        Ok(())
    }

    /// Lifts a pause, and announces it at `now`. The call needs the admin's authorization (see
    /// `require_admin`).
    pub fn unpause(&mut self, now: u64, actions: &mut Vec<RegistryAction>) -> (r: Result<(), RegistryFailure>)
        requires
            registry_wf(old(self)@),
        ensures
            r == admin_gate(old(self)@),
            final(self)@ == pause_state(old(self)@, false),
            final(actions)@ == old(actions)@ + pause_actions(old(self)@, false, now),
            registry_wf(final(self)@),
    {
        self.require_admin()?;
        self.paused = false;
        actions.push(RegistryAction::Unpaused { at: now });
        assert(actions@ =~= old(actions)@ + pause_actions(old(self)@, false, now));
        Ok(())
    }

    /// Whether the registry is paused.
    pub fn is_paused(&self) -> (r: bool)
        ensures
            r == self@.paused,
    {
        self.paused
    }

    /// The bit that records a milestone of `milestone_years` years: one, five
    /// and ten years have a bit each, other durations none.
    pub fn milestone_flag(milestone_years: u64) -> (r: Option<u32>)
        ensures
            r == milestone_bit(milestone_years),
    {
        match milestone_years {
            1 => Some(1),
            5 => Some(2),
            10 => Some(4),
            _ => None,
        }
    }

    /// The CO2 credits, in kilograms, of `years` years of a tree's life.
    pub fn co2_credits_for_years(years: u64) -> (r: i128)
        ensures
            r == co2_credits(years),
            r == 48 * years,
    {
        CO2_KG_PER_YEAR * (years as i128)
    }
}

/// There are no more ids of selected trees than trees.
pub proof fn lemma_ids_where_len(trees: Seq<TreeRecord>, keep: spec_fn(TreeRecord) -> bool)
    ensures
        ids_where(trees, keep).len() <= trees.len(),
    decreases trees.len(),
{
    if trees.len() > 0 {
        lemma_ids_where_len(trees.drop_last(), keep);
    }
}

} // verus!
