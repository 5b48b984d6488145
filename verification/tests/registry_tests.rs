use harvesta::common::{Address, HarvestaError};
use harvesta::tree_registry::{
    RegistryFailure, SpeciesInfo, TreeRegistry, TreeRegistryError, TreeStatus, RegistryAction, ONE_YEAR_SECS,
};

const ADMIN: Address = Address(1);
const ESCROW: Address = Address(2);
const SPONSOR: Address = Address(3);
const PLANTER: Address = Address(4);
const VERIFIER: Address = Address(5);

fn text(s: &str) -> String {
    s.to_string()
}

fn setup() -> TreeRegistry {
    let mut reg = TreeRegistry::new();
    reg.initialize(ADMIN, ESCROW).unwrap();
    reg
}

fn own(e: TreeRegistryError) -> RegistryFailure {
    RegistryFailure::Registry(e)
}

fn shared(e: HarvestaError) -> RegistryFailure {
    RegistryFailure::Shared(e)
}

#[test]
fn mint_assigns_consecutive_ids() {
    let mut reg = setup();
    assert_eq!(reg.tree_count(), 0);
    assert_eq!(reg.require_escrow(), Ok(ESCROW));
    let mut actions = Vec::new();
    assert_eq!(reg.mint_tree(SPONSOR, text("teak"), text("kenya"), PLANTER, 10, &mut actions), Ok(0));
    assert_eq!(
        actions,
        vec![RegistryAction::TreeMinted {
            tree_id: 0,
            sponsor: SPONSOR,
            species: text("teak"),
            region: text("kenya"),
            planter: PLANTER,
        }]
    );
    assert_eq!(reg.mint_tree(SPONSOR, text("acacia"), text("ghana"), PLANTER, 20, &mut Vec::new()), Ok(1));
    assert_eq!(reg.tree_count(), 2);
    let t = reg.get_tree(1).unwrap();
    assert_eq!(t.id, 1);
    assert_eq!(t.species, text("acacia"));
    assert_eq!(t.region, text("ghana"));
    assert_eq!(t.planted_at, 20);
    assert_eq!(t.status, TreeStatus::Planted);
    assert_eq!(t.notes_hash, None);
    assert_eq!(t.milestone_claims, 0);
    assert!(reg.get_tree(2).is_none());
}

#[test]
fn registry_mint_needs_initialization() {
    let mut reg = TreeRegistry::new();
    assert_eq!(reg.require_escrow(), Err(shared(HarvestaError::NotInitialized)));
    assert_eq!(reg.mint_tree(SPONSOR, text("teak"), text("kenya"), PLANTER, 0, &mut Vec::new()), Err(shared(HarvestaError::NotInitialized)));
    assert_eq!(reg.tree_count(), 0);
}

#[test]
fn registry_initialize_twice_is_rejected() {
    let mut reg = setup();
    assert_eq!(reg.initialize(Address(9), Address(9)), Err(shared(HarvestaError::AlreadyInitialized)));
    assert_eq!(reg.require_admin(), Ok(ADMIN));
}

#[test]
fn indexes_by_species_region_and_sponsor() {
    let mut reg = setup();
    let other = Address(30);
    reg.mint_tree(SPONSOR, text("teak"), text("kenya"), PLANTER, 0, &mut Vec::new()).unwrap();
    reg.mint_tree(other, text("acacia"), text("kenya"), PLANTER, 0, &mut Vec::new()).unwrap();
    reg.mint_tree(SPONSOR, text("teak"), text("ghana"), PLANTER, 0, &mut Vec::new()).unwrap();
    reg.mint_tree(other, text("teak"), text("kenya"), PLANTER, 0, &mut Vec::new()).unwrap();
    assert_eq!(reg.get_tree_ids_by_species(&text("teak")), vec![0, 2, 3]);
    assert_eq!(reg.get_species_count(&text("teak")), 3);
    assert_eq!(reg.get_species_count(&text("mangrove")), 0);
    assert_eq!(reg.get_tree_ids_by_species_and_region(&text("teak"), &text("kenya")), vec![0, 3]);
    assert_eq!(reg.get_distinct_species(), vec![text("teak"), text("acacia")]);
    assert_eq!(reg.get_species_in_region(&text("kenya")), vec![text("teak"), text("acacia")]);
    assert_eq!(reg.get_species_in_region(&text("ghana")), vec![text("teak")]);
    let mine: Vec<u64> = reg.list_by_sponsor(SPONSOR).iter().map(|t| t.id).collect();
    assert_eq!(mine, vec![0, 2]);
    assert_eq!(reg.get_tree_ids_by_species_and_status(&text("teak"), TreeStatus::Planted), vec![0, 2, 3]);
}

#[test]
fn status_index_keeps_the_minted_status() {
    let mut reg = setup();
    reg.mint_tree(SPONSOR, text("teak"), text("kenya"), PLANTER, 0, &mut Vec::new()).unwrap();
    reg.add_verifier(VERIFIER, &mut Vec::new()).unwrap();
    assert!(reg.verify_tree(VERIFIER, 0, true, None, &mut Vec::new()).is_ok());
    assert_eq!(reg.get_tree_ids_by_species_and_status(&text("teak"), TreeStatus::Planted), vec![0]);
    assert_eq!(reg.get_tree_ids_by_species_and_status(&text("teak"), TreeStatus::Verified), Vec::<u64>::new());
}

#[test]
fn verify_approves_once_and_scores() {
    let mut reg = setup();
    reg.mint_tree(SPONSOR, text("teak"), text("kenya"), PLANTER, 0, &mut Vec::new()).unwrap();
    assert_eq!(reg.add_verifier(VERIFIER, &mut Vec::new()), Ok(()));
    assert_eq!(reg.require_verifier(VERIFIER), Ok(()));
    assert_eq!(reg.get_planter_score(PLANTER), 0);
    let mut actions = Vec::new();
    assert_eq!(reg.verify_tree(VERIFIER, 0, true, Some(text("h1")), &mut actions), Ok(()));
    assert_eq!(
        actions,
        vec![
            RegistryAction::ReleaseEscrow { escrow: ESCROW, tree_id: 0 },
            RegistryAction::TreeVerified { tree_id: 0, verifier: VERIFIER, notes_hash: Some(text("h1")) },
        ]
    );
    assert_eq!(reg.get_planter_score(PLANTER), 1);
    let t = reg.get_tree(0).unwrap();
    assert_eq!(t.status, TreeStatus::Verified);
    assert_eq!(t.notes_hash, Some(text("h1")));
    assert_eq!(reg.verify_tree(VERIFIER, 0, false, None, &mut Vec::new()), Err(own(TreeRegistryError::InvalidStatus)));
    assert_eq!(reg.get_planter_score(PLANTER), 1);
}

#[test]
fn verify_rejects_without_score() {
    let mut reg = setup();
    reg.mint_tree(SPONSOR, text("teak"), text("kenya"), PLANTER, 0, &mut Vec::new()).unwrap();
    reg.add_verifier(VERIFIER, &mut Vec::new()).unwrap();
    let mut actions = Vec::new();
    assert_eq!(reg.verify_tree(VERIFIER, 0, false, Some(text("bad")), &mut actions), Ok(()));
    assert_eq!(actions, vec![RegistryAction::TreeRejected { tree_id: 0, verifier: VERIFIER, notes_hash: Some(text("bad")) }]);
    assert_eq!(reg.get_tree(0).unwrap().status, TreeStatus::Rejected);
    assert_eq!(reg.get_planter_score(PLANTER), 0);
}

#[test]
fn verify_checks() {
    let mut reg = setup();
    reg.mint_tree(SPONSOR, text("teak"), text("kenya"), PLANTER, 0, &mut Vec::new()).unwrap();
    assert_eq!(reg.require_verifier(VERIFIER), Err(own(TreeRegistryError::NotAuthorized)));
    assert_eq!(reg.verify_tree(VERIFIER, 0, true, None, &mut Vec::new()), Err(own(TreeRegistryError::NotAuthorized)));
    reg.add_verifier(VERIFIER, &mut Vec::new()).unwrap();
    let err = reg.verify_tree(VERIFIER, 7, true, None, &mut Vec::new()).unwrap_err();
    assert_eq!(err, own(TreeRegistryError::NotFound));
    assert_eq!(TreeRegistryError::NotFound.code(), 85);
}

#[test]
fn verifier_list() {
    let mut reg = setup();
    let mut actions = Vec::new();
    assert_eq!(reg.add_verifier(VERIFIER, &mut actions), Ok(()));
    assert_eq!(reg.add_verifier(VERIFIER, &mut actions), Ok(()));
    assert_eq!(reg.add_verifier(Address(6), &mut actions), Ok(()));
    assert_eq!(
        actions,
        vec![RegistryAction::VerifierAdded { verifier: VERIFIER }, RegistryAction::VerifierAdded { verifier: Address(6) }]
    );
    assert_eq!(reg.get_verifiers(), vec![VERIFIER, Address(6)]);
    assert_eq!(reg.remove_verifier(VERIFIER, &mut Vec::new()), Ok(()));
    assert_eq!(reg.get_verifiers(), vec![Address(6)]);
    assert_eq!(reg.remove_verifier(VERIFIER, &mut Vec::new()), Ok(()));
    assert_eq!(reg.get_verifiers(), vec![Address(6)]);
    let mut fresh = TreeRegistry::new();
    assert_eq!(fresh.add_verifier(VERIFIER, &mut Vec::new()), Err(shared(HarvestaError::NotInitialized)));
    assert_eq!(fresh.remove_verifier(VERIFIER, &mut Vec::new()), Err(shared(HarvestaError::NotInitialized)));
}

#[test]
fn milestones_pay_once_and_mature_the_tree() {
    let mut reg = setup();
    reg.mint_tree(SPONSOR, text("teak"), text("kenya"), PLANTER, 100, &mut Vec::new()).unwrap();
    let year = ONE_YEAR_SECS;
    assert_eq!(reg.claim_milestone(SPONSOR, 0, 1, 100 + year - 1, &mut Vec::new()), Err(own(TreeRegistryError::InvalidStatus)));
    let mut actions = Vec::new();
    assert_eq!(reg.claim_milestone(SPONSOR, 0, 1, 100 + year, &mut actions), Ok(48));
    assert_eq!(
        actions,
        vec![RegistryAction::MilestoneClaimed { tree_id: 0, sponsor: SPONSOR, milestone_years: 1, amount: 48 }]
    );
    assert_eq!(reg.claim_milestone(SPONSOR, 0, 1, 100 + 2 * year, &mut Vec::new()), Err(own(TreeRegistryError::InvalidStatus)));
    assert_eq!(reg.claim_milestone(SPONSOR, 0, 10, 100 + 10 * year, &mut Vec::new()), Ok(480));
    assert_eq!(reg.get_tree(0).unwrap().status, TreeStatus::Planted);
    assert_eq!(reg.claim_milestone(SPONSOR, 0, 5, 100 + 10 * year, &mut Vec::new()), Ok(240));
    let t = reg.get_tree(0).unwrap();
    assert_eq!(t.milestone_claims, 7);
    assert_eq!(t.status, TreeStatus::Matured);
}

#[test]
fn milestone_checks() {
    let mut reg = setup();
    reg.mint_tree(SPONSOR, text("teak"), text("kenya"), PLANTER, 0, &mut Vec::new()).unwrap();
    let late = 20 * ONE_YEAR_SECS;
    assert_eq!(reg.claim_milestone(SPONSOR, 3, 1, late, &mut Vec::new()), Err(own(TreeRegistryError::NotFound)));
    assert_eq!(reg.claim_milestone(Address(77), 0, 1, late, &mut Vec::new()), Err(own(TreeRegistryError::NotAuthorized)));
    assert_eq!(reg.claim_milestone(SPONSOR, 0, 2, late, &mut Vec::new()), Err(own(TreeRegistryError::InvalidStatus)));
    reg.add_verifier(VERIFIER, &mut Vec::new()).unwrap();
    reg.verify_tree(VERIFIER, 0, false, None, &mut Vec::new()).unwrap();
    assert_eq!(reg.claim_milestone(SPONSOR, 0, 1, late, &mut Vec::new()), Err(own(TreeRegistryError::InvalidStatus)));
    assert_eq!(TreeRegistryError::InvalidStatus.code(), 86);
    assert_eq!(TreeRegistryError::NotAuthorized.code(), 87);
}

#[test]
fn milestone_flags_and_credits() {
    assert_eq!(TreeRegistry::milestone_flag(1), Some(1));
    assert_eq!(TreeRegistry::milestone_flag(5), Some(2));
    assert_eq!(TreeRegistry::milestone_flag(10), Some(4));
    assert_eq!(TreeRegistry::milestone_flag(0), None);
    assert_eq!(TreeRegistry::milestone_flag(2), None);
    assert_eq!(TreeRegistry::co2_credits_for_years(0), 0);
    assert_eq!(TreeRegistry::co2_credits_for_years(5), 240);
    assert_eq!(TreeRegistry::co2_credits_for_years(u64::MAX), 48 * (u64::MAX as i128));
}

#[test]
fn pause_blocks_changes() {
    let mut reg = setup();
    assert!(!reg.is_paused());
    let mut actions = Vec::new();
    assert_eq!(reg.pause(77, &mut actions), Ok(()));
    assert_eq!(actions, vec![RegistryAction::Paused { at: 77 }]);
    assert!(reg.is_paused());
    let paused = shared(HarvestaError::ContractPaused);
    assert_eq!(reg.assert_not_paused(), Err(paused));
    assert_eq!(reg.mint_tree(SPONSOR, text("teak"), text("kenya"), PLANTER, 0, &mut Vec::new()), Err(paused));
    assert_eq!(reg.verify_tree(VERIFIER, 0, true, None, &mut Vec::new()), Err(paused));
    assert_eq!(reg.claim_milestone(SPONSOR, 0, 1, 0, &mut Vec::new()), Err(paused));
    assert_eq!(reg.unpause(0, &mut Vec::new()), Ok(()));
    assert!(!reg.is_paused());
    assert_eq!(reg.mint_tree(SPONSOR, text("teak"), text("kenya"), PLANTER, 0, &mut Vec::new()), Ok(0));
    let mut fresh = TreeRegistry::new();
    assert_eq!(fresh.pause(0, &mut Vec::new()), Err(shared(HarvestaError::NotInitialized)));
    assert!(!fresh.is_paused());
}

#[test]
fn species_catalogue() {
    let mut reg = setup();
    let slug = text("teak");
    assert_eq!(reg.register_species(slug.clone(), 0, 5, 1, &mut Vec::new()), Err(shared(HarvestaError::Co2MustBePositive)));
    assert_eq!(reg.register_species(slug.clone(), 10, 0, 1, &mut Vec::new()), Err(shared(HarvestaError::MaturityYearsMustBePositive)));
    assert_eq!(reg.update_species(slug.clone(), 10, 5, 1, &mut Vec::new()), Err(own(TreeRegistryError::SpeciesNotFound)));
    let mut actions = Vec::new();
    assert_eq!(reg.register_species(slug.clone(), 10, 5, 1, &mut actions), Ok(()));
    assert_eq!(actions, vec![RegistryAction::SpeciesRegistered { slug: slug.clone(), co2_scaled: 10, maturity_years: 5 }]);
    assert_eq!(reg.get_species_info(&slug), Some(SpeciesInfo { co2_scaled: 10, maturity_years: 5, updated_at: 1 }));
    assert_eq!(reg.register_species(slug.clone(), 11, 6, 2, &mut Vec::new()), Err(own(TreeRegistryError::SpeciesAlreadyExists)));
    assert_eq!(reg.update_species(slug.clone(), 12, 7, 3, &mut Vec::new()), Ok(()));
    assert_eq!(reg.get_species_info(&slug), Some(SpeciesInfo { co2_scaled: 12, maturity_years: 7, updated_at: 3 }));
    reg.mint_tree(SPONSOR, text("teak"), text("kenya"), PLANTER, 0, &mut Vec::new()).unwrap();
    assert_eq!(reg.unregister_species(&slug, &mut Vec::new()), Err(own(TreeRegistryError::InvalidStatus)));
    reg.register_species(text("bamboo"), 3, 2, 4, &mut Vec::new()).unwrap();
    assert_eq!(reg.unregister_species(&text("bamboo"), &mut Vec::new()), Ok(()));
    assert_eq!(reg.get_species_info(&text("bamboo")), None);
    assert_eq!(TreeRegistryError::SpeciesNotFound.code(), 88);
    assert_eq!(TreeRegistryError::SpeciesAlreadyExists.code(), 89);
    assert_eq!(TreeRegistryError::InvalidSpeciesName.code(), 90);
}

#[test]
fn registry_restore_checks_stored_state() {
    assert!(TreeRegistry::restore(Some(ADMIN), None, false, vec![]).is_none());
    assert!(TreeRegistry::restore(None, None, true, vec![]).is_none());
    assert!(TreeRegistry::restore(None, None, false, vec![VERIFIER]).is_none());
    let mut source = setup();
    source.mint_tree(SPONSOR, text("teak"), text("kenya"), PLANTER, 0, &mut Vec::new()).unwrap();
    source.mint_tree(SPONSOR, text("acacia"), text("kenya"), PLANTER, 0, &mut Vec::new()).unwrap();
    source.add_verifier(VERIFIER, &mut Vec::new()).unwrap();
    source.verify_tree(VERIFIER, 0, true, None, &mut Vec::new()).unwrap();
    let mut reg = TreeRegistry::restore(Some(ADMIN), Some(ESCROW), true, vec![VERIFIER]).unwrap();
    assert!(reg.is_paused());
    assert!(!reg.load_tree(source.get_tree(1).unwrap()));
    assert!(reg.load_tree(source.get_tree(0).unwrap()));
    assert!(reg.load_tree(source.get_tree(1).unwrap()));
    assert_eq!(reg.tree_count(), 2);
    let mut matured = source.get_tree(0).unwrap();
    matured.id = 2;
    matured.status = TreeStatus::Matured;
    assert!(!reg.load_tree(matured));
    assert_eq!(reg.credited_count(PLANTER), 1);
    assert!(!reg.load_score(PLANTER, 2));
    assert!(reg.load_score(PLANTER, 1));
    assert!(!reg.load_score(PLANTER, 1));
    assert_eq!(reg.get_planter_score(PLANTER), 1);
    assert!(!reg.load_score(SPONSOR, 1));
    assert!(reg.load_score(SPONSOR, 0));
    let info = SpeciesInfo { co2_scaled: 1, maturity_years: 2, updated_at: 3 };
    assert!(reg.load_species(text("teak"), info));
    assert!(!reg.load_species(text("teak"), info));
    assert_eq!(reg.get_species_info(&text("teak")), Some(info));
    let mut fresh = TreeRegistry::new();
    assert!(!fresh.load_score(PLANTER, 1));
}

#[test]
fn lifetime_credits_come_to_768() {
    let mut reg = setup();
    reg.mint_tree(SPONSOR, text("teak"), text("kenya"), PLANTER, 0, &mut Vec::new()).unwrap();
    let late = 30 * ONE_YEAR_SECS;
    let mut total: i128 = 0;
    for (who, years) in [(SPONSOR, 10u64), (PLANTER, 1), (SPONSOR, 1), (SPONSOR, 5), (SPONSOR, 1), (SPONSOR, 10)] {
        if let Ok(amount) = reg.claim_milestone(who, 0, years, late, &mut Vec::new()) {
            total += amount;
        }
    }
    for years in [5u64, 2, 20] {
        if let Ok(amount) = reg.claim_milestone(SPONSOR, 0, years, late, &mut Vec::new()) {
            total += amount;
        }
    }
    assert_eq!(total, 768);
    assert_eq!(reg.get_tree(0).unwrap().status, TreeStatus::Matured);
}
