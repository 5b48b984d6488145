use harvesta::common::Address;
use harvesta::escrow::{Escrow, EscrowAction, EscrowError, EscrowStatus, Party, REFUND_WINDOW};

struct Setup {
    verifier: Address,
    sponsor: Address,
    planter: Address,
    token: Address,
    escrow: Escrow,
}

fn setup() -> Setup {
    let mut escrow = Escrow::new();
    let verifier = Address(1);
    escrow.initialize(verifier).unwrap();
    Setup { verifier, sponsor: Address(2), planter: Address(3), token: Address(4), escrow }
}

struct RegistrySetup {
    sponsor: Address,
    token: Address,
    tree_registry: Address,
    planter_registry: Address,
    escrow: Escrow,
}

fn setup_with_registries() -> RegistrySetup {
    let mut escrow = Escrow::new();
    let verifier = Address(1);
    let tree_registry = Address(5);
    let planter_registry = Address(6);
    escrow.initialize(verifier).unwrap();
    assert_eq!(escrow.initialize_registries(tree_registry, planter_registry), Ok(verifier));
    RegistrySetup { sponsor: Address(2), token: Address(4), tree_registry, planter_registry, escrow }
}

fn text(s: &str) -> String {
    s.to_string()
}

#[test]
fn test_deposit_stores_record() {
    let mut s = setup();
    let mut actions = Vec::new();
    s.escrow.deposit(s.sponsor, s.planter, 1, s.token, 10_000, 0, &mut actions).unwrap();
    assert_eq!(
        actions,
        vec![
            EscrowAction::Transfer { token: s.token, from: Party::Account(s.sponsor), to: Party::Escrow, amount: 10_000 },
            EscrowAction::FundsDeposited { tree_id: 1, sponsor: s.sponsor, token: s.token, amount: 10_000 },
        ]
    );
    let rec = s.escrow.get_escrow(1).unwrap();
    assert_eq!(rec.amount, 10_000);
    assert_eq!(rec.sponsor, Some(s.sponsor));
    assert_eq!(rec.planter, s.planter);
    assert_eq!(rec.status, EscrowStatus::Pending);
    assert!(!rec.is_anonymous);
}

#[test]
fn test_release_transfers_to_planter() {
    let mut s = setup();
    s.escrow.deposit(s.sponsor, s.planter, 1, s.token, 10_000, 0, &mut Vec::new()).unwrap();
    assert_eq!(s.escrow.require_verifier(), Ok(s.verifier));
    let mut actions = Vec::new();
    s.escrow.release(1, &mut actions).unwrap();
    assert_eq!(
        actions,
        vec![
            EscrowAction::Transfer { token: s.token, from: Party::Escrow, to: Party::Account(s.planter), amount: 10_000 },
            EscrowAction::FundsReleased { tree_id: 1, planter: s.planter, amount: 10_000 },
        ]
    );
    let rec = s.escrow.get_escrow(1).unwrap();
    assert_eq!(rec.status, EscrowStatus::Released);
}

#[test]
fn test_refund_after_90_days_returns_to_sponsor() {
    let mut s = setup();
    s.escrow.deposit(s.sponsor, s.planter, 1, s.token, 10_000, 0, &mut Vec::new()).unwrap();
    let now = REFUND_WINDOW + 1;
    assert_eq!(s.escrow.refund_claimant(1), Ok(s.sponsor));
    let mut actions = Vec::new();
    s.escrow.refund(1, now, &mut actions).unwrap();
    assert_eq!(
        actions,
        vec![
            EscrowAction::Transfer { token: s.token, from: Party::Escrow, to: Party::Account(s.sponsor), amount: 10_000 },
            EscrowAction::FundsRefunded { tree_id: 1, sponsor: s.sponsor, amount: 10_000 },
        ]
    );
    let rec = s.escrow.get_escrow(1).unwrap();
    assert_eq!(rec.status, EscrowStatus::Refunded);
}

#[test]
fn test_refund_before_90_days_panics() {
    let mut s = setup();
    s.escrow.deposit(s.sponsor, s.planter, 1, s.token, 10_000, 0, &mut Vec::new()).unwrap();
    let err = s.escrow.refund(1, REFUND_WINDOW - 1, &mut Vec::new()).unwrap_err();
    assert_eq!(err, EscrowError::RefundWindowNotOpen);
    assert_eq!(err.code(), 7);
    assert_eq!(s.escrow.get_escrow(1).unwrap().status, EscrowStatus::Pending);
}

#[test]
fn test_double_deposit_rejected() {
    let mut s = setup();
    s.escrow.deposit(s.sponsor, s.planter, 1, s.token, 10_000, 0, &mut Vec::new()).unwrap();
    let err = s.escrow.deposit(s.sponsor, s.planter, 1, s.token, 5_000, 0, &mut Vec::new()).unwrap_err();
    assert_eq!(err, EscrowError::EscrowAlreadyFunded);
    assert_eq!(err.code(), 4);
    assert_eq!(s.escrow.get_escrow(1).unwrap().amount, 10_000);
}

#[test]
fn test_release_twice_panics() {
    let mut s = setup();
    s.escrow.deposit(s.sponsor, s.planter, 1, s.token, 10_000, 0, &mut Vec::new()).unwrap();
    s.escrow.release(1, &mut Vec::new()).unwrap();
    let mut actions = Vec::new();
    let err = s.escrow.release(1, &mut actions).unwrap_err();
    assert_eq!(err, EscrowError::EscrowAlreadySettled);
    assert_eq!(err.code(), 6);
    assert!(actions.is_empty());
}

#[test]
fn test_refund_after_release_panics() {
    let mut s = setup();
    s.escrow.deposit(s.sponsor, s.planter, 1, s.token, 10_000, 0, &mut Vec::new()).unwrap();
    s.escrow.release(1, &mut Vec::new()).unwrap();
    let err = s.escrow.refund(1, REFUND_WINDOW + 1, &mut Vec::new()).unwrap_err();
    assert_eq!(err, EscrowError::EscrowAlreadySettled);
    assert_eq!(err.code(), 6);
}

#[test]
fn test_release_nonexistent_panics() {
    let mut s = setup();
    let err = s.escrow.release(999, &mut Vec::new()).unwrap_err();
    assert_eq!(err, EscrowError::EscrowNotFound);
    assert_eq!(err.code(), 5);
}

#[test]
fn test_zero_amount_rejected() {
    let mut s = setup();
    let err = s.escrow.deposit(s.sponsor, s.planter, 1, s.token, 0, 0, &mut Vec::new()).unwrap_err();
    assert_eq!(err, EscrowError::AmountMustBePositive);
    assert_eq!(err.code(), 3);
    assert!(s.escrow.get_escrow(1).is_none());
}

#[test]
fn test_different_tree_ids_are_independent() {
    let mut s = setup();
    s.escrow.deposit(s.sponsor, s.planter, 1, s.token, 1_000, 0, &mut Vec::new()).unwrap();
    s.escrow.deposit(s.sponsor, s.planter, 2, s.token, 2_000, 0, &mut Vec::new()).unwrap();
    s.escrow.release(1, &mut Vec::new()).unwrap();
    let rec1 = s.escrow.get_escrow(1).unwrap();
    let rec2 = s.escrow.get_escrow(2).unwrap();
    assert_eq!(rec1.status, EscrowStatus::Released);
    assert_eq!(rec2.status, EscrowStatus::Pending);
}

#[test]
fn test_donate_anonymous_success() {
    let mut s = setup_with_registries();
    let amount = 50_0000000i128;
    let offered = vec![Address(100)];
    assert_eq!(s.escrow.begin_anonymous_donation(amount, &text("teak")), Ok(s.planter_registry));
    assert_eq!(Escrow::assign_planter(&offered), Ok(Address(100)));
    assert_eq!(s.escrow.minting_registry(), Ok(s.tree_registry));
    let mut actions = Vec::new();
    let (tree_id, assigned_planter) = s
        .escrow
        .donate_anonymous(amount, s.token, text("teak"), text("kenya"), &offered, 1, 0, &mut actions)
        .unwrap();
    assert_eq!(
        actions,
        vec![
            EscrowAction::Transfer { token: s.token, from: Party::Caller, to: Party::Escrow, amount },
            EscrowAction::IncrementWorkload { registry: s.planter_registry, planter: Address(100) },
            EscrowAction::AnonymousDeposit {
                tree_id: 1,
                species: text("teak"),
                region: text("kenya"),
                amount,
                token: s.token,
                planter: Address(100),
            },
        ]
    );
    assert_eq!(tree_id, 1u64);
    assert_eq!(assigned_planter, Address(100));
    let rec = s.escrow.get_escrow(tree_id).unwrap();
    assert_eq!(rec.sponsor, None);
    assert_eq!(rec.amount, amount);
    assert_eq!(rec.species, Some(text("teak")));
    assert_eq!(rec.region, Some(text("kenya")));
    assert!(rec.is_anonymous);
    assert_eq!(rec.status, EscrowStatus::Pending);
}

#[test]
fn test_donate_anonymous_insufficient_funds() {
    let mut s = setup_with_registries();
    let amount = 5_0000000i128;
    let offered = vec![Address(100)];
    let err = s.escrow.donate_anonymous(amount, s.token, text("teak"), text("kenya"), &offered, 1, 0, &mut Vec::new()).unwrap_err();
    assert_eq!(err, EscrowError::InsufficientDonation);
    assert_eq!(err.code(), 8);
    assert!(s.escrow.get_escrow(1).is_none());
}

#[test]
fn test_donate_anonymous_no_planters() {
    let mut s = setup_with_registries();
    let amount = 50_0000000i128;
    let offered: Vec<Address> = vec![];
    let err = s.escrow.donate_anonymous(amount, s.token, text("teak"), text("antarctica"), &offered, 1, 0, &mut Vec::new()).unwrap_err();
    assert_eq!(err, EscrowError::NoPlantersAvailable);
    assert_eq!(err.code(), 9);
}

#[test]
fn test_donate_anonymous_invalid_species() {
    let mut s = setup_with_registries();
    let amount = 50_0000000i128;
    let offered = vec![Address(100)];
    let err = s.escrow.donate_anonymous(amount, s.token, text("alien"), text("kenya"), &offered, 1, 0, &mut Vec::new()).unwrap_err();
    assert_eq!(err, EscrowError::InvalidSpecies);
    assert_eq!(err.code(), 10);
}

#[test]
fn test_species_costs() {
    let _s = setup_with_registries();
    assert_eq!(Escrow::get_species_cost(&text("teak")), Ok(50_0000000i128));
    assert_eq!(Escrow::get_species_cost(&text("moringa")), Ok(10_0000000i128));
    assert_eq!(Escrow::get_species_cost(&text("eucalyptus")), Ok(35_0000000i128));
    assert_eq!(Escrow::get_species_cost(&text("mangrove")), Ok(25_0000000i128));
    assert_eq!(Escrow::get_species_cost(&text("acacia")), Ok(15_0000000i128));
    assert_eq!(Escrow::get_species_cost(&text("bamboo")), Ok(8_0000000i128));
}

#[test]
fn test_anonymous_release_works() {
    let mut s = setup_with_registries();
    let amount = 50_0000000i128;
    let planter = Address(100);
    let (tree_id, _) = s
        .escrow
        .donate_anonymous(amount, s.token, text("teak"), text("kenya"), &vec![planter], 1, 0, &mut Vec::new())
        .unwrap();
    let mut actions = Vec::new();
    s.escrow.release(tree_id, &mut actions).unwrap();
    assert_eq!(
        actions,
        vec![
            EscrowAction::Transfer { token: s.token, from: Party::Escrow, to: Party::Account(planter), amount },
            EscrowAction::DecrementWorkload { registry: s.planter_registry, planter },
            EscrowAction::FundsReleased { tree_id, planter, amount },
        ]
    );
    let rec = s.escrow.get_escrow(tree_id).unwrap();
    assert_eq!(rec.status, EscrowStatus::Released);
}

#[test]
fn test_anonymous_refund_rejected() {
    let mut s = setup_with_registries();
    let amount = 50_0000000i128;
    let (tree_id, _) = s
        .escrow
        .donate_anonymous(amount, s.token, text("teak"), text("kenya"), &vec![Address(100)], 1, 0, &mut Vec::new())
        .unwrap();
    let err = s.escrow.refund(tree_id, REFUND_WINDOW + 1, &mut Vec::new()).unwrap_err();
    assert_eq!(err, EscrowError::EscrowAlreadySettled);
    assert_eq!(err.code(), 6);
    let _ = s.sponsor;
}

// ---- further cases ----

#[test]
fn escrow_initialize_twice_is_rejected() {
    let mut s = setup();
    assert_eq!(s.escrow.initialize(Address(9)), Err(EscrowError::AlreadyInitialized));
    assert_eq!(s.escrow.require_verifier(), Ok(s.verifier));
    assert_eq!(EscrowError::AlreadyInitialized.code(), 1);
}

#[test]
fn verifier_calls_need_initialization() {
    let mut escrow = Escrow::new();
    assert_eq!(escrow.require_verifier(), Err(EscrowError::NotInitialized));
    assert_eq!(escrow.initialize_registries(Address(5), Address(6)), Err(EscrowError::NotInitialized));
    escrow.deposit(Address(2), Address(3), 1, Address(4), 10, 0, &mut Vec::new()).unwrap();
    let err = escrow.release(1, &mut Vec::new()).unwrap_err();
    assert_eq!(err, EscrowError::NotInitialized);
    assert_eq!(err.code(), 2);
    assert_eq!(escrow.get_escrow(1).unwrap().status, EscrowStatus::Pending);
}

#[test]
fn donation_without_registries_fails() {
    let mut s = setup();
    let err = s.escrow.begin_anonymous_donation(50_0000000, &text("teak")).unwrap_err();
    assert_eq!(err, EscrowError::PlanterRegistryNotSet);
    assert_eq!(err.code(), 12);
    assert_eq!(s.escrow.minting_registry(), Err(EscrowError::TreeRegistryNotSet));
    assert_eq!(EscrowError::TreeRegistryNotSet.code(), 11);
    assert_eq!(EscrowError::TreeMintingFailed.code(), 13);
    let err = s
        .escrow
        .donate_anonymous(50_0000000, s.token, text("teak"), text("kenya"), &vec![s.planter], 7, 0, &mut Vec::new())
        .unwrap_err();
    assert_eq!(err, EscrowError::PlanterRegistryNotSet);
}

#[test]
fn refund_window_edges() {
    let mut s = setup();
    s.escrow.deposit(s.sponsor, s.planter, 1, s.token, 10_000, 1_000, &mut Vec::new()).unwrap();
    assert_eq!(s.escrow.refund(1, 1_000 + REFUND_WINDOW - 1, &mut Vec::new()), Err(EscrowError::RefundWindowNotOpen));
    assert_eq!(s.escrow.refund(1, 0, &mut Vec::new()), Err(EscrowError::RefundWindowNotOpen));
    assert!(s.escrow.refund(1, 1_000 + REFUND_WINDOW, &mut Vec::new()).is_ok());
    assert_eq!(REFUND_WINDOW, 90 * 24 * 60 * 60);
}

#[test]
fn refund_checks_come_before_the_window() {
    let mut s = setup();
    assert_eq!(s.escrow.refund_claimant(5), Err(EscrowError::EscrowNotFound));
    assert_eq!(s.escrow.refund(5, 0, &mut Vec::new()), Err(EscrowError::EscrowNotFound));
    s.escrow.deposit(s.sponsor, s.planter, 5, s.token, 10, 0, &mut Vec::new()).unwrap();
    s.escrow.refund(5, REFUND_WINDOW, &mut Vec::new()).unwrap();
    assert_eq!(s.escrow.refund_claimant(5), Err(EscrowError::EscrowAlreadySettled));
    assert_eq!(s.escrow.release(5, &mut Vec::new()), Err(EscrowError::EscrowAlreadySettled));
}

#[test]
fn negative_amount_rejected() {
    let mut s = setup();
    assert_eq!(s.escrow.deposit(s.sponsor, s.planter, 1, s.token, -5, 0, &mut Vec::new()), Err(EscrowError::AmountMustBePositive));
}

#[test]
fn donation_of_exact_cost_is_accepted() {
    let mut s = setup_with_registries();
    let r = s.escrow.donate_anonymous(8_0000000, s.token, text("bamboo"), text("kenya"), &vec![Address(7), Address(8)], 3, 42, &mut Vec::new());
    assert_eq!(r, Ok((3, Address(7))));
    let rec = s.escrow.get_escrow(3).unwrap();
    assert_eq!(rec.deposit_time, 42);
    assert_eq!(rec.token, s.token);
    let _ = s.sponsor;
}

#[test]
fn escrow_restore_checks_stored_state() {
    assert!(Escrow::restore(None, Some(Address(5)), None).is_none());
    assert!(Escrow::restore(None, None, Some(Address(6))).is_none());
    let mut escrow = Escrow::restore(Some(Address(1)), None, None).unwrap();
    let mut s = setup();
    s.escrow.deposit(s.sponsor, s.planter, 4, s.token, 10, 0, &mut Vec::new()).unwrap();
    let record = s.escrow.get_escrow(4).unwrap();
    assert!(escrow.load_record(4, record.clone()));
    assert!(!escrow.load_record(4, record.clone()));
    assert_eq!(escrow.get_escrow(4).unwrap().amount, 10);
    let mut anonymous = record.clone();
    anonymous.sponsor = None;
    anonymous.is_anonymous = true;
    assert!(!escrow.load_record(5, anonymous.clone()));
    let mut with_registries = Escrow::restore(Some(Address(1)), Some(Address(5)), Some(Address(6))).unwrap();
    assert!(with_registries.load_record(5, anonymous));
    let mut empty = record;
    empty.amount = 0;
    assert!(!with_registries.load_record(6, empty));
    assert_eq!(with_registries.require_verifier(), Ok(Address(1)));
}
