use harvesta::common::{Address, HarvestaError};
use harvesta::nft_certificate::{CertificateAction, NftCertificate};

fn setup() -> (Address, Address, NftCertificate) {
    let mut client = NftCertificate::new();
    let admin = Address(1);
    let recipient = Address(2);
    client
        .initialize(admin, "Harvesta Impact Certificate".to_string(), "HIC".to_string(), &mut Vec::new())
        .unwrap();
    (admin, recipient, client)
}

fn token_id() -> String {
    "abc123".to_string()
}

fn uri() -> String {
    "https://example.com/metadata/abc123.json".to_string()
}

#[test]
fn test_initialize() {
    let (_, _, client) = setup();
    assert_eq!(client.name(), "Harvesta Impact Certificate".to_string());
    assert_eq!(client.symbol(), "HIC".to_string());
}

#[test]
fn test_mint_valid_certificate() {
    let (admin, recipient, mut client) = setup();
    let id = token_id();
    let metadata = uri();
    let now = 0u64;
    assert_eq!(client.require_admin(), Ok(admin));
    let mut actions = Vec::new();
    client.mint(recipient, id.clone(), metadata.clone(), 100, 4800, now, now, &mut actions).unwrap();
    assert_eq!(
        actions,
        vec![CertificateAction::CertificateMinted {
            recipient,
            token_id: id.clone(),
            uri: metadata.clone(),
            tree_count: 100,
            co2_offset_kg: 4800,
            planting_date: now,
        }]
    );
    assert_eq!(client.owner_of(&id), Some(recipient));
    assert_eq!(client.token_uri(&id), Some(metadata));
}

#[test]
fn test_duplicate_token_rejected() {
    let (_, recipient, mut client) = setup();
    let id = token_id();
    let metadata = uri();
    let now = 0u64;
    client.mint(recipient, id.clone(), metadata.clone(), 100, 4800, now, now, &mut Vec::new()).unwrap();
    let err = client.mint(recipient, id.clone(), metadata, 50, 2400, now, now, &mut Vec::new()).unwrap_err();
    assert_eq!(err, HarvestaError::TokenAlreadyMinted);
}

#[test]
fn test_zero_tree_count_rejected() {
    let (_, recipient, mut client) = setup();
    let err = client.mint(recipient, token_id(), uri(), 0, 4800, 0, 0, &mut Vec::new()).unwrap_err();
    assert_eq!(err, HarvestaError::TreeCountMustBePositive);
    assert_eq!(client.owner_of(&token_id()), None);
}

#[test]
fn test_zero_co2_offset_rejected() {
    let (_, recipient, mut client) = setup();
    let err = client.mint(recipient, token_id(), uri(), 100, 0, 0, 0, &mut Vec::new()).unwrap_err();
    assert_eq!(err, HarvestaError::Co2MustBePositive);
}

#[test]
fn test_future_planting_date_rejected() {
    let (_, recipient, mut client) = setup();
    let now = 0u64;
    let err = client.mint(recipient, token_id(), uri(), 100, 4800, now + 1, now, &mut Vec::new()).unwrap_err();
    assert_eq!(err, HarvestaError::InvalidPlantingDate);
}

#[test]
fn test_transfer() {
    let (_, recipient, mut client) = setup();
    let new_owner = Address(3);
    let id = token_id();
    client.mint(recipient, id.clone(), uri(), 100, 4800, 0, 0, &mut Vec::new()).unwrap();
    assert_eq!(client.token_owner(&id), Ok(recipient));
    let mut actions = Vec::new();
    assert_eq!(client.transfer(new_owner, &id, &mut actions), Ok(()));
    assert_eq!(actions, vec![CertificateAction::Transfer { from: recipient, to: new_owner, token_id: id.clone() }]);
    assert_eq!(client.owner_of(&id), Some(new_owner));
}

// ---- further cases ----

#[test]
fn certificate_initialize_twice_is_rejected() {
    let (admin, _, mut client) = setup();
    assert_eq!(client.initialize(Address(9), "x".to_string(), "y".to_string(), &mut Vec::new()), Err(HarvestaError::AlreadyInitialized));
    assert_eq!(client.require_admin(), Ok(admin));
    assert_eq!(client.name(), "Harvesta Impact Certificate".to_string());
}

#[test]
fn certificate_mint_needs_initialization() {
    let mut client = NftCertificate::new();
    assert_eq!(client.require_admin(), Err(HarvestaError::NotInitialized));
    assert_eq!(client.mint(Address(2), token_id(), uri(), 1, 1, 0, 0, &mut Vec::new()), Err(HarvestaError::NotInitialized));
}

#[test]
fn past_planting_date_is_accepted() {
    let (_, recipient, mut client) = setup();
    assert!(client.mint(recipient, token_id(), uri(), 1, 1, 50, 100, &mut Vec::new()).is_ok());
}

#[test]
fn unknown_token_reads_nothing_and_cannot_move() {
    let (_, _, mut client) = setup();
    let id = "missing".to_string();
    assert_eq!(client.owner_of(&id), None);
    assert_eq!(client.token_uri(&id), None);
    assert_eq!(client.get_approved(&id), None);
    assert_eq!(client.token_owner(&id), Err(HarvestaError::TokenNotFound));
    assert_eq!(client.approve(Some(Address(5)), &id, &mut Vec::new()), Err(HarvestaError::TokenNotFound));
    assert_eq!(client.transfer(Address(5), &id, &mut Vec::new()), Err(HarvestaError::TokenNotFound));
    assert_eq!(client.transfer_from(Address(5), Address(2), Address(6), &id, &mut Vec::new()), Err(HarvestaError::TokenNotFound));
}

#[test]
fn approved_operator_transfers_once() {
    let (_, owner, mut client) = setup();
    let id = token_id();
    let operator = Address(7);
    let buyer = Address(8);
    client.mint(owner, id.clone(), uri(), 10, 480, 0, 0, &mut Vec::new()).unwrap();
    let mut actions = Vec::new();
    assert_eq!(client.approve(Some(operator), &id, &mut actions), Ok(()));
    assert_eq!(actions, vec![CertificateAction::Approval { owner, operator: Some(operator), token_id: id.clone() }]);
    assert_eq!(client.get_approved(&id), Some(operator));
    assert_eq!(client.check_owner(owner, &id), Ok(()));
    assert_eq!(client.transfer_from(operator, owner, buyer, &id, &mut Vec::new()), Ok(()));
    assert_eq!(client.owner_of(&id), Some(buyer));
    assert_eq!(client.get_approved(&id), None);
    assert_eq!(client.transfer_from(operator, buyer, owner, &id, &mut Vec::new()), Err(HarvestaError::NotTokenOwner));
    assert_eq!(client.token_uri(&id), Some(uri()));
}

#[test]
fn transfer_from_checks_owner_and_spender() {
    let (_, owner, mut client) = setup();
    let id = token_id();
    client.mint(owner, id.clone(), uri(), 10, 480, 0, 0, &mut Vec::new()).unwrap();
    assert_eq!(client.check_owner(Address(9), &id), Err(HarvestaError::NotTokenOwner));
    assert_eq!(client.transfer_from(owner, Address(9), Address(8), &id, &mut Vec::new()), Err(HarvestaError::NotTokenOwner));
    assert_eq!(client.transfer_from(Address(9), owner, Address(8), &id, &mut Vec::new()), Err(HarvestaError::NotTokenOwner));
    assert_eq!(client.owner_of(&id), Some(owner));
    assert_eq!(client.transfer_from(owner, owner, Address(8), &id, &mut Vec::new()), Ok(()));
    assert_eq!(client.owner_of(&id), Some(Address(8)));
}

#[test]
fn transfer_clears_approval() {
    let (_, owner, mut client) = setup();
    let id = token_id();
    client.mint(owner, id.clone(), uri(), 10, 480, 0, 0, &mut Vec::new()).unwrap();
    client.approve(Some(Address(7)), &id, &mut Vec::new()).unwrap();
    client.transfer(Address(8), &id, &mut Vec::new()).unwrap();
    assert_eq!(client.get_approved(&id), None);
    client.approve(Some(Address(7)), &id, &mut Vec::new()).unwrap();
    client.approve(None, &id, &mut Vec::new()).unwrap();
    assert_eq!(client.get_approved(&id), None);
}

#[test]
fn certificate_restore_checks_stored_state() {
    assert!(NftCertificate::restore(Some(Address(1)), None, Some("HIC".to_string())).is_none());
    let mut empty = NftCertificate::restore(None, None, None).unwrap();
    let (_, owner, mut source) = setup();
    source.mint(owner, token_id(), uri(), 1, 1, 0, 0, &mut Vec::new()).unwrap();
    let data = harvesta::nft_certificate::TokenData { owner, approved: None, uri: uri() };
    assert!(!empty.load_token(token_id(), data.clone()));
    let mut client = NftCertificate::restore(Some(Address(1)), Some("n".to_string()), Some("s".to_string())).unwrap();
    assert!(client.load_token(token_id(), data.clone()));
    assert!(!client.load_token(token_id(), data));
    assert_eq!(client.owner_of(&token_id()), source.owner_of(&token_id()));
    assert_eq!(client.symbol(), "s".to_string());
}

#[test]
fn shared_error_codes() {
    assert_eq!(HarvestaError::TreeCountMustBePositive.code(), Some(10));
    assert_eq!(HarvestaError::Co2MustBePositive.code(), Some(62));
    assert_eq!(HarvestaError::TokenAlreadyMinted.code(), Some(90));
    assert_eq!(HarvestaError::InvalidPlantingDate.code(), Some(91));
    assert_eq!(HarvestaError::NotInitialized.code(), None);
}
