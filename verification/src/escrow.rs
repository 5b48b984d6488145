//! The escrow: a sponsor's payment for a tree stays here until a verifier
//! releases it to the planter, or, after the refund window, goes back to the
//! sponsor. Anonymous donations are matched to a planter by the planter
//! registry and get their tree from the tree registry.
use vstd::prelude::*;
use vstd::hash_map::HashMapWithView;
use crate::common::Address;

verus! {

/// Seconds after a deposit before its sponsor may take it back: 90 days.
pub const REFUND_WINDOW: u64 = 7_776_000;

/// The escrow's errors, with the numeric codes under which the host reports them.
#[derive(Clone, Copy, Debug, PartialEq, Eq, Structural)]
pub enum EscrowError {
    AlreadyInitialized,
    NotInitialized,
    AmountMustBePositive,
    EscrowAlreadyFunded,
    EscrowNotFound,
    EscrowAlreadySettled,
    RefundWindowNotOpen,
    InsufficientDonation,
    NoPlantersAvailable,
    InvalidSpecies,
    TreeRegistryNotSet,
    PlanterRegistryNotSet,
    TreeMintingFailed,
}

/// The numeric code of an escrow error.
pub open spec fn escrow_error_code(e: EscrowError) -> u32 {
    match e {
        EscrowError::AlreadyInitialized => 1,
        EscrowError::NotInitialized => 2,
        EscrowError::AmountMustBePositive => 3,
        EscrowError::EscrowAlreadyFunded => 4,
        EscrowError::EscrowNotFound => 5,
        EscrowError::EscrowAlreadySettled => 6,
        EscrowError::RefundWindowNotOpen => 7,
        EscrowError::InsufficientDonation => 8,
        EscrowError::NoPlantersAvailable => 9,
        EscrowError::InvalidSpecies => 10,
        EscrowError::TreeRegistryNotSet => 11,
        EscrowError::PlanterRegistryNotSet => 12,
        EscrowError::TreeMintingFailed => 13,
    }
}

impl EscrowError {
    /// The code under which the host reports this error.
    pub fn code(&self) -> (r: u32)
        ensures
            r == escrow_error_code(*self),
    {
        match self {
            EscrowError::AlreadyInitialized => 1,
            EscrowError::NotInitialized => 2,
            EscrowError::AmountMustBePositive => 3,
            EscrowError::EscrowAlreadyFunded => 4,
            EscrowError::EscrowNotFound => 5,
            EscrowError::EscrowAlreadySettled => 6,
            EscrowError::RefundWindowNotOpen => 7,
            EscrowError::InsufficientDonation => 8,
            EscrowError::NoPlantersAvailable => 9,
            EscrowError::InvalidSpecies => 10,
            EscrowError::TreeRegistryNotSet => 11,
            EscrowError::PlanterRegistryNotSet => 12,
            EscrowError::TreeMintingFailed => 13,
        }
    }
}

/// Where the funds of an escrow are.
#[derive(Clone, Copy, Debug, PartialEq, Eq, Structural)]
pub enum EscrowStatus {
    /// Held by the escrow.
    Pending,
    /// Paid to the planter.
    Released,
    /// Paid back to the sponsor.
    Refunded,
}

/// The escrow kept for one tree.
#[derive(Debug)]
pub struct EscrowRecord {
    /// Who paid; absent for an anonymous donation.
    pub sponsor: Option<Address>,
    pub planter: Address,
    /// The token contract of the payment.
    pub token: Address,
    pub amount: i128,
    /// Ledger time of the deposit, in seconds.
    pub deposit_time: u64,
    pub status: EscrowStatus,
    pub species: Option<String>,
    pub region: Option<String>,
    pub is_anonymous: bool,
}

/// A copy of an optional text.
fn copy_text(t: &Option<String>) -> (r: Option<String>)
    ensures
        r == *t,
{
    match t {
        Some(s) => Some(s.clone()),
        None => None,
    }
}

impl Clone for EscrowRecord {
    fn clone(&self) -> (r: Self)
        ensures
            r == *self,
    {
        EscrowRecord {
            sponsor: self.sponsor,
            planter: self.planter,
            token: self.token,
            amount: self.amount,
            deposit_time: self.deposit_time,
            status: self.status,
            species: copy_text(&self.species),
            region: copy_text(&self.region),
            is_anonymous: self.is_anonymous,
        }
    }
}

/// The escrow's storage, as the contracts' specifications see it.
pub struct EscrowState {
    pub verifier: Option<Address>,
    pub tree_registry: Option<Address>,
    pub planter_registry: Option<Address>,
    /// The escrow of each tree, by tree id.
    pub records: Map<u64, EscrowRecord>,
}

/// The escrow contract's storage.
pub struct Escrow {
    verifier: Option<Address>,
    tree_registry: Option<Address>,
    planter_registry: Option<Address>,
    records: HashMapWithView<u64, EscrowRecord>,
}

impl View for Escrow {
    type V = EscrowState;

    closed spec fn view(&self) -> EscrowState {
        EscrowState {
            verifier: self.verifier,
            tree_registry: self.tree_registry,
            planter_registry: self.planter_registry,
            records: self.records@,
        }
    }
}

/// One side of a token transfer.
#[derive(Clone, Copy, Debug, PartialEq, Eq, Structural)]
pub enum Party {
    /// The escrow contract itself.
    Escrow,
    /// Whoever invoked the call.
    Caller,
    Account(Address),
}

/// What the host does after an operation succeeds, in order: token
/// transfers, calls into the planter registry, and announcements.
#[derive(Debug, PartialEq)]
pub enum EscrowAction {
    Transfer { token: Address, from: Party, to: Party, amount: i128 },
    /// The planter registry adds one to the planter's open work.
    IncrementWorkload { registry: Address, planter: Address },
    /// The planter registry takes one off the planter's open work.
    DecrementWorkload { registry: Address, planter: Address },
    FundsDeposited { tree_id: u64, sponsor: Address, token: Address, amount: i128 },
    AnonymousDeposit { tree_id: u64, species: String, region: String, amount: i128, token: Address, planter: Address },
    FundsReleased { tree_id: u64, planter: Address, amount: i128 },
    FundsRefunded { tree_id: u64, sponsor: Address, amount: i128 },
}

/// What a tree of each species costs to sponsor, in the token's smallest unit;
/// `None` for a species the escrow does not offer.
pub open spec fn species_cost(species: Seq<char>) -> Option<i128> {
    if species == "teak"@ {
        Some(500_000_000)
    } else if species == "moringa"@ {
        Some(100_000_000)
    } else if species == "eucalyptus"@ {
        Some(350_000_000)
    } else if species == "mangrove"@ {
        Some(250_000_000)
    } else if species == "acacia"@ {
        Some(150_000_000)
    } else if species == "bamboo"@ {
        Some(80_000_000)
    } else {
        None
    }
}

/// What `get_species_cost` answers.
pub open spec fn species_cost_result(species: Seq<char>) -> Result<i128, EscrowError> {
    match species_cost(species) {
        Some(c) => Ok(c),
        None => Err(EscrowError::InvalidSpecies),
    }
}

/// The escrow's well-formedness: every escrow holds a positive amount, the
/// anonymous ones are exactly those without a sponsor, and registries are
/// only set once the escrow has a verifier (an anonymous escrow needs both).
pub open spec fn escrow_wf(s: EscrowState) -> bool {
    &&& s.tree_registry is Some ==> s.verifier is Some
    &&& s.planter_registry is Some ==> s.verifier is Some
    &&& forall|id: u64| #[trigger] s.records.contains_key(id) ==> {
        let r = s.records[id];
        &&& r.amount > 0
        &&& r.is_anonymous == (r.sponsor is None)
        &&& r.is_anonymous ==> s.planter_registry is Some && s.tree_registry is Some
    }
}

/// The escrow with no storage.
pub open spec fn empty_escrow() -> EscrowState {
    EscrowState {
        verifier: None,
        tree_registry: None,
        planter_registry: None,
        records: Map::empty(),
    }
}

// ---- initialize ----

pub open spec fn initialize_result(s: EscrowState, verifier: Address) -> Result<(), EscrowError> {
    if s.verifier is Some {
        Err(EscrowError::AlreadyInitialized)
    } else {
        Ok(())
    }
}

pub open spec fn initialize_state(s: EscrowState, verifier: Address) -> EscrowState {
    if initialize_result(s, verifier) is Ok {
        EscrowState { verifier: Some(verifier), ..s }
    } else {
        s
    }
}

// ---- initialize_registries ----

/// The verifier whose authorization a verifier-only call needs.
pub open spec fn verifier_result(s: EscrowState) -> Result<Address, EscrowError> {
    match s.verifier {
        Some(v) => Ok(v),
        None => Err(EscrowError::NotInitialized),
    }
}

pub open spec fn registries_state(s: EscrowState, tree_registry: Address, planter_registry: Address) -> EscrowState {
    if s.verifier is Some {
        EscrowState {
            tree_registry: Some(tree_registry),
            planter_registry: Some(planter_registry),
            ..s
        }
    } else {
        s
    }
}

// ---- deposit ----

pub open spec fn deposit_result(s: EscrowState, tree_id: u64, amount: i128) -> Result<(), EscrowError> {
    if amount <= 0 {
        Err(EscrowError::AmountMustBePositive)
    } else if s.records.contains_key(tree_id) {
        Err(EscrowError::EscrowAlreadyFunded)
    } else {
        Ok(())
    }
}

/// The escrow that a sponsor's deposit opens.
pub open spec fn sponsored_record(sponsor: Address, planter: Address, token: Address, amount: i128, now: u64) -> EscrowRecord {
    EscrowRecord {
        sponsor: Some(sponsor),
        planter,
        token,
        amount,
        deposit_time: now,
        status: EscrowStatus::Pending,
        species: None,
        region: None,
        is_anonymous: false,
    }
}

/// What a deposit asks of the host: the payment from the sponsor, and its
/// announcement.
pub open spec fn deposit_actions(
    s: EscrowState,
    sponsor: Address,
    tree_id: u64,
    token: Address,
    amount: i128,
) -> Seq<EscrowAction> {
    if deposit_result(s, tree_id, amount) is Ok {
        seq![
            EscrowAction::Transfer { token, from: Party::Account(sponsor), to: Party::Escrow, amount },
            EscrowAction::FundsDeposited { tree_id, sponsor, token, amount },
        ]
    } else {
        seq![]
    }
}

pub open spec fn deposit_state(
    s: EscrowState,
    sponsor: Address,
    planter: Address,
    tree_id: u64,
    token: Address,
    amount: i128,
    now: u64,
) -> EscrowState {
    if deposit_result(s, tree_id, amount) is Ok {
        EscrowState {
            records: s.records.insert(tree_id, sponsored_record(sponsor, planter, token, amount, now)),
            ..s
        }
    } else {
        s
    }
}

// ---- donate_anonymous ----

/// The first checks of an anonymous donation: a known species, enough money
/// for it, and a planter registry to ask for a planter.
pub open spec fn donation_registry_result(s: EscrowState, amount: i128, species: Seq<char>) -> Result<Address, EscrowError> {
    match species_cost(species) {
        None => Err(EscrowError::InvalidSpecies),
        Some(cost) => if amount < cost {
            Err(EscrowError::InsufficientDonation)
        } else {
            match s.planter_registry {
                None => Err(EscrowError::PlanterRegistryNotSet),
                Some(reg) => Ok(reg),
            }
        },
    }
}

/// The planter chosen among those the planter registry offers: the first.
pub open spec fn chosen_planter(planters: Seq<Address>) -> Result<Address, EscrowError> {
    if planters.len() == 0 {
        Err(EscrowError::NoPlantersAvailable)
    } else {
        Ok(planters[0])
    }
}

/// The tree registry that mints the tree of an anonymous donation.
pub open spec fn minting_registry_result(s: EscrowState) -> Result<Address, EscrowError> {
    match s.tree_registry {
        Some(reg) => Ok(reg),
        None => Err(EscrowError::TreeRegistryNotSet),
    }
}

pub open spec fn donate_result(
    s: EscrowState,
    amount: i128,
    species: Seq<char>,
    planters: Seq<Address>,
    minted_tree_id: u64,
) -> Result<(u64, Address), EscrowError> {
    match donation_registry_result(s, amount, species) {
        Err(e) => Err(e),
        Ok(_) => match chosen_planter(planters) {
            Err(e) => Err(e),
            Ok(planter) => match minting_registry_result(s) {
                Err(e) => Err(e),
                Ok(_) => Ok((minted_tree_id, planter)),
            },
        },
    }
}

/// The escrow that an anonymous donation opens.
pub open spec fn anonymous_record(
    planter: Address,
    token: Address,
    amount: i128,
    species: String,
    region: String,
    now: u64,
) -> EscrowRecord {
    EscrowRecord {
        sponsor: None,
        planter,
        token,
        amount,
        deposit_time: now,
        status: EscrowStatus::Pending,
        species: Some(species),
        region: Some(region),
        is_anonymous: true,
    }
}

pub open spec fn donate_state(
    s: EscrowState,
    amount: i128,
    token: Address,
    species: String,
    region: String,
    planters: Seq<Address>,
    minted_tree_id: u64,
    now: u64,
) -> EscrowState {
    match donate_result(s, amount, species@, planters, minted_tree_id) {
        Ok((tree_id, planter)) => EscrowState {
            records: s.records.insert(tree_id, anonymous_record(planter, token, amount, species, region, now)),
            ..s
        },
        Err(_) => s,
    }
}

/// What an anonymous donation asks of the host: the payment from the caller,
/// one more open work for the planter, and the announcement.
pub open spec fn donate_actions(
    s: EscrowState,
    amount: i128,
    token: Address,
    species: String,
    region: String,
    planters: Seq<Address>,
    minted_tree_id: u64,
) -> Seq<EscrowAction> {
    match donate_result(s, amount, species@, planters, minted_tree_id) {
        Ok((tree_id, planter)) => seq![
            EscrowAction::Transfer { token, from: Party::Caller, to: Party::Escrow, amount },
            EscrowAction::IncrementWorkload { registry: s.planter_registry->0, planter },
            EscrowAction::AnonymousDeposit { tree_id, species, region, amount, token, planter },
        ],
        Err(_) => seq![],
    }
}

// ---- release ----

pub open spec fn release_result(s: EscrowState, tree_id: u64) -> Result<(), EscrowError> {
    if s.verifier is None {
        Err(EscrowError::NotInitialized)
    } else if !s.records.contains_key(tree_id) {
        Err(EscrowError::EscrowNotFound)
    } else if s.records[tree_id].status != EscrowStatus::Pending {
        Err(EscrowError::EscrowAlreadySettled)
    } else {
        Ok(())
    }
}

/// What a release asks of the host: the payment to the planter, for an
/// anonymous donation one less open work for the planter, and the
/// announcement.
pub open spec fn release_actions(s: EscrowState, tree_id: u64) -> Seq<EscrowAction> {
    if release_result(s, tree_id) is Ok {
        let r = s.records[tree_id];
        let pay = EscrowAction::Transfer { token: r.token, from: Party::Escrow, to: Party::Account(r.planter), amount: r.amount };
        let announce = EscrowAction::FundsReleased { tree_id, planter: r.planter, amount: r.amount };
        if r.is_anonymous {
            seq![pay, EscrowAction::DecrementWorkload { registry: s.planter_registry->0, planter: r.planter }, announce]
        } else {
            seq![pay, announce]
        }
    } else {
        seq![]
    }
}

/// A record with another status.
pub open spec fn with_status(r: EscrowRecord, status: EscrowStatus) -> EscrowRecord {
    EscrowRecord { status, ..r }
}

pub open spec fn release_state(s: EscrowState, tree_id: u64) -> EscrowState {
    if release_result(s, tree_id) is Ok {
        EscrowState {
            records: s.records.insert(tree_id, with_status(s.records[tree_id], EscrowStatus::Released)),
            ..s
        }
    } else {
        s
    }
}

// ---- refund ----

/// The checks of a refund before the sponsor's authorization: the escrow is
/// there, still pending, and has a sponsor to pay back.
pub open spec fn refund_claimant_result(s: EscrowState, tree_id: u64) -> Result<Address, EscrowError> {
    if !s.records.contains_key(tree_id) {
        Err(EscrowError::EscrowNotFound)
    } else if s.records[tree_id].status != EscrowStatus::Pending {
        Err(EscrowError::EscrowAlreadySettled)
    } else {
        match s.records[tree_id].sponsor {
            None => Err(EscrowError::EscrowAlreadySettled),
            Some(sponsor) => Ok(sponsor),
        }
    }
}

/// Seconds since `since`, or zero for a time in the future.
pub open spec fn elapsed(now: u64, since: u64) -> int {
    if now >= since { now - since } else { 0 }
}

pub open spec fn refund_result(s: EscrowState, tree_id: u64, now: u64) -> Result<(), EscrowError> {
    match refund_claimant_result(s, tree_id) {
        Err(e) => Err(e),
        Ok(sponsor) => if elapsed(now, s.records[tree_id].deposit_time) < REFUND_WINDOW {
            Err(EscrowError::RefundWindowNotOpen)
        } else {
            Ok(())
        },
    }
}

/// What a refund asks of the host: the payment back to the sponsor, and the
/// announcement.
pub open spec fn refund_actions(s: EscrowState, tree_id: u64, now: u64) -> Seq<EscrowAction> {
    if refund_result(s, tree_id, now) is Ok {
        let r = s.records[tree_id];
        let sponsor = r.sponsor->0;
        seq![
            EscrowAction::Transfer { token: r.token, from: Party::Escrow, to: Party::Account(sponsor), amount: r.amount },
            EscrowAction::FundsRefunded { tree_id, sponsor, amount: r.amount },
        ]
    } else {
        seq![]
    }
}

pub open spec fn refund_state(s: EscrowState, tree_id: u64, now: u64) -> EscrowState {
    if refund_result(s, tree_id, now) is Ok {
        EscrowState {
            records: s.records.insert(tree_id, with_status(s.records[tree_id], EscrowStatus::Refunded)),
            ..s
        }
    } else {
        s
    }
}

/// What `get_escrow` answers.
pub open spec fn escrow_of(s: EscrowState, tree_id: u64) -> Option<EscrowRecord> {
    if s.records.contains_key(tree_id) {
        Some(s.records[tree_id])
    } else {
        None
    }
}

// ---- restoring stored state ----

/// Whether stored settings fit together: registries only with a verifier.
pub open spec fn settings_fit(verifier: Option<Address>, tree_registry: Option<Address>, planter_registry: Option<Address>) -> bool {
    &&& tree_registry is Some ==> verifier is Some
    &&& planter_registry is Some ==> verifier is Some
}

/// Whether a stored escrow can join the state `s`: its tree has no escrow
/// yet, it holds a positive amount, it is anonymous exactly when it has no
/// sponsor, and an anonymous one comes with both registries set.
pub open spec fn record_fits(s: EscrowState, tree_id: u64, record: EscrowRecord) -> bool {
    &&& !s.records.contains_key(tree_id)
    &&& record.amount > 0
    &&& record.is_anonymous == (record.sponsor is None)
    &&& record.is_anonymous ==> s.planter_registry is Some && s.tree_registry is Some
}

impl Escrow {
    /// The escrow before anything is stored.
    pub fn new() -> (r: Escrow)
        ensures
            r@ == empty_escrow(),
            escrow_wf(r@),
    {
        proof {
            broadcast use vstd::std_specs::hash::axiom_u64_obeys_hash_table_key_model;
        }
        Escrow {
            verifier: None,
            tree_registry: None,
            planter_registry: None,
            records: HashMapWithView::new(),
        }
    }

    /// Rebuilds the escrow from stored settings, without escrows yet; `None`
    /// when the settings do not fit together.
    pub fn restore(verifier: Option<Address>, tree_registry: Option<Address>, planter_registry: Option<Address>) -> (r: Option<Escrow>)
        ensures
            r is Some <==> settings_fit(verifier, tree_registry, planter_registry),
            r matches Some(e) ==> e@ == (EscrowState { verifier, tree_registry, planter_registry, records: Map::empty() })
                && escrow_wf(e@),
    {
        let fits = (tree_registry.is_none() || verifier.is_some()) && (planter_registry.is_none() || verifier.is_some());
        if !fits {
            return None;
        }
        let mut e = Escrow::new();
        e.verifier = verifier;
        e.tree_registry = tree_registry;
        e.planter_registry = planter_registry;
        Some(e)
    }

    /// Adds a stored escrow when it fits (see `record_fits`); returns whether
    /// it did.
    pub fn load_record(&mut self, tree_id: u64, record: EscrowRecord) -> (ok: bool)
        requires
            escrow_wf(old(self)@),
        ensures
            ok == record_fits(old(self)@, tree_id, record),
            final(self)@ == (if ok {
                EscrowState { records: old(self)@.records.insert(tree_id, record), ..old(self)@ }
            } else {
                old(self)@
            }),
            escrow_wf(final(self)@),
    {
        if self.records.contains_key(&tree_id) || record.amount <= 0 {
            return false;
        }
        if record.is_anonymous != record.sponsor.is_none() {
            return false;
        }
        if record.is_anonymous && (self.planter_registry.is_none() || self.tree_registry.is_none()) {
            return false;
        }
        self.records.insert(tree_id, record);
        true
    }

    /// Sets the verifier, once.
    pub fn initialize(&mut self, verifier: Address) -> (r: Result<(), EscrowError>)
        requires
            escrow_wf(old(self)@),
        ensures
            r == initialize_result(old(self)@, verifier),
            final(self)@ == initialize_state(old(self)@, verifier),
            escrow_wf(final(self)@),
    {
        if self.verifier.is_some() {
            return Err(EscrowError::AlreadyInitialized);
        }
        self.verifier = Some(verifier);
        Ok(())
    }

    /// The verifier, whose authorization the verifier-only calls need.
    pub fn require_verifier(&self) -> (r: Result<Address, EscrowError>)
        ensures
            r == verifier_result(self@),
    {
        match self.verifier {
            Some(v) => Ok(v),
            None => Err(EscrowError::NotInitialized),
        }
    }

    /// Sets the tree and planter registries. The call needs the verifier's
    /// authorization: on success the verifier is returned.
    pub fn initialize_registries(&mut self, tree_registry: Address, planter_registry: Address) -> (r: Result<Address, EscrowError>)
        requires
            escrow_wf(old(self)@),
        ensures
            r == verifier_result(old(self)@),
            final(self)@ == registries_state(old(self)@, tree_registry, planter_registry),
            escrow_wf(final(self)@),
    {
        let verifier = self.require_verifier();
        if verifier.is_ok() {
            self.tree_registry = Some(tree_registry);
            self.planter_registry = Some(planter_registry);
        }
        verifier
    }

    /// Opens the escrow of a sponsored tree, and asks the host to move
    /// `amount` of `token` from the sponsor to the escrow. The host has the
    /// sponsor's authorization before the call.
    pub fn deposit(
        &mut self,
        sponsor: Address,
        planter: Address,
        tree_id: u64,
        token: Address,
        amount: i128,
        now: u64,
        actions: &mut Vec<EscrowAction>,
    ) -> (r: Result<(), EscrowError>)
        requires
            escrow_wf(old(self)@),
        ensures
            r == deposit_result(old(self)@, tree_id, amount),
            final(self)@ == deposit_state(old(self)@, sponsor, planter, tree_id, token, amount, now),
            final(actions)@ == old(actions)@ + deposit_actions(old(self)@, sponsor, tree_id, token, amount),
            escrow_wf(final(self)@),
    {
        if amount <= 0 {
            return Err(EscrowError::AmountMustBePositive);
        }
        if self.records.contains_key(&tree_id) {
            return Err(EscrowError::EscrowAlreadyFunded);
        }
        let record = EscrowRecord {
            sponsor: Some(sponsor),
            planter,
            token,
            amount,
            deposit_time: now,
            status: EscrowStatus::Pending,
            species: None,
            region: None,
            is_anonymous: false,
        };
        self.records.insert(tree_id, record);
        actions.push(EscrowAction::Transfer { token, from: Party::Account(sponsor), to: Party::Escrow, amount });
        actions.push(EscrowAction::FundsDeposited { tree_id, sponsor, token, amount });
        assert(actions@ =~= old(actions)@ + deposit_actions(old(self)@, sponsor, tree_id, token, amount));
        Ok(())
    }

    /// What sponsoring a tree of `species` costs.
    pub fn get_species_cost(species: &String) -> (r: Result<i128, EscrowError>)
        ensures
            r == species_cost_result(species@),
    {
        let teak = "teak".to_owned();
        let moringa = "moringa".to_owned();
        let eucalyptus = "eucalyptus".to_owned();
        let mangrove = "mangrove".to_owned();
        let acacia = "acacia".to_owned();
        let bamboo = "bamboo".to_owned();
        if *species == teak {
            Ok(500_000_000)
        } else if *species == moringa {
            Ok(100_000_000)
        } else if *species == eucalyptus {
            Ok(350_000_000)
        } else if *species == mangrove {
            Ok(250_000_000)
        } else if *species == acacia {
            Ok(150_000_000)
        } else if *species == bamboo {
            Ok(80_000_000)
        } else {
            Err(EscrowError::InvalidSpecies)
        }
    }

    /// The first step of an anonymous donation: checks the species and the
    /// amount, and names the planter registry to ask for available planters.
    pub fn begin_anonymous_donation(&self, amount: i128, species: &String) -> (r: Result<Address, EscrowError>)
        ensures
            r == donation_registry_result(self@, amount, species@),
    {
        let cost = Self::get_species_cost(species)?;
        if amount < cost {
            return Err(EscrowError::InsufficientDonation);
        }
        match self.planter_registry {
            Some(reg) => Ok(reg),
            None => Err(EscrowError::PlanterRegistryNotSet),
        }
    }

    /// The planter given the tree of an anonymous donation: the first of those
    /// the planter registry offers.
    pub fn assign_planter(planters: &Vec<Address>) -> (r: Result<Address, EscrowError>)
        ensures
            r == chosen_planter(planters@),
    {
        if planters.len() == 0 {
            Err(EscrowError::NoPlantersAvailable)
        } else {
            Ok(planters[0])
        }
    }

    /// The tree registry that mints the tree of an anonymous donation.
    pub fn minting_registry(&self) -> (r: Result<Address, EscrowError>)
        ensures
            r == minting_registry_result(self@),
    {
        match self.tree_registry {
            Some(reg) => Ok(reg),
            None => Err(EscrowError::TreeRegistryNotSet),
        }
    }

    /// Records an anonymous donation. `planters` are the planters that the
    /// planter registry offered for the region, and `minted_tree_id` the id
    /// under which the tree registry minted the tree for the chosen planter.
    /// Returns that id and the planter, and asks the host to move `amount`
    /// of `token` from the caller to the escrow and the planter registry to
    /// add one to the planter's open work.
    pub fn donate_anonymous(
        &mut self,
        amount: i128,
        token: Address,
        species: String,
        region: String,
        planters: &Vec<Address>,
        minted_tree_id: u64,
        now: u64,
        actions: &mut Vec<EscrowAction>,
    ) -> (r: Result<(u64, Address), EscrowError>)
        requires
            escrow_wf(old(self)@),
        ensures
            r == donate_result(old(self)@, amount, species@, planters@, minted_tree_id),
            final(self)@ == donate_state(old(self)@, amount, token, species, region, planters@, minted_tree_id, now),
            final(actions)@ == old(actions)@ + donate_actions(old(self)@, amount, token, species, region, planters@, minted_tree_id),
            escrow_wf(final(self)@),
    {
        let registry = self.begin_anonymous_donation(amount, &species)?;
        let planter = Self::assign_planter(planters)?;
        let _minter = self.minting_registry()?;
        let announce = EscrowAction::AnonymousDeposit {
            tree_id: minted_tree_id,
            species: species.clone(),
            region: region.clone(),
            amount,
            token,
            planter,
        };
        let record = EscrowRecord {
            sponsor: None,
            planter,
            token,
            amount,
            deposit_time: now,
            status: EscrowStatus::Pending,
            species: Some(species),
            region: Some(region),
            is_anonymous: true,
        };
        self.records.insert(minted_tree_id, record);
        actions.push(EscrowAction::Transfer { token, from: Party::Caller, to: Party::Escrow, amount });
        actions.push(EscrowAction::IncrementWorkload { registry, planter });
        actions.push(announce);
        assert(actions@ =~= old(actions)@ + donate_actions(old(self)@, amount, token, species, region, planters@, minted_tree_id));
        Ok((minted_tree_id, planter))
    }

    /// Settles a pending escrow in the planter's favour, and asks the host to
    /// pay it out. The call needs the verifier's authorization (see
    /// `require_verifier`).
    pub fn release(&mut self, tree_id: u64, actions: &mut Vec<EscrowAction>) -> (r: Result<(), EscrowError>)
        requires
            escrow_wf(old(self)@),
        ensures
            r == release_result(old(self)@, tree_id),
            final(self)@ == release_state(old(self)@, tree_id),
            final(actions)@ == old(actions)@ + release_actions(old(self)@, tree_id),
            escrow_wf(final(self)@),
    {
        if self.verifier.is_none() {
            return Err(EscrowError::NotInitialized);
        }
        let mut record = match self.records.get(&tree_id) {
            Some(rec) => rec.clone(),
            None => return Err(EscrowError::EscrowNotFound),
        };
        if record.status != EscrowStatus::Pending {
            return Err(EscrowError::EscrowAlreadySettled);
        }
        let token = record.token;
        let planter = record.planter;
        let amount = record.amount;
        let anonymous = record.is_anonymous;
        record.status = EscrowStatus::Released;
        self.records.insert(tree_id, record);
        actions.push(EscrowAction::Transfer { token, from: Party::Escrow, to: Party::Account(planter), amount });
        if anonymous {
            match self.planter_registry {
                Some(registry) => actions.push(EscrowAction::DecrementWorkload { registry, planter }),
                None => {},
            }
        }
        actions.push(EscrowAction::FundsReleased { tree_id, planter, amount });
        assert(actions@ =~= old(actions)@ + release_actions(old(self)@, tree_id));
        Ok(())
    }

    /// The sponsor who may take back a pending escrow, whose authorization a
    /// refund needs.
    pub fn refund_claimant(&self, tree_id: u64) -> (r: Result<Address, EscrowError>)
        ensures
            r == refund_claimant_result(self@, tree_id),
    {
        let record = match self.records.get(&tree_id) {
            Some(rec) => rec,
            None => return Err(EscrowError::EscrowNotFound),
        };
        if record.status != EscrowStatus::Pending {
            return Err(EscrowError::EscrowAlreadySettled);
        }
        match record.sponsor {
            Some(sponsor) => Ok(sponsor),
            None => Err(EscrowError::EscrowAlreadySettled),
        }
    }

    /// Settles a pending escrow in the sponsor's favour once the refund
    /// window has passed, and asks the host to pay it back. The call needs
    /// the sponsor's authorization (see `refund_claimant`).
    pub fn refund(&mut self, tree_id: u64, now: u64, actions: &mut Vec<EscrowAction>) -> (r: Result<(), EscrowError>)
        requires
            escrow_wf(old(self)@),
        ensures
            r == refund_result(old(self)@, tree_id, now),
            final(self)@ == refund_state(old(self)@, tree_id, now),
            final(actions)@ == old(actions)@ + refund_actions(old(self)@, tree_id, now),
            escrow_wf(final(self)@),
    {
        let sponsor = self.refund_claimant(tree_id)?;
        let mut record = match self.records.get(&tree_id) {
            Some(rec) => rec.clone(),
            None => return Err(EscrowError::EscrowNotFound),
        };
        let elapsed = now.saturating_sub(record.deposit_time);
        if elapsed < REFUND_WINDOW {
            return Err(EscrowError::RefundWindowNotOpen);
        }
        let token = record.token;
        let amount = record.amount;
        record.status = EscrowStatus::Refunded;
        self.records.insert(tree_id, record);
        actions.push(EscrowAction::Transfer { token, from: Party::Escrow, to: Party::Account(sponsor), amount });
        actions.push(EscrowAction::FundsRefunded { tree_id, sponsor, amount });
        assert(actions@ =~= old(actions)@ + refund_actions(old(self)@, tree_id, now));
        Ok(())
    }

    /// The escrow of a tree, if there is one.
    pub fn get_escrow(&self, tree_id: u64) -> (r: Option<EscrowRecord>)
        ensures
            r == escrow_of(self@, tree_id),
    {
        match self.records.get(&tree_id) {
            Some(rec) => Some(rec.clone()),
            None => None,
        }
    }
}

} // verus!
