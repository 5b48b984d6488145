//! Impact certificates: one non-fungible token per donor certificate, minted
//! by the admin after checking the impact it records (a positive tree count,
//! a positive CO2 offset, a planting date that is not in the future), then
//! owned, approved and transferred in the style of SEP-41.
use vstd::prelude::*;
use vstd::hash_map::StringHashMap;
use crate::common::{Address, HarvestaError};

verus! {

/// What is stored of each certificate.
#[derive(Debug)]
pub struct TokenData {
    pub owner: Address,
    /// The operator that may transfer the certificate on the owner's behalf.
    pub approved: Option<Address>,
    /// Where the certificate's metadata is published.
    pub uri: String,
}

impl Clone for TokenData {
    fn clone(&self) -> (r: Self)
        ensures
            r == *self,
    {
        TokenData { owner: self.owner, approved: self.approved, uri: self.uri.clone() }
    }
}

/// The announcements the host makes after an operation succeeds.
#[derive(Debug, PartialEq)]
pub enum CertificateAction {
    Initialized { admin: Address, name: String, symbol: String },
    CertificateMinted {
        recipient: Address,
        token_id: String,
        uri: String,
        tree_count: u32,
        co2_offset_kg: u32,
        planting_date: u64,
    },
    Approval { owner: Address, operator: Option<Address>, token_id: String },
    Transfer { from: Address, to: Address, token_id: String },
}

/// The collection's storage, as the specifications see it.
pub struct CertificateState {
    pub admin: Option<Address>,
    pub name: Option<String>,
    pub symbol: Option<String>,
    /// The certificates, by token id.
    pub tokens: Map<Seq<char>, TokenData>,
}

/// The certificate collection contract's storage.
pub struct NftCertificate {
    admin: Option<Address>,
    name: Option<String>,
    symbol: Option<String>,
    tokens: StringHashMap<TokenData>,
}

impl View for NftCertificate {
    type V = CertificateState;

    closed spec fn view(&self) -> CertificateState {
        CertificateState { admin: self.admin, name: self.name, symbol: self.symbol, tokens: self.tokens@ }
    }
}

/// The collection's well-formedness: the admin, the name and the symbol are
/// set together, and no certificate exists before them.
pub open spec fn certificate_wf(s: CertificateState) -> bool {
    &&& s.admin is Some <==> s.name is Some
    &&& s.admin is Some <==> s.symbol is Some
    &&& s.admin is None ==> s.tokens.dom().is_empty()
}

/// The collection with no storage.
pub open spec fn empty_collection() -> CertificateState {
    CertificateState { admin: None, name: None, symbol: None, tokens: Map::empty() }
}

// ---- initialize ----

pub open spec fn initialize_result(s: CertificateState) -> Result<(), HarvestaError> {
    if s.admin is Some {
        Err(HarvestaError::AlreadyInitialized)
    } else {
        Ok(())
    }
}

pub open spec fn initialize_state(s: CertificateState, admin: Address, name: String, symbol: String) -> CertificateState {
    if s.admin is Some {
        s
    } else {
        CertificateState { admin: Some(admin), name: Some(name), symbol: Some(symbol), ..s }
    }
}

pub open spec fn initialize_actions(s: CertificateState, admin: Address, name: String, symbol: String) -> Seq<CertificateAction> {
    if s.admin is Some {
        seq![]
    } else {
        seq![CertificateAction::Initialized { admin, name, symbol }]
    }
}

// ---- mint ----

pub open spec fn admin_result(s: CertificateState) -> Result<Address, HarvestaError> {
    match s.admin {
        Some(a) => Ok(a),
        None => Err(HarvestaError::NotInitialized),
    }
}

pub open spec fn mint_result(
    s: CertificateState,
    token_id: Seq<char>,
    tree_count: u32,
    co2_offset_kg: u32,
    planting_date: u64,
    now: u64,
) -> Result<(), HarvestaError> {
    if s.admin is None {
        Err(HarvestaError::NotInitialized)
    } else if s.tokens.contains_key(token_id) {
        Err(HarvestaError::TokenAlreadyMinted)
    } else if tree_count == 0 {
        Err(HarvestaError::TreeCountMustBePositive)
    } else if co2_offset_kg == 0 {
        Err(HarvestaError::Co2MustBePositive)
    } else if planting_date > now {
        Err(HarvestaError::InvalidPlantingDate)
    } else {
        Ok(())
    }
}

pub open spec fn mint_state(
    s: CertificateState,
    recipient: Address,
    token_id: Seq<char>,
    metadata_uri: String,
    tree_count: u32,
    co2_offset_kg: u32,
    planting_date: u64,
    now: u64,
) -> CertificateState {
    if mint_result(s, token_id, tree_count, co2_offset_kg, planting_date, now) is Ok {
        CertificateState {
            tokens: s.tokens.insert(token_id, TokenData { owner: recipient, approved: None, uri: metadata_uri }),
            ..s
        }
    } else {
        s
    }
}

pub open spec fn mint_actions(
    s: CertificateState,
    recipient: Address,
    token_id: String,
    metadata_uri: String,
    tree_count: u32,
    co2_offset_kg: u32,
    planting_date: u64,
    now: u64,
) -> Seq<CertificateAction> {
    if mint_result(s, token_id@, tree_count, co2_offset_kg, planting_date, now) is Ok {
        seq![CertificateAction::CertificateMinted { recipient, token_id, uri: metadata_uri, tree_count, co2_offset_kg, planting_date }]
    } else {
        seq![]
    }
}

// ---- queries ----

pub open spec fn token_of(s: CertificateState, token_id: Seq<char>) -> Option<TokenData> {
    if s.tokens.contains_key(token_id) {
        Some(s.tokens[token_id])
    } else {
        None
    }
}

pub open spec fn owner_of_spec(s: CertificateState, token_id: Seq<char>) -> Option<Address> {
    match token_of(s, token_id) {
        Some(t) => Some(t.owner),
        None => None,
    }
}

pub open spec fn uri_of(s: CertificateState, token_id: Seq<char>) -> Option<String> {
    match token_of(s, token_id) {
        Some(t) => Some(t.uri),
        None => None,
    }
}

pub open spec fn approved_of(s: CertificateState, token_id: Seq<char>) -> Option<Address> {
    match token_of(s, token_id) {
        Some(t) => t.approved,
        None => None,
    }
}

// ---- approve, transfer ----

/// The owner of an existing certificate, whose authorization an approval or
/// a transfer by the owner needs.
pub open spec fn owner_result(s: CertificateState, token_id: Seq<char>) -> Result<Address, HarvestaError> {
    match token_of(s, token_id) {
        Some(t) => Ok(t.owner),
        None => Err(HarvestaError::TokenNotFound),
    }
}

/// The result of an approval or a transfer by the owner: the certificate must
/// exist.
pub open spec fn token_check(s: CertificateState, token_id: Seq<char>) -> Result<(), HarvestaError> {
    if s.tokens.contains_key(token_id) {
        Ok(())
    } else {
        Err(HarvestaError::TokenNotFound)
    }
}

pub open spec fn approve_actions(s: CertificateState, operator: Option<Address>, token_id: String) -> Seq<CertificateAction> {
    if s.tokens.contains_key(token_id@) {
        seq![CertificateAction::Approval { owner: s.tokens[token_id@].owner, operator, token_id }]
    } else {
        seq![]
    }
}

pub open spec fn transfer_actions(s: CertificateState, to: Address, token_id: String) -> Seq<CertificateAction> {
    if s.tokens.contains_key(token_id@) {
        seq![CertificateAction::Transfer { from: s.tokens[token_id@].owner, to, token_id }]
    } else {
        seq![]
    }
}

pub open spec fn approve_state(s: CertificateState, operator: Option<Address>, token_id: Seq<char>) -> CertificateState {
    if s.tokens.contains_key(token_id) {
        CertificateState { tokens: s.tokens.insert(token_id, TokenData { approved: operator, ..s.tokens[token_id] }), ..s }
    } else {
        s
    }
}

/// `s` with the certificate handed to `to` and its approval cleared.
pub open spec fn moved(s: CertificateState, to: Address, token_id: Seq<char>) -> CertificateState {
    CertificateState {
        tokens: s.tokens.insert(token_id, TokenData { owner: to, approved: None, ..s.tokens[token_id] }),
        ..s
    }
}

pub open spec fn transfer_state(s: CertificateState, to: Address, token_id: Seq<char>) -> CertificateState {
    if s.tokens.contains_key(token_id) {
        moved(s, to, token_id)
    } else {
        s
    }
}

/// The checks of a transfer by a spender that come before the spender's
/// authorization: the certificate exists and `from` owns it.
pub open spec fn transfer_from_checks(s: CertificateState, from: Address, token_id: Seq<char>) -> Result<(), HarvestaError> {
    match token_of(s, token_id) {
        None => Err(HarvestaError::TokenNotFound),
        Some(t) => if t.owner != from {
            Err(HarvestaError::NotTokenOwner)
        } else {
            Ok(())
        },
    }
}

/// Whether `spender` may move the certificate: it is the owner or the
/// approved operator.
pub open spec fn may_spend(t: TokenData, spender: Address) -> bool {
    t.owner == spender || t.approved == Some(spender)
}

pub open spec fn transfer_from_result(s: CertificateState, spender: Address, from: Address, token_id: Seq<char>) -> Result<(), HarvestaError> {
    match transfer_from_checks(s, from, token_id) {
        Err(e) => Err(e),
        Ok(_) => if !may_spend(s.tokens[token_id], spender) {
            Err(HarvestaError::NotTokenOwner)
        } else {
            Ok(())
        },
    }
}

pub open spec fn transfer_from_actions(
    s: CertificateState,
    spender: Address,
    from: Address,
    to: Address,
    token_id: String,
) -> Seq<CertificateAction> {
    if transfer_from_result(s, spender, from, token_id@) is Ok {
        seq![CertificateAction::Transfer { from, to, token_id }]
    } else {
        seq![]
    }
}

pub open spec fn transfer_from_state(s: CertificateState, spender: Address, from: Address, to: Address, token_id: Seq<char>) -> CertificateState {
    if transfer_from_result(s, spender, from, token_id) is Ok {
        moved(s, to, token_id)
    } else {
        s
    }
}

// ---- restoring stored state ----

/// Whether a stored certificate can join `s`: the collection is initialized
/// and the id is not taken.
pub open spec fn token_fits(s: CertificateState, token_id: Seq<char>) -> bool {
    s.admin is Some && !s.tokens.contains_key(token_id)
}

impl NftCertificate {
    /// The collection before anything is stored.
    pub fn new() -> (r: NftCertificate)
        ensures
            r@ == empty_collection(),
            certificate_wf(r@),
    {
        NftCertificate { admin: None, name: None, symbol: None, tokens: StringHashMap::new() }
    }

    /// Rebuilds the collection from its stored admin, name and symbol, without
    /// certificates yet; `None` unless all three or none are given.
    pub fn restore(admin: Option<Address>, name: Option<String>, symbol: Option<String>) -> (r: Option<NftCertificate>)
        ensures
            r is Some <==> (admin is Some == name is Some && admin is Some == symbol is Some),
            r matches Some(c) ==> c@ == (CertificateState { admin, name, symbol, tokens: Map::empty() })
                && certificate_wf(c@),
    {
        if admin.is_some() != name.is_some() || admin.is_some() != symbol.is_some() {
            return None;
        }
        Some(NftCertificate { admin, name, symbol, tokens: StringHashMap::new() })
    }

    /// Adds a stored certificate when it fits (see `token_fits`); returns
    /// whether it did.
    pub fn load_token(&mut self, token_id: String, data: TokenData) -> (ok: bool)
        requires
            certificate_wf(old(self)@),
        ensures
            ok == token_fits(old(self)@, token_id@),
            final(self)@ == (if ok {
                CertificateState { tokens: old(self)@.tokens.insert(token_id@, data), ..old(self)@ }
            } else {
                old(self)@
            }),
            certificate_wf(final(self)@),
    {
        if self.admin.is_none() || self.tokens.contains_key(token_id.as_str()) {
            return false;
        }
        self.tokens.insert(token_id, data);
        true
    }

    /// Sets the admin who mints, and the collection's name and symbol, once,
    /// and announces them.
    pub fn initialize(
        &mut self,
        admin: Address,
        name: String,
        symbol: String,
        actions: &mut Vec<CertificateAction>,
    ) -> (r: Result<(), HarvestaError>)
        requires
            certificate_wf(old(self)@),
        ensures
            r == initialize_result(old(self)@),
            final(self)@ == initialize_state(old(self)@, admin, name, symbol),
            final(actions)@ == old(actions)@ + initialize_actions(old(self)@, admin, name, symbol),
            certificate_wf(final(self)@),
    {
        if self.admin.is_some() {
            assert(actions@ =~= old(actions)@ + initialize_actions(old(self)@, admin, name, symbol));
            return Err(HarvestaError::AlreadyInitialized);
        }
        actions.push(CertificateAction::Initialized { admin, name: name.clone(), symbol: symbol.clone() });
        self.admin = Some(admin);
        self.name = Some(name);
        self.symbol = Some(symbol);
        assert(actions@ =~= old(actions)@ + initialize_actions(old(self)@, admin, name, symbol));
        Ok(())
    }

    /// The admin, whose authorization a mint needs.
    pub fn require_admin(&self) -> (r: Result<Address, HarvestaError>)
        ensures
            r == admin_result(self@),
    {
        match self.admin {
            Some(a) => Ok(a),
            None => Err(HarvestaError::NotInitialized),
        }
    }

    /// Mints a certificate to `recipient` after checking its impact figures.
    /// The call needs the admin's authorization (see `require_admin`).
    pub fn mint(
        &mut self,
        recipient: Address,
        token_id: String,
        metadata_uri: String,
        tree_count: u32,
        co2_offset_kg: u32,
        planting_date: u64,
        now: u64,
        actions: &mut Vec<CertificateAction>,
    ) -> (r: Result<(), HarvestaError>)
        requires
            certificate_wf(old(self)@),
        ensures
            r == mint_result(old(self)@, token_id@, tree_count, co2_offset_kg, planting_date, now),
            final(actions)@ == old(actions)@
                + mint_actions(old(self)@, recipient, token_id, metadata_uri, tree_count, co2_offset_kg, planting_date, now),
            final(self)@ == mint_state(old(self)@, recipient, token_id@, metadata_uri, tree_count, co2_offset_kg, planting_date, now),
            certificate_wf(final(self)@),
    {
        self.require_admin()?;
        if self.tokens.contains_key(token_id.as_str()) {
            return Err(HarvestaError::TokenAlreadyMinted);
        }
        if tree_count == 0 {
            return Err(HarvestaError::TreeCountMustBePositive);
        }
        if co2_offset_kg == 0 {
            return Err(HarvestaError::Co2MustBePositive);
        }
        if planting_date > now {
            return Err(HarvestaError::InvalidPlantingDate);
        }
        actions.push(CertificateAction::CertificateMinted {
            recipient,
            token_id: token_id.clone(),
            uri: metadata_uri.clone(),
            tree_count,
            co2_offset_kg,
            planting_date,
        });
        self.tokens.insert(token_id, TokenData { owner: recipient, approved: None, uri: metadata_uri });
        assert(actions@ =~= old(actions)@
            + mint_actions(old(self)@, recipient, token_id, metadata_uri, tree_count, co2_offset_kg, planting_date, now));
        Ok(())
    }

    /// The owner of a certificate, if it exists.
    pub fn owner_of(&self, token_id: &String) -> (r: Option<Address>)
        ensures
            r == owner_of_spec(self@, token_id@),
    {
        match self.tokens.get(token_id.as_str()) {
            Some(t) => Some(t.owner),
            None => None,
        }
    }

    /// The metadata address of a certificate, if it exists.
    pub fn token_uri(&self, token_id: &String) -> (r: Option<String>)
        ensures
            r == uri_of(self@, token_id@),
    {
        match self.tokens.get(token_id.as_str()) {
            Some(t) => Some(t.uri.clone()),
            None => None,
        }
    }

    /// The approved operator of a certificate, if it exists and has one.
    pub fn get_approved(&self, token_id: &String) -> (r: Option<Address>)
        ensures
            r == approved_of(self@, token_id@),
    {
        match self.tokens.get(token_id.as_str()) {
            Some(t) => t.approved,
            None => None,
        }
    }

    /// The collection's name; it exists once the collection is initialized.
    pub fn name(&self) -> (r: String)
        requires
            self@.name is Some,
        ensures
            r == self@.name->0,
    {
        match &self.name {
            Some(n) => n.clone(),
            None => String::new(),
        }
    }

    /// The collection's symbol; it exists once the collection is initialized.
    pub fn symbol(&self) -> (r: String)
        requires
            self@.symbol is Some,
        ensures
            r == self@.symbol->0,
    {
        match &self.symbol {
            Some(s) => s.clone(),
            None => String::new(),
        }
    }

    /// The owner of an existing certificate, whose authorization `approve`
    /// and `transfer` need.
    pub fn token_owner(&self, token_id: &String) -> (r: Result<Address, HarvestaError>)
        ensures
            r == owner_result(self@, token_id@),
    {
        match self.tokens.get(token_id.as_str()) {
            Some(t) => Ok(t.owner),
            None => Err(HarvestaError::TokenNotFound),
        }
    }

    /// The owner approves `operator` (or nobody) to transfer the certificate,
    /// and announces it. The call needs the owner's authorization (see
    /// `token_owner`).
    pub fn approve(
        &mut self,
        operator: Option<Address>,
        token_id: &String,
        actions: &mut Vec<CertificateAction>,
    ) -> (r: Result<(), HarvestaError>)
        requires
            certificate_wf(old(self)@),
        ensures
            r == token_check(old(self)@, token_id@),
            final(self)@ == approve_state(old(self)@, operator, token_id@),
            final(actions)@ == old(actions)@ + approve_actions(old(self)@, operator, *token_id),
            certificate_wf(final(self)@),
    {
        let mut token = match self.tokens.get(token_id.as_str()) {
            Some(t) => t.clone(),
            None => return Err(HarvestaError::TokenNotFound),
        };
        let owner = token.owner;
        token.approved = operator;
        self.tokens.insert(token_id.clone(), token);
        actions.push(CertificateAction::Approval { owner, operator, token_id: token_id.clone() });
        assert(actions@ =~= old(actions)@ + approve_actions(old(self)@, operator, *token_id));
        Ok(())
    }

    /// The owner hands the certificate to `to`, which clears its approval,
    /// and announces it. The call needs the owner's authorization (see
    /// `token_owner`).
    pub fn transfer(&mut self, to: Address, token_id: &String, actions: &mut Vec<CertificateAction>) -> (r: Result<(), HarvestaError>)
        requires
            certificate_wf(old(self)@),
        ensures
            r == token_check(old(self)@, token_id@),
            final(self)@ == transfer_state(old(self)@, to, token_id@),
            final(actions)@ == old(actions)@ + transfer_actions(old(self)@, to, *token_id),
            certificate_wf(final(self)@),
    {
        let mut token = match self.tokens.get(token_id.as_str()) {
            Some(t) => t.clone(),
            None => return Err(HarvestaError::TokenNotFound),
        };
        let from = token.owner;
        token.owner = to;
        token.approved = None;
        self.tokens.insert(token_id.clone(), token);
        actions.push(CertificateAction::Transfer { from, to, token_id: token_id.clone() });
        assert(actions@ =~= old(actions)@ + transfer_actions(old(self)@, to, *token_id));
        Ok(())
    }

    /// The checks of `transfer_from` that come before the spender's
    /// authorization.
    pub fn check_owner(&self, from: Address, token_id: &String) -> (r: Result<(), HarvestaError>)
        ensures
            r == transfer_from_checks(self@, from, token_id@),
    {
        match self.tokens.get(token_id.as_str()) {
            Some(t) => if t.owner.0 != from.0 {
                Err(HarvestaError::NotTokenOwner)
            } else {
                Ok(())
            },
            None => Err(HarvestaError::TokenNotFound),
        }
    }

    /// `spender`, the owner or the approved operator, moves the certificate
    /// from its owner `from` to `to`, which clears its approval, and announces it. The call
    /// needs the spender's authorization (after `check_owner`).
    pub fn transfer_from(
        &mut self,
        spender: Address,
        from: Address,
        to: Address,
        token_id: &String,
        actions: &mut Vec<CertificateAction>,
    ) -> (r: Result<(), HarvestaError>)
        requires
            certificate_wf(old(self)@),
        ensures
            r == transfer_from_result(old(self)@, spender, from, token_id@),
            final(self)@ == transfer_from_state(old(self)@, spender, from, to, token_id@),
            final(actions)@ == old(actions)@ + transfer_from_actions(old(self)@, spender, from, to, *token_id),
            certificate_wf(final(self)@),
    {
        self.check_owner(from, token_id)?;
        let mut token = match self.tokens.get(token_id.as_str()) {
            Some(t) => t.clone(),
            None => return Err(HarvestaError::TokenNotFound),
        };
        let is_approved = match token.approved {
            Some(a) => a.0 == spender.0,
            None => false,
        };
        if token.owner.0 != spender.0 && !is_approved {
            return Err(HarvestaError::NotTokenOwner);
        }
        token.owner = to;
        token.approved = None;
        self.tokens.insert(token_id.clone(), token);
        actions.push(CertificateAction::Transfer { from, to, token_id: token_id.clone() });
        assert(actions@ =~= old(actions)@ + transfer_from_actions(old(self)@, spender, from, to, *token_id));
        Ok(())
    }
}

} // verus!
