//! What holds of the certificate collection across its operations.
use vstd::prelude::*;
use crate::common::{Address, HarvestaError};
use crate::nft_certificate::{
    CertificateState, initialize_result, initialize_state, mint_result, mint_state, owner_of_spec,
    uri_of, approved_of, approve_state, transfer_state, transfer_from_result, transfer_from_state,
    owner_result,
};

verus! {

/// The admin, name and symbol can be set only once.
pub proof fn lemma_initialize_once(s: CertificateState, admin: Address, name: String, symbol: String, admin2: Address, name2: String, symbol2: String)
    requires
        initialize_result(s) is Ok,
    ensures
        initialize_state(s, admin, name, symbol).name == Some(name),
        initialize_state(s, admin, name, symbol).symbol == Some(symbol),
        initialize_result(initialize_state(s, admin, name, symbol)) == Err::<(), HarvestaError>(HarvestaError::AlreadyInitialized),
        initialize_state(initialize_state(s, admin, name, symbol), admin2, name2, symbol2) == initialize_state(s, admin, name, symbol),
{
}

/// A minted certificate belongs to its recipient, points at its metadata,
/// has no approved operator, and its id cannot be minted again.
pub proof fn lemma_mint_then_read(
    s: CertificateState,
    recipient: Address,
    token_id: Seq<char>,
    uri: String,
    tree_count: u32,
    co2_offset_kg: u32,
    planting_date: u64,
    now: u64,
    tree_count2: u32,
    co2_offset_kg2: u32,
    planting_date2: u64,
    now2: u64,
)
    requires
        mint_result(s, token_id, tree_count, co2_offset_kg, planting_date, now) is Ok,
    ensures
        ({
            let t = mint_state(s, recipient, token_id, uri, tree_count, co2_offset_kg, planting_date, now);
            &&& owner_of_spec(t, token_id) == Some(recipient)
            &&& uri_of(t, token_id) == Some(uri)
            &&& approved_of(t, token_id) == None::<Address>
            &&& mint_result(t, token_id, tree_count2, co2_offset_kg2, planting_date2, now2)
                == Err::<(), HarvestaError>(HarvestaError::TokenAlreadyMinted)
        }),
{
}

/// A mint succeeds only with a positive tree count, a positive CO2 offset and
/// a planting date that is not in the future.
pub proof fn lemma_mint_validates_impact(
    s: CertificateState,
    token_id: Seq<char>,
    tree_count: u32,
    co2_offset_kg: u32,
    planting_date: u64,
    now: u64,
)
    ensures
        mint_result(s, token_id, tree_count, co2_offset_kg, planting_date, now) is Ok
            ==> tree_count > 0 && co2_offset_kg > 0 && planting_date <= now,
{
}

/// A certificate's metadata never changes once minted: approvals and
/// transfers keep it, and so does minting another certificate.
pub proof fn lemma_uri_is_permanent(
    s: CertificateState,
    token_id: Seq<char>,
    other_id: Seq<char>,
    operator: Option<Address>,
    spender: Address,
    from: Address,
    to: Address,
    recipient: Address,
    uri: String,
    tree_count: u32,
    co2_offset_kg: u32,
    planting_date: u64,
    now: u64,
)
    requires
        s.tokens.contains_key(token_id),
    ensures
        uri_of(approve_state(s, operator, other_id), token_id) == uri_of(s, token_id),
        uri_of(transfer_state(s, to, other_id), token_id) == uri_of(s, token_id),
        uri_of(transfer_from_state(s, spender, from, to, other_id), token_id) == uri_of(s, token_id),
        uri_of(mint_state(s, recipient, other_id, uri, tree_count, co2_offset_kg, planting_date, now), token_id)
            == uri_of(s, token_id),
{
}

/// A transfer by the owner hands the certificate to the recipient and clears
/// its approval.
pub proof fn lemma_transfer_moves_ownership(s: CertificateState, to: Address, token_id: Seq<char>)
    requires
        s.tokens.contains_key(token_id),
    ensures
        owner_of_spec(transfer_state(s, to, token_id), token_id) == Some(to),
        approved_of(transfer_state(s, to, token_id), token_id) == None::<Address>,
        owner_result(s, token_id) == Ok::<Address, HarvestaError>(s.tokens[token_id].owner),
{
}

/// Only the owner or the approved operator can move a certificate, and the
/// approval is spent by the move: an approved operator can transfer once, and
/// then no longer.
pub proof fn lemma_approval_is_spent(
    s: CertificateState,
    owner: Address,
    operator: Address,
    to: Address,
    onward: Address,
    token_id: Seq<char>,
)
    requires
        s.tokens.contains_key(token_id),
        s.tokens[token_id].owner == owner,
        operator != owner,
        operator != to,
    ensures
        ({
            let a = approve_state(s, Some(operator), token_id);
            let t = transfer_from_state(a, operator, owner, to, token_id);
            &&& transfer_from_result(a, operator, owner, token_id) is Ok
            &&& owner_of_spec(t, token_id) == Some(to)
            &&& transfer_from_result(t, operator, to, token_id) == Err::<(), HarvestaError>(HarvestaError::NotTokenOwner)
        }),
{
}

/// A spender who is neither the owner nor the approved operator cannot move
/// a certificate, and the attempt changes nothing.
pub proof fn lemma_stranger_cannot_transfer(
    s: CertificateState,
    spender: Address,
    from: Address,
    to: Address,
    token_id: Seq<char>,
)
    requires
        s.tokens.contains_key(token_id),
        s.tokens[token_id].owner != spender,
        s.tokens[token_id].approved != Some(spender),
    ensures
        transfer_from_result(s, spender, from, token_id) is Err,
        transfer_from_state(s, spender, from, to, token_id) == s,
{
}

/// `owner_of` reports the stored owner of an existing certificate and nothing
/// for an unknown id; approving an operator, or clearing the approval, of any
/// certificate changes the owner of none.
pub proof fn lemma_owner_of_is_the_owner(
    s: CertificateState,
    token_id: Seq<char>,
    operator: Option<Address>,
    approved_id: Seq<char>,
)
    ensures
        s.tokens.contains_key(token_id) ==> owner_of_spec(s, token_id) == Some(s.tokens[token_id].owner),
        !s.tokens.contains_key(token_id) ==> owner_of_spec(s, token_id) == None::<Address>,
        owner_of_spec(approve_state(s, operator, approved_id), token_id) == owner_of_spec(s, token_id),
{
}

} // verus!
