//! What holds of the escrow across its operations.
use vstd::prelude::*;
use crate::common::Address;
use crate::escrow::{
    EscrowState, EscrowStatus, EscrowError, EscrowAction, Party, REFUND_WINDOW, escrow_wf, initialize_result,
    initialize_state, deposit_result, deposit_state, sponsored_record, escrow_of, release_result, release_state,
    refund_result, refund_state, refund_claimant_result, donate_result, donate_state, anonymous_record,
    species_cost, deposit_actions, donate_actions, release_actions, refund_actions,
};

verus! {

/// The verifier can be set only once: a second `initialize` fails whatever it
/// names, and leaves the state as it was.
pub proof fn lemma_initialize_once(s: EscrowState, first: Address, second: Address)
    requires
        initialize_result(s, first) is Ok,
    ensures
        initialize_result(initialize_state(s, first), second) == Err::<(), EscrowError>(EscrowError::AlreadyInitialized),
        initialize_state(initialize_state(s, first), second) == initialize_state(s, first),
{
}

/// A tree can be funded only once: after a successful deposit, another deposit
/// for the same tree fails with `EscrowAlreadyFunded`.
pub proof fn lemma_deposit_once(
    s: EscrowState,
    sponsor: Address,
    planter: Address,
    tree_id: u64,
    token: Address,
    amount: i128,
    now: u64,
    sponsor2: Address,
    planter2: Address,
    token2: Address,
    amount2: i128,
    now2: u64,
)
    requires
        deposit_result(s, tree_id, amount) is Ok,
        amount2 > 0,
    ensures
        deposit_result(deposit_state(s, sponsor, planter, tree_id, token, amount, now), tree_id, amount2)
            == Err::<(), EscrowError>(EscrowError::EscrowAlreadyFunded),
{
}

/// A deposit is stored as it was made: the escrow of the tree is a pending,
/// non-anonymous record of the sponsor, planter, token, amount and time.
pub proof fn lemma_deposit_then_get(
    s: EscrowState,
    sponsor: Address,
    planter: Address,
    tree_id: u64,
    token: Address,
    amount: i128,
    now: u64,
)
    requires
        deposit_result(s, tree_id, amount) is Ok,
    ensures
        escrow_of(deposit_state(s, sponsor, planter, tree_id, token, amount, now), tree_id)
            == Some(sponsored_record(sponsor, planter, token, amount, now)),
{
}

/// A deposit takes the deposited amount of the token from the sponsor into
/// the escrow, and releasing it pays that amount to the planter and marks the
/// escrow released.
pub proof fn lemma_release_pays_planter(
    s: EscrowState,
    sponsor: Address,
    planter: Address,
    tree_id: u64,
    token: Address,
    amount: i128,
    now: u64,
)
    requires
        s.verifier is Some,
        deposit_result(s, tree_id, amount) is Ok,
    ensures
        ({
            let d = deposit_state(s, sponsor, planter, tree_id, token, amount, now);
            &&& deposit_actions(s, sponsor, tree_id, token, amount) == seq![
                EscrowAction::Transfer { token, from: Party::Account(sponsor), to: Party::Escrow, amount },
                EscrowAction::FundsDeposited { tree_id, sponsor, token, amount },
            ]
            &&& release_result(d, tree_id) is Ok
            &&& release_actions(d, tree_id) == seq![
                EscrowAction::Transfer { token, from: Party::Escrow, to: Party::Account(planter), amount },
                EscrowAction::FundsReleased { tree_id, planter, amount },
            ]
            &&& release_state(d, tree_id).records[tree_id].status == EscrowStatus::Released
        }),
{
}

/// A sponsor's deposit can be taken back once the refund window has passed
/// since it was made, and pays the deposited amount back to the sponsor.
pub proof fn lemma_refund_after_window(
    s: EscrowState,
    sponsor: Address,
    planter: Address,
    tree_id: u64,
    token: Address,
    amount: i128,
    now: u64,
    later: u64,
)
    requires
        deposit_result(s, tree_id, amount) is Ok,
        later >= now + REFUND_WINDOW,
    ensures
        ({
            let d = deposit_state(s, sponsor, planter, tree_id, token, amount, now);
            &&& refund_result(d, tree_id, later) is Ok
            &&& refund_actions(d, tree_id, later) == seq![
                EscrowAction::Transfer { token, from: Party::Escrow, to: Party::Account(sponsor), amount },
                EscrowAction::FundsRefunded { tree_id, sponsor, amount },
            ]
            &&& refund_state(d, tree_id, later).records[tree_id].status == EscrowStatus::Refunded
        }),
{
}

/// Before the refund window has passed, a refund of a pending sponsored
/// escrow fails with `RefundWindowNotOpen`; in general a refund succeeds only
/// once the window has passed since the deposit.
pub proof fn lemma_refund_needs_window(s: EscrowState, tree_id: u64, now: u64)
    requires
        s.records.contains_key(tree_id),
    ensures
        refund_result(s, tree_id, now) is Ok ==> now >= s.records[tree_id].deposit_time + REFUND_WINDOW,
        refund_claimant_result(s, tree_id) is Ok && now < s.records[tree_id].deposit_time + REFUND_WINDOW
            ==> refund_result(s, tree_id, now) == Err::<(), EscrowError>(EscrowError::RefundWindowNotOpen),
{
}

/// Settlement is final: an escrow that was released or refunded can be
/// neither released nor refunded again, and those calls change nothing.
pub proof fn lemma_settled_is_final(s: EscrowState, tree_id: u64, now: u64)
    requires
        s.verifier is Some,
        s.records.contains_key(tree_id),
        s.records[tree_id].status != EscrowStatus::Pending,
    ensures
        release_result(s, tree_id) == Err::<(), EscrowError>(EscrowError::EscrowAlreadySettled),
        release_state(s, tree_id) == s,
        release_actions(s, tree_id) == Seq::<EscrowAction>::empty(),
        refund_actions(s, tree_id, now) == Seq::<EscrowAction>::empty(),
        refund_result(s, tree_id, now) == Err::<(), EscrowError>(EscrowError::EscrowAlreadySettled),
        refund_state(s, tree_id, now) == s,
{
}

/// A release or a refund settles the escrow, so that neither can follow.
pub proof fn lemma_payout_settles(s: EscrowState, tree_id: u64, now: u64, later: u64)
    requires
        s.verifier is Some,
    ensures
        release_result(s, tree_id) is Ok ==> {
            let t = release_state(s, tree_id);
            &&& release_result(t, tree_id) == Err::<(), EscrowError>(EscrowError::EscrowAlreadySettled)
            &&& refund_result(t, tree_id, later) == Err::<(), EscrowError>(EscrowError::EscrowAlreadySettled)
        },
        refund_result(s, tree_id, now) is Ok ==> {
            let t = refund_state(s, tree_id, now);
            &&& release_result(t, tree_id) == Err::<(), EscrowError>(EscrowError::EscrowAlreadySettled)
            &&& refund_result(t, tree_id, later) == Err::<(), EscrowError>(EscrowError::EscrowAlreadySettled)
        },
{
}

/// An anonymous donation has no sponsor to pay back: it can never be refunded.
pub proof fn lemma_anonymous_never_refunded(s: EscrowState, tree_id: u64, now: u64)
    requires
        escrow_wf(s),
        s.records.contains_key(tree_id),
        s.records[tree_id].is_anonymous,
    ensures
        refund_result(s, tree_id, now) is Err,
        refund_state(s, tree_id, now) == s,
{
}

/// Escrows of different trees are independent: depositing, donating for,
/// releasing or refunding one tree leaves the escrow of every other tree as
/// it was.
pub proof fn lemma_trees_independent(
    s: EscrowState,
    tree_id: u64,
    other: u64,
    sponsor: Address,
    planter: Address,
    token: Address,
    amount: i128,
    species: String,
    region: String,
    planters: Seq<Address>,
    now: u64,
)
    requires
        tree_id != other,
    ensures
        escrow_of(deposit_state(s, sponsor, planter, tree_id, token, amount, now), other) == escrow_of(s, other),
        escrow_of(donate_state(s, amount, token, species, region, planters, tree_id, now), other) == escrow_of(s, other),
        escrow_of(release_state(s, tree_id), other) == escrow_of(s, other),
        escrow_of(refund_state(s, tree_id, now), other) == escrow_of(s, other),
{
}

/// An anonymous donation of at least the species' cost, with a planter on
/// offer and both registries set, opens a pending anonymous escrow for the
/// minted tree, paid to the first planter offered.
pub proof fn lemma_donation_recorded(
    s: EscrowState,
    amount: i128,
    token: Address,
    species: String,
    region: String,
    planters: Seq<Address>,
    minted_tree_id: u64,
    now: u64,
)
    requires
        species_cost(species@) is Some,
        amount >= species_cost(species@)->0,
        s.planter_registry is Some,
        s.tree_registry is Some,
        planters.len() > 0,
    ensures
        donate_result(s, amount, species@, planters, minted_tree_id) == Ok::<(u64, Address), EscrowError>((minted_tree_id, planters[0])),
        escrow_of(donate_state(s, amount, token, species, region, planters, minted_tree_id, now), minted_tree_id)
            == Some(anonymous_record(planters[0], token, amount, species, region, now)),
        donate_actions(s, amount, token, species, region, planters, minted_tree_id) == seq![
            EscrowAction::Transfer { token, from: Party::Caller, to: Party::Escrow, amount },
            EscrowAction::IncrementWorkload { registry: s.planter_registry->0, planter: planters[0] },
            EscrowAction::AnonymousDeposit { tree_id: minted_tree_id, species, region, amount, token, planter: planters[0] },
        ],
{
}


/// Escrows are never dropped: every operation keeps the escrow of every tree
/// that had one, with the same sponsor, planter, token and amount, except
/// that an anonymous donation for a tree id that already has an escrow
/// replaces it.
pub proof fn lemma_escrows_kept(
    s: EscrowState,
    id: u64,
    tree_id: u64,
    sponsor: Address,
    planter: Address,
    token: Address,
    amount: i128,
    species: String,
    region: String,
    planters: Seq<Address>,
    now: u64,
)
    requires
        s.records.contains_key(id),
    ensures
        ({
            let r = s.records[id];
            let kept = |t: EscrowState| {
                &&& t.records.contains_key(id)
                &&& t.records[id].sponsor == r.sponsor
                &&& t.records[id].planter == r.planter
                &&& t.records[id].token == r.token
                &&& t.records[id].amount == r.amount
            };
            &&& kept(deposit_state(s, sponsor, planter, tree_id, token, amount, now))
            &&& kept(release_state(s, tree_id))
            &&& kept(refund_state(s, tree_id, now))
            &&& tree_id != id ==> kept(donate_state(s, amount, token, species, region, planters, tree_id, now))
        }),
{
}

/// An anonymous donation below the species' cost is refused with
/// `InsufficientDonation`, whatever else holds: no escrow is opened, nothing
/// is asked of the host, and every successful donation paid at least the
/// cost of its species.
pub proof fn lemma_donation_below_cost_refused(
    s: EscrowState,
    amount: i128,
    token: Address,
    species: String,
    region: String,
    planters: Seq<Address>,
    minted_tree_id: u64,
    now: u64,
)
    ensures
        species_cost(species@) is Some && amount < species_cost(species@)->0 ==> {
            &&& donate_result(s, amount, species@, planters, minted_tree_id)
                == Err::<(u64, Address), EscrowError>(EscrowError::InsufficientDonation)
            &&& donate_state(s, amount, token, species, region, planters, minted_tree_id, now) == s
            &&& donate_actions(s, amount, token, species, region, planters, minted_tree_id)
                == Seq::<EscrowAction>::empty()
        },
        donate_result(s, amount, species@, planters, minted_tree_id) is Ok ==> {
            &&& species_cost(species@) is Some
            &&& amount >= species_cost(species@)->0
        },
{
}

} // verus!
