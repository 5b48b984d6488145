//! What holds of the tree registry across its operations.
use vstd::prelude::*;
use crate::common::{Address, HarvestaError};
use crate::tree_registry::{
    RegistryState, RegistryFailure, TreeRecord, TreeStatus, TreeRegistryError, SpeciesInfo, RegistryAction, ONE_YEAR_SECS,
    initialize_result, initialize_state, mint_result, mint_state, minted_record, tree_of, ids_where, trees_where,
    species_where, text_in, species_ids, species_status_ids, of_species, shared, own, verify_actions, verify_state,
    verify_checks, claim_result, claim_state, claim_checks, pause_state, without, add_verifier_state,
    add_verifier_actions, remove_verifier_state, mint_actions, claim_actions, score_of, registry_wf, register_species_result,
    register_species_state, update_species_result, unregister_species_result, species_info_of, lemma_verify_wf,
    co2_credits, of_sponsor, of_species_in_region, of_region, every_tree,
};

verus! {

/// The admin and the escrow contract can be set only once.
pub proof fn lemma_initialize_once(s: RegistryState, admin: Address, escrow: Address, admin2: Address, escrow2: Address)
    requires
        initialize_result(s) is Ok,
    ensures
        initialize_result(initialize_state(s, admin, escrow)) == Err::<(), RegistryFailure>(shared(HarvestaError::AlreadyInitialized)),
        initialize_state(initialize_state(s, admin, escrow), admin2, escrow2) == initialize_state(s, admin, escrow),
{
}

/// Trees get consecutive ids: a mint returns the number of trees minted
/// before it, stores the new tree under that id as planted by the given
/// planter for the given sponsor, and leaves every earlier tree as it was.
pub proof fn lemma_mint_assigns_next_id(
    s: RegistryState,
    sponsor: Address,
    species: String,
    region: String,
    planter: Address,
    now: u64,
    earlier: u64,
)
    requires
        mint_result(s) is Ok,
        s.trees.len() < u64::MAX,
        earlier < s.trees.len(),
    ensures
        ({
            let t = mint_state(s, sponsor, species, region, planter, now);
            let id = s.trees.len() as u64;
            &&& mint_result(s) == Ok::<u64, RegistryFailure>(id)
            &&& t.trees.len() == s.trees.len() + 1
            &&& tree_of(t, id) == Some(minted_record(id, sponsor, species, region, planter, now))
            &&& tree_of(t, earlier) == tree_of(s, earlier)
            &&& mint_actions(s, sponsor, species, region, planter)
                == seq![RegistryAction::TreeMinted { tree_id: id, sponsor, species, region, planter }]
        }),
{
}

/// The answer of an index is exact and ordered: it holds the id of a tree if
/// and only if the tree is selected, and lists the ids in increasing order.
pub proof fn lemma_ids_where_exact(trees: Seq<TreeRecord>, keep: spec_fn(TreeRecord) -> bool)
    requires
        trees.len() <= u64::MAX,
    ensures
        forall|k: u64| #[trigger] ids_where(trees, keep).contains(k) <==> (k < trees.len() && keep(trees[k as int])),
        forall|i: int, j: int|
            0 <= i < j < ids_where(trees, keep).len() ==> #[trigger] ids_where(trees, keep)[i] < #[trigger] ids_where(trees, keep)[j],
        forall|i: int| 0 <= i < ids_where(trees, keep).len() ==> #[trigger] ids_where(trees, keep)[i] < trees.len(),
    decreases trees.len(),
{
    if trees.len() > 0 {
        let prev = trees.drop_last();
        let n = (trees.len() - 1) as u64;
        lemma_ids_where_exact(prev, keep);
        let p = ids_where(prev, keep);
        let o = ids_where(trees, keep);
        if keep(trees.last()) {
            assert(o == p.push(n));
        } else {
            assert(o == p);
        }
        assert forall|k: u64| #[trigger] o.contains(k) <==> (k < trees.len() && keep(trees[k as int])) by {
            if k < prev.len() {
                assert(trees[k as int] == prev[k as int]);
            }
            if o.contains(k) {
                let j = choose|j: int| 0 <= j < o.len() && o[j] == k;
                if j < p.len() {
                    assert(p[j] == k);
                    assert(p.contains(k));
                }
            }
            if k < trees.len() && keep(trees[k as int]) {
                if k < prev.len() {
                    assert(p.contains(k));
                    let j = choose|j: int| 0 <= j < p.len() && p[j] == k;
                    assert(o[j] == k);
                } else {
                    assert(o[p.len() as int] == k);
                }
            }
        }
        assert forall|i: int, j: int| 0 <= i < j < o.len() implies #[trigger] o[i] < #[trigger] o[j] by {
            if j < p.len() {
                assert(o[i] == p[i] && o[j] == p[j]);
            } else {
                assert(o[i] == p[i]);
                assert(p[i] < prev.len());
            }
        }
        assert forall|i: int| 0 <= i < o.len() implies #[trigger] o[i] < trees.len() by {
            if i < p.len() {
                assert(o[i] == p[i]);
            }
        }
    }
}

/// The trees of a species are exactly those whose species reads so, and the
/// species' count is their number.
pub proof fn lemma_species_index_exact(s: RegistryState, species: Seq<char>, id: u64)
    requires
        registry_wf(s),
    ensures
        species_ids(s, species).contains(id) <==> (id < s.trees.len() && s.trees[id as int].species@ == species),
        species_status_ids(s, species, TreeStatus::Planted) == species_ids(s, species),
{
    lemma_ids_where_exact(s.trees, of_species(species));
}

/// A mint adds the new id at the end of the answers of the indexes that
/// select the new tree (its species, its species and region, its sponsor) and
/// leaves the other answers as they were.
pub proof fn lemma_mint_extends_indexes(
    s: RegistryState,
    sponsor: Address,
    species: String,
    region: String,
    planter: Address,
    now: u64,
    keep: spec_fn(TreeRecord) -> bool,
)
    requires
        mint_result(s) is Ok,
        s.trees.len() < u64::MAX,
    ensures
        ({
            let t = mint_state(s, sponsor, species, region, planter, now);
            let id = s.trees.len() as u64;
            let rec = minted_record(id, sponsor, species, region, planter, now);
            &&& keep(rec) ==> ids_where(t.trees, keep) == ids_where(s.trees, keep).push(id)
            &&& !keep(rec) ==> ids_where(t.trees, keep) == ids_where(s.trees, keep)
            &&& keep(rec) ==> trees_where(t.trees, keep) == trees_where(s.trees, keep).push(rec)
            &&& !keep(rec) ==> trees_where(t.trees, keep) == trees_where(s.trees, keep)
        }),
{
    let t = mint_state(s, sponsor, species, region, planter, now);
    assert(t.trees.drop_last() =~= s.trees);
}

/// The distinct species of an index hold each species once, and hold a
/// species if and only if some selected tree is of it.
pub proof fn lemma_species_where_exact(trees: Seq<TreeRecord>, keep: spec_fn(TreeRecord) -> bool)
    ensures
        forall|i: int, j: int|
            0 <= i < j < species_where(trees, keep).len() ==> (#[trigger] species_where(trees, keep)[i])@ != (#[trigger] species_where(trees, keep)[j])@,
        forall|t: Seq<char>|
            #[trigger] text_in(species_where(trees, keep), t) <==> (exists|k: int| 0 <= k < trees.len() && keep(trees[k]) && (#[trigger] trees[k]).species@ == t),
    decreases trees.len(),
{
    if trees.len() > 0 {
        let prev = trees.drop_last();
        lemma_species_where_exact(prev, keep);
        let out = species_where(trees, keep);
        let pout = species_where(prev, keep);
        assert forall|t: Seq<char>|
            #[trigger] text_in(out, t) <==> (exists|k: int| 0 <= k < trees.len() && keep(trees[k]) && (#[trigger] trees[k]).species@ == t) by {
            if text_in(out, t) {
                let j = choose|j: int| 0 <= j < out.len() && out[j]@ == t;
                if j < pout.len() {
                    assert(text_in(pout, t));
                    let k = choose|k: int| 0 <= k < prev.len() && keep(prev[k]) && prev[k].species@ == t;
                    assert(trees[k] == prev[k]);
                } else {
                    assert(keep(trees[trees.len() - 1]) && trees[trees.len() - 1].species@ == t);
                }
            }
            if exists|k: int| 0 <= k < trees.len() && keep(trees[k]) && (#[trigger] trees[k]).species@ == t {
                let k = choose|k: int| 0 <= k < trees.len() && keep(trees[k]) && (#[trigger] trees[k]).species@ == t;
                if k < prev.len() {
                    assert(prev[k] == trees[k]);
                    assert(text_in(pout, t));
                    let j = choose|j: int| 0 <= j < pout.len() && pout[j]@ == t;
                    assert(out[j] == pout[j]);
                } else if text_in(pout, t) {
                    let j = choose|j: int| 0 <= j < pout.len() && pout[j]@ == t;
                    assert(out[j] == pout[j]);
                } else {
                    assert(out[out.len() - 1]@ == t);
                }
            }
        }
    }
}

/// Pausing stops minting, verification and milestone claims: each fails with
/// `ContractPaused` and changes nothing.
pub proof fn lemma_paused_blocks_changes(
    s: RegistryState,
    sponsor: Address,
    species: String,
    region: String,
    planter: Address,
    verifier: Address,
    tree_id: u64,
    approved: bool,
    notes_hash: Option<String>,
    years: u64,
    now: u64,
)
    requires
        s.paused,
    ensures
        mint_result(s) == Err::<u64, RegistryFailure>(shared(HarvestaError::ContractPaused)),
        mint_state(s, sponsor, species, region, planter, now) == s,
        verify_checks(s, verifier, tree_id) == Err::<(), RegistryFailure>(shared(HarvestaError::ContractPaused)),
        verify_state(s, verifier, tree_id, approved, notes_hash) == s,
        claim_result(s, sponsor, tree_id, years, now) == Err::<i128, RegistryFailure>(shared(HarvestaError::ContractPaused)),
        claim_state(s, sponsor, tree_id, years, now) == s,
{
}

/// The admin's pause and unpause set and clear the paused flag.
pub proof fn lemma_pause_toggles(s: RegistryState)
    requires
        s.admin is Some,
    ensures
        pause_state(s, true).paused,
        !pause_state(pause_state(s, true), false).paused,
{
}

/// `without` keeps every other address and drops all occurrences of `v`.
pub proof fn lemma_without_exact(list: Seq<Address>, v: Address)
    ensures
        forall|a: Address| #[trigger] without(list, v).contains(a) <==> (a != v && list.contains(a)),
    decreases list.len(),
{
    if list.len() > 0 {
        let prev = list.drop_last();
        lemma_without_exact(prev, v);
        let p = without(prev, v);
        let o = without(list, v);
        if list.last() == v {
            assert(o == p);
        } else {
            assert(o == p.push(list.last()));
        }
        assert forall|a: Address| #[trigger] o.contains(a) <==> (a != v && list.contains(a)) by {
            if list.contains(a) && a != v {
                let k = choose|k: int| 0 <= k < list.len() && list[k] == a;
                if k < prev.len() {
                    assert(prev[k] == a);
                    assert(prev.contains(a));
                    assert(p.contains(a));
                    let j = choose|j: int| 0 <= j < p.len() && p[j] == a;
                    assert(o[j] == a);
                } else {
                    assert(o[p.len() as int] == a);
                }
            }
            if o.contains(a) {
                let j = choose|j: int| 0 <= j < o.len() && o[j] == a;
                if j < p.len() {
                    assert(p[j] == a);
                    assert(p.contains(a));
                    let k = choose|k: int| 0 <= k < prev.len() && prev[k] == a;
                    assert(list[k] == a);
                } else {
                    assert(list[list.len() - 1] == a);
                }
            }
        }
    }
}

/// Listing a verifier twice is the same as listing it once, and after the
/// admin removes a verifier it is no longer listed, while every other
/// verifier stays.
pub proof fn lemma_verifier_list(s: RegistryState, verifier: Address, other: Address)
    requires
        s.admin is Some,
    ensures
        add_verifier_state(s, verifier).verifiers.contains(verifier),
        add_verifier_state(add_verifier_state(s, verifier), verifier) == add_verifier_state(s, verifier),
        add_verifier_actions(add_verifier_state(s, verifier), verifier) == Seq::<RegistryAction>::empty(),
        !remove_verifier_state(s, verifier).verifiers.contains(verifier),
        other != verifier ==> (remove_verifier_state(s, verifier).verifiers.contains(other) <==> s.verifiers.contains(other)),
{
    lemma_without_exact(s.verifiers, verifier);
    if !s.verifiers.contains(verifier) {
        assert(s.verifiers.push(verifier).last() == verifier);
    }
}

/// A planting is judged once: after a successful verification the tree is
/// verified or rejected with the verifier's notes, any further verification
/// of it by a listed verifier fails with `InvalidStatus`, an approval adds
/// one to the planter's score and asks the escrow to release the tree's
/// funds, and no other planter's score changes.
pub proof fn lemma_verify_once(
    s: RegistryState,
    verifier: Address,
    tree_id: u64,
    approved: bool,
    notes_hash: Option<String>,
    verifier2: Address,
    other_planter: Address,
)
    requires
        registry_wf(s),
        verify_checks(s, verifier, tree_id) is Ok,
    ensures
        ({
            let t = verify_state(s, verifier, tree_id, approved, notes_hash);
            let planter = s.trees[tree_id as int].planter;
            &&& t.trees[tree_id as int].status == (if approved { TreeStatus::Verified } else { TreeStatus::Rejected })
            &&& t.trees[tree_id as int].notes_hash == notes_hash
            &&& t.verifiers.contains(verifier2) ==> verify_checks(t, verifier2, tree_id)
                == Err::<(), RegistryFailure>(own(TreeRegistryError::InvalidStatus))
            &&& verify_actions(s, verifier, tree_id, approved, notes_hash) == if approved {
                seq![
                    RegistryAction::ReleaseEscrow { escrow: s.escrow->0, tree_id },
                    RegistryAction::TreeVerified { tree_id, verifier, notes_hash },
                ]
            } else {
                seq![RegistryAction::TreeRejected { tree_id, verifier, notes_hash }]
            }
            &&& score_of(t, planter) == score_of(s, planter) + (if approved { 1int } else { 0int })
            &&& other_planter != planter ==> score_of(t, other_planter) == score_of(s, other_planter)
        }),
{
    lemma_verify_wf(s, verifier, tree_id, approved, notes_hash);
}

/// A milestone pays its credits once: a successful claim of `years` returns
/// 48 kg of CO2 per year, comes no earlier than `years` years after the
/// planting, and a second claim of the same milestone fails with
/// `InvalidStatus`. After it, the tree is matured exactly when all three
/// milestones are claimed.
pub proof fn lemma_milestone_once(s: RegistryState, sponsor: Address, tree_id: u64, years: u64, now: u64, later: u64)
    requires
        registry_wf(s),
        claim_result(s, sponsor, tree_id, years, now) is Ok,
    ensures
        ({
            let t = claim_state(s, sponsor, tree_id, years, now);
            &&& claim_result(s, sponsor, tree_id, years, now) == Ok::<i128, RegistryFailure>((48 * years) as i128)
            &&& claim_actions(s, sponsor, tree_id, years, now) == seq![
                RegistryAction::MilestoneClaimed { tree_id, sponsor, milestone_years: years, amount: (48 * years) as i128 },
            ]
            &&& years == 1 || years == 5 || years == 10
            &&& now >= s.trees[tree_id as int].planted_at + years * ONE_YEAR_SECS
            &&& claim_result(t, sponsor, tree_id, years, later) == Err::<i128, RegistryFailure>(own(TreeRegistryError::InvalidStatus))
            &&& (t.trees[tree_id as int].status == TreeStatus::Matured <==> t.trees[tree_id as int].milestone_claims == 7)
        }),
{
    let c = s.trees[tree_id as int].milestone_claims;
    let flag = claim_checks(s, sponsor, tree_id, years)->Ok_0;
    assert(flag == 1 || flag == 2 || flag == 4);
    assert((flag == 1 || flag == 2 || flag == 4) ==> (c | flag) & flag != 0) by (bit_vector);
    assert(c == 7 && (flag == 1 || flag == 2 || flag == 4) ==> c & flag != 0) by (bit_vector);
}

/// The species catalogue: a registered species reads back as registered, a
/// second registration of it fails, an update needs it to exist, and it
/// cannot be unregistered while trees of it exist.
pub proof fn lemma_species_catalogue(s: RegistryState, slug: Seq<char>, co2_scaled: i128, maturity_years: u32, now: u64)
    requires
        register_species_result(s, slug, co2_scaled, maturity_years) is Ok,
    ensures
        ({
            let t = register_species_state(s, slug, co2_scaled, maturity_years, now);
            &&& species_info_of(t, slug) == Some(SpeciesInfo { co2_scaled, maturity_years, updated_at: now })
            &&& register_species_result(t, slug, co2_scaled, maturity_years)
                == Err::<(), RegistryFailure>(own(TreeRegistryError::SpeciesAlreadyExists))
            &&& update_species_result(s, slug, co2_scaled, maturity_years)
                == Err::<(), RegistryFailure>(own(TreeRegistryError::SpeciesNotFound))
            &&& update_species_result(t, slug, co2_scaled, maturity_years) is Ok
        }),
        species_ids(s, slug).len() > 0 ==> unregister_species_result(s, slug)
            == Err::<(), RegistryFailure>(own(TreeRegistryError::InvalidStatus)),
{
}


/// Trees are never dropped and their identity never changes: minting,
/// verifying and claiming milestones keep every existing tree's id, species,
/// sponsor, planter, region and planting time, and only add trees at the end.
pub proof fn lemma_trees_kept(
    s: RegistryState,
    i: int,
    sponsor: Address,
    species: String,
    region: String,
    planter: Address,
    verifier: Address,
    tree_id: u64,
    approved: bool,
    notes_hash: Option<String>,
    years: u64,
    now: u64,
)
    requires
        0 <= i < s.trees.len(),
    ensures
        ({
            let t = s.trees[i];
            let kept = |n: RegistryState| {
                &&& n.trees.len() >= s.trees.len()
                &&& n.trees[i].id == t.id
                &&& n.trees[i].species == t.species
                &&& n.trees[i].sponsor == t.sponsor
                &&& n.trees[i].planter == t.planter
                &&& n.trees[i].region == t.region
                &&& n.trees[i].planted_at == t.planted_at
            };
            &&& kept(mint_state(s, sponsor, species, region, planter, now))
            &&& kept(verify_state(s, verifier, tree_id, approved, notes_hash))
            &&& kept(claim_state(s, sponsor, tree_id, years, now))
        }),
{
}

/// A tree's status only moves forward: a verification takes a planted tree
/// to verified or rejected, a milestone claim never touches a rejected tree
/// and can only mature a tree, and nothing else changes a status.
pub proof fn lemma_status_moves_forward(
    s: RegistryState,
    verifier: Address,
    sponsor: Address,
    tree_id: u64,
    approved: bool,
    notes_hash: Option<String>,
    years: u64,
    now: u64,
)
    requires
        tree_id < s.trees.len(),
    ensures
        ({
            let before = s.trees[tree_id as int].status;
            let after_verify = verify_state(s, verifier, tree_id, approved, notes_hash).trees[tree_id as int].status;
            let after_claim = claim_state(s, sponsor, tree_id, years, now).trees[tree_id as int].status;
            &&& after_verify == before || (before == TreeStatus::Planted
                && (after_verify == TreeStatus::Verified || after_verify == TreeStatus::Rejected))
            &&& after_claim == before || (before != TreeStatus::Rejected && after_claim == TreeStatus::Matured)
        }),
{
}

/// The credits of the milestones recorded in `claims`: 48 kg for the first
/// year, 240 kg for five years and 480 kg for ten.
pub open spec fn credits_claimed(claims: u32) -> int {
    (if claims & 1 != 0 { co2_credits(1) as int } else { 0 })
        + (if claims & 2 != 0 { co2_credits(5) as int } else { 0 })
        + (if claims & 4 != 0 { co2_credits(10) as int } else { 0 })
}

/// A run of milestone claims on one tree, each step the claiming sponsor,
/// the milestone and the time of the claim: the state after the run, and the
/// credits that the successful claims returned, summed.
pub open spec fn claims_run(s: RegistryState, tree_id: u64, steps: Seq<(Address, u64, u64)>) -> (RegistryState, int)
    decreases steps.len(),
{
    if steps.len() == 0 {
        (s, 0)
    } else {
        let (t, total) = claims_run(s, tree_id, steps.drop_last());
        let (sponsor, years, now) = steps.last();
        match claim_result(t, sponsor, tree_id, years, now) {
            Ok(amount) => (claim_state(t, sponsor, tree_id, years, now), total + amount),
            Err(_) => (t, total),
        }
    }
}

proof fn lemma_or_bits(c: u32, f: u32)
    by (bit_vector)
    requires
        f == 1 || f == 2 || f == 4,
    ensures
        ((c | f) & 1 != 0) == ((c & 1 != 0) || f == 1),
        ((c | f) & 2 != 0) == ((c & 2 != 0) || f == 2),
        ((c | f) & 4 != 0) == ((c & 4 != 0) || f == 4),
        c < 8 ==> (c | f) < 8,
        (c & f == 0) ==> (f == 1 ==> c & 1 == 0) && (f == 2 ==> c & 2 == 0) && (f == 4 ==> c & 4 == 0),
{
}

/// One successful claim adds exactly its credits to those of the tree's
/// recorded milestones, and keeps the recorded milestones among the three.
pub proof fn lemma_claim_adds_its_credits(s: RegistryState, sponsor: Address, tree_id: u64, years: u64, now: u64)
    requires
        claim_result(s, sponsor, tree_id, years, now) is Ok,
        s.trees[tree_id as int].milestone_claims < 8,
    ensures
        ({
            let t = claim_state(s, sponsor, tree_id, years, now);
            let c = s.trees[tree_id as int].milestone_claims;
            &&& t.trees.len() == s.trees.len()
            &&& t.trees[tree_id as int].milestone_claims < 8
            &&& credits_claimed(t.trees[tree_id as int].milestone_claims)
                == credits_claimed(c) + claim_result(s, sponsor, tree_id, years, now)->Ok_0
        }),
{
    let c = s.trees[tree_id as int].milestone_claims;
    let flag = claim_checks(s, sponsor, tree_id, years)->Ok_0;
    lemma_or_bits(c, flag);
}

/// A milestone pays its credits at most once, so the credits that all the
/// claims on one tree return, whoever makes them and whenever, over any run of
/// claims, come to no more than
/// those of the milestones not yet claimed when the run began: 768 kg in all
/// for a tree that had claimed none.
pub proof fn lemma_lifetime_credits_bounded(s: RegistryState, tree_id: u64, steps: Seq<(Address, u64, u64)>)
    requires
        tree_id < s.trees.len(),
        s.trees[tree_id as int].milestone_claims < 8,
    ensures
        ({
            let (t, total) = claims_run(s, tree_id, steps);
            &&& t.trees.len() == s.trees.len()
            &&& t.trees[tree_id as int].milestone_claims < 8
            &&& total == credits_claimed(t.trees[tree_id as int].milestone_claims)
                - credits_claimed(s.trees[tree_id as int].milestone_claims)
            &&& 0 <= total <= 768 - credits_claimed(s.trees[tree_id as int].milestone_claims)
            &&& total <= 768
        }),
    decreases steps.len(),
{
    let c0 = s.trees[tree_id as int].milestone_claims;
    if steps.len() > 0 {
        lemma_lifetime_credits_bounded(s, tree_id, steps.drop_last());
        let (t, total) = claims_run(s, tree_id, steps.drop_last());
        let (sponsor, years, now) = steps.last();
        if claim_result(t, sponsor, tree_id, years, now) is Ok {
            lemma_claim_adds_its_credits(t, sponsor, tree_id, years, now);
        }
        let (u, _) = claims_run(s, tree_id, steps);
        lemma_credits_range(u.trees[tree_id as int].milestone_claims, c0);
    } else {
        lemma_credits_range(c0, c0);
    }
}

proof fn lemma_credits_range(c: u32, c0: u32)
    ensures
        0 <= credits_claimed(c) <= 768,
        0 <= credits_claimed(c0) <= 768,
{
}

/// A claim on an existing tree by its sponsor, while the registry is not
/// paused, of a one, five or ten year milestone not claimed yet, on or after
/// the milestone's date, pays 48 kg of CO2 per year of the milestone, whatever
/// the tree's status short of rejected (a verified tree claims like a planted
/// one), and records the milestone on the tree and nothing else.
pub proof fn lemma_claim_pays_due_milestone(s: RegistryState, sponsor: Address, tree_id: u64, years: u64, now: u64)
    requires
        !s.paused,
        tree_id < s.trees.len(),
        s.trees[tree_id as int].sponsor == sponsor,
        s.trees[tree_id as int].status != TreeStatus::Rejected,
        years == 1 || years == 5 || years == 10,
        s.trees[tree_id as int].milestone_claims & (if years == 1 { 1u32 } else if years == 5 { 2u32 } else { 4u32 }) == 0,
        now >= s.trees[tree_id as int].planted_at + years * 31_536_000,
    ensures
        claim_result(s, sponsor, tree_id, years, now) == Ok::<i128, RegistryFailure>((48 * years) as i128),
        ({
            let t = claim_state(s, sponsor, tree_id, years, now);
            let before = s.trees[tree_id as int];
            let after = t.trees[tree_id as int];
            &&& t.trees.len() == s.trees.len()
            &&& after.milestone_claims
                == before.milestone_claims | (if years == 1 { 1u32 } else if years == 5 { 2u32 } else { 4u32 })
            &&& after.sponsor == before.sponsor
            &&& after.planter == before.planter
            &&& after.species == before.species
            &&& after.region == before.region
            &&& after.planted_at == before.planted_at
            &&& after.status == (if after.milestone_claims == 7 { TreeStatus::Matured } else { before.status })
            &&& forall|i: int| 0 <= i < s.trees.len() && i != tree_id ==> t.trees[i] == s.trees[i]
        }),
{
    assert(ONE_YEAR_SECS == 31_536_000);
}

/// The trees that `keep` selects are those at the positions of their ids.
pub proof fn lemma_trees_where_at_ids(trees: Seq<TreeRecord>, keep: spec_fn(TreeRecord) -> bool)
    requires
        trees.len() <= u64::MAX,
    ensures
        trees_where(trees, keep).len() == ids_where(trees, keep).len(),
        forall|j: int| 0 <= j < trees_where(trees, keep).len()
            ==> #[trigger] trees_where(trees, keep)[j] == trees[ids_where(trees, keep)[j] as int],
    decreases trees.len(),
{
    if trees.len() > 0 {
        let prev = trees.drop_last();
        lemma_trees_where_at_ids(prev, keep);
        lemma_ids_where_exact(prev, keep);
        let pids = ids_where(prev, keep);
        assert forall|j: int| 0 <= j < pids.len() implies prev[pids[j] as int] == trees[pids[j] as int] by {
            assert(pids[j] < prev.len());
        }
    }
}

/// A sponsor's list holds every tree the sponsor funded, whatever became of
/// it (a rejected tree too), and no other tree, in minting order.
pub proof fn lemma_sponsor_list_is_every_funded_tree(s: RegistryState, sponsor: Address)
    requires
        registry_wf(s),
    ensures
        ({
            let r = trees_where(s.trees, of_sponsor(sponsor));
            &&& forall|j: int| 0 <= j < r.len() ==> (#[trigger] r[j]).sponsor == sponsor
            &&& forall|i: int| 0 <= i < s.trees.len() && (#[trigger] s.trees[i]).sponsor == sponsor
                ==> r.contains(s.trees[i])
            &&& forall|a: int, b: int| 0 <= a < b < r.len() ==> (#[trigger] r[a]).id < (#[trigger] r[b]).id
        }),
{
    let keep = of_sponsor(sponsor);
    lemma_ids_where_exact(s.trees, keep);
    lemma_trees_where_at_ids(s.trees, keep);
    let r = trees_where(s.trees, keep);
    let ids = ids_where(s.trees, keep);
    assert forall|j: int| 0 <= j < r.len() implies (#[trigger] r[j]).sponsor == sponsor by {
        assert(ids.contains(ids[j]));
    }
    assert forall|i: int| 0 <= i < s.trees.len() && (#[trigger] s.trees[i]).sponsor == sponsor
        implies r.contains(s.trees[i]) by {
        assert(ids.contains(i as u64));
        let j = choose|j: int| 0 <= j < ids.len() && ids[j] == i as u64;
        assert(r[j] == s.trees[i]);
    }
    assert forall|a: int, b: int| 0 <= a < b < r.len() implies (#[trigger] r[a]).id < (#[trigger] r[b]).id by {
        assert(ids[a] < ids[b]);
        assert(ids[a] < s.trees.len());
        assert(ids[b] < s.trees.len());
    }
}

/// The index by species and region holds exactly the ids of the trees of that
/// species in that region, whatever their status (rejected ones too), in
/// increasing order.
pub proof fn lemma_species_region_index_exact(s: RegistryState, species: Seq<char>, region: Seq<char>)
    requires
        registry_wf(s),
    ensures
        ({
            let r = ids_where(s.trees, of_species_in_region(species, region));
            &&& forall|k: u64| #[trigger] r.contains(k) <==> (k < s.trees.len()
                && s.trees[k as int].species@ == species && s.trees[k as int].region@ == region)
            &&& forall|a: int, b: int| 0 <= a < b < r.len() ==> #[trigger] r[a] < #[trigger] r[b]
        }),
{
    lemma_ids_where_exact(s.trees, of_species_in_region(species, region));
}

/// A claim is refused, and changes nothing, while the registry is paused, for
/// an unknown tree, by anyone but the tree's sponsor, for a rejected tree, for
/// a milestone other than one, five or ten years, and before the milestone's
/// date.
pub proof fn lemma_claim_refusals(s: RegistryState, sponsor: Address, tree_id: u64, years: u64, now: u64)
    ensures
        s.paused ==> claim_result(s, sponsor, tree_id, years, now)
            == Err::<i128, RegistryFailure>(RegistryFailure::Shared(HarvestaError::ContractPaused)),
        !s.paused && tree_id >= s.trees.len() ==> claim_result(s, sponsor, tree_id, years, now)
            == Err::<i128, RegistryFailure>(RegistryFailure::Registry(TreeRegistryError::NotFound)),
        !s.paused && tree_id < s.trees.len() && s.trees[tree_id as int].sponsor != sponsor
            ==> claim_result(s, sponsor, tree_id, years, now)
            == Err::<i128, RegistryFailure>(RegistryFailure::Registry(TreeRegistryError::NotAuthorized)),
        !s.paused && tree_id < s.trees.len() && s.trees[tree_id as int].sponsor == sponsor && (
            s.trees[tree_id as int].status == TreeStatus::Rejected
            || !(years == 1 || years == 5 || years == 10)
            || now < s.trees[tree_id as int].planted_at + years * 31_536_000
        ) ==> claim_result(s, sponsor, tree_id, years, now)
            == Err::<i128, RegistryFailure>(RegistryFailure::Registry(TreeRegistryError::InvalidStatus)),
        claim_result(s, sponsor, tree_id, years, now) is Err ==> claim_state(s, sponsor, tree_id, years, now) == s,
{
    assert(ONE_YEAR_SECS == 31_536_000);
}

/// The index by species and status holds the trees of the species under
/// `Planted`, the status they are minted with, and nothing under another
/// status.
pub proof fn lemma_species_status_index(s: RegistryState, species: Seq<char>, status: TreeStatus)
    ensures
        status != TreeStatus::Planted ==> species_status_ids(s, species, status) == Seq::<u64>::empty(),
        status == TreeStatus::Planted ==> species_status_ids(s, species, status) == ids_where(s.trees, of_species(species)),
{
}

/// The species of a region are each listed once, and a species is listed if
/// and only if some tree of it stands in the region; the distinct species
/// are those of some tree, each once.
pub proof fn lemma_region_species_exact(s: RegistryState, region: Seq<char>, t: Seq<char>)
    ensures
        text_in(species_where(s.trees, of_region(region)), t)
            <==> (exists|k: int| 0 <= k < s.trees.len() && (#[trigger] s.trees[k]).region@ == region && s.trees[k].species@ == t),
        text_in(species_where(s.trees, every_tree()), t)
            <==> (exists|k: int| 0 <= k < s.trees.len() && (#[trigger] s.trees[k]).species@ == t),
        forall|i: int, j: int| 0 <= i < j < species_where(s.trees, of_region(region)).len()
            ==> (#[trigger] species_where(s.trees, of_region(region))[i])@ != (#[trigger] species_where(s.trees, of_region(region))[j])@,
        forall|i: int, j: int| 0 <= i < j < species_where(s.trees, every_tree()).len()
            ==> (#[trigger] species_where(s.trees, every_tree())[i])@ != (#[trigger] species_where(s.trees, every_tree())[j])@,
{
    lemma_species_where_exact(s.trees, of_region(region));
    lemma_species_where_exact(s.trees, every_tree());
    if text_in(species_where(s.trees, of_region(region)), t) {
        let k = choose|k: int| 0 <= k < s.trees.len() && of_region(region)(s.trees[k]) && (#[trigger] s.trees[k]).species@ == t;
        assert(s.trees[k].region@ == region);
    }
    if exists|k: int| 0 <= k < s.trees.len() && (#[trigger] s.trees[k]).region@ == region && s.trees[k].species@ == t {
        let k = choose|k: int| 0 <= k < s.trees.len() && (#[trigger] s.trees[k]).region@ == region && s.trees[k].species@ == t;
        assert(of_region(region)(s.trees[k]));
    }
    if text_in(species_where(s.trees, every_tree()), t) {
        let k = choose|k: int| 0 <= k < s.trees.len() && every_tree()(s.trees[k]) && (#[trigger] s.trees[k]).species@ == t;
        assert(s.trees[k].species@ == t);
    }
    if exists|k: int| 0 <= k < s.trees.len() && (#[trigger] s.trees[k]).species@ == t {
        let k = choose|k: int| 0 <= k < s.trees.len() && (#[trigger] s.trees[k]).species@ == t;
        assert(every_tree()(s.trees[k]));
    }
}

} // verus!
