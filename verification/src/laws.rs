//! The program's cross-call guarantees, stated and proved over the
//! spec-level transitions that the executable handlers are proved to
//! realize.

use vstd::prelude::*;

use crate::codec::{
    lemma_issuer_round_trip, lemma_parse_issuer_wf, lemma_tree_round_trip, spec_parse_tree,
    spec_ser_issuer, spec_ser_tree,
};
use crate::errors::CredifyError;
use crate::pda::{derive_of, spec_issuer_seeds, spec_tree_seeds};
use crate::records::{
    CreateMerkleTreeView, InitializeIssuerView, IssuerView, MerkleTreeView, issuer_view_wf,
    tree_view_wf,
};
use crate::registry::{spec_create_tree, spec_initialize_issuer, spec_load_issuer, spec_load_tree};
use crate::coordinator::spec_issue_checks;

verus! {

/// Initializing an issuer twice for the same authority (with the same
/// program id and the same supplied address): when the first call
/// succeeds, the second fails with `AlreadyExists` and moves nothing.
pub proof fn lemma_second_initialize_fails(
    m: Map<Seq<u8>, Seq<u8>>,
    pid: Seq<u8>,
    auth: Seq<u8>,
    supplied: Seq<u8>,
    d1: InitializeIssuerView,
    d2: InitializeIssuerView,
)
    requires
        spec_initialize_issuer(m, pid, auth, true, supplied, d1).0 is Ok,
    ensures
        ({
            let m1 = spec_initialize_issuer(m, pid, auth, true, supplied, d1).1;
            let second = spec_initialize_issuer(m1, pid, auth, true, supplied, d2);
            &&& second.0 == Err::<IssuerView, CredifyError>(CredifyError::AlreadyExists)
            &&& second.1 == m1
        }),
{
}

/// An issue request on an inactive tree always fails with
/// `InactiveTree`, whatever the payload and whatever the issuer's own
/// active flag; the executable handler reads the store without writing
/// it, so no counter moves.
pub proof fn lemma_issue_inactive_tree(
    m: Map<Seq<u8>, Seq<u8>>,
    caller: Seq<u8>,
    issuer_pda: Seq<u8>,
    tree_addr: Seq<u8>,
)
    requires
        spec_load_issuer(m, issuer_pda) matches Ok(iss) && iss.authority == caller,
        spec_load_tree(m, tree_addr) matches Ok(tree) && tree.tree_authority == caller
            && !tree.is_active,
    ensures
        spec_issue_checks(m, caller, true, issuer_pda, tree_addr) == Err::<
            IssuerView,
            CredifyError,
        >(CredifyError::InactiveTree),
{
}

/// An issue request by a caller who is not the issuer record's stored
/// authority always fails with `Unauthorized` — the payload is not even
/// consulted, and neither is the tree.
pub proof fn lemma_issue_wrong_authority(
    m: Map<Seq<u8>, Seq<u8>>,
    caller: Seq<u8>,
    issuer_pda: Seq<u8>,
    tree_addr: Seq<u8>,
)
    requires
        spec_load_issuer(m, issuer_pda) matches Ok(iss) && iss.authority != caller,
    ensures
        spec_issue_checks(m, caller, true, issuer_pda, tree_addr) == Err::<
            IssuerView,
            CredifyError,
        >(CredifyError::Unauthorized),
{
}

/// An issue request against a tree whose stored authority is not the
/// caller always fails with `Unauthorized`, whatever the issuer's own
/// active flag.
pub proof fn lemma_issue_wrong_tree_authority(
    m: Map<Seq<u8>, Seq<u8>>,
    caller: Seq<u8>,
    issuer_pda: Seq<u8>,
    tree_addr: Seq<u8>,
)
    requires
        spec_load_issuer(m, issuer_pda) matches Ok(iss) && iss.authority == caller,
        spec_load_tree(m, tree_addr) matches Ok(tree) && tree.tree_authority != caller,
    ensures
        spec_issue_checks(m, caller, true, issuer_pda, tree_addr) == Err::<
            IssuerView,
            CredifyError,
        >(CredifyError::Unauthorized),
{
}

/// The derived tree address for one index, when the derivation finds one.
pub open spec fn tree_pda(pid: Seq<u8>, auth: Seq<u8>, idx: u64) -> Seq<u8> {
    derive_of(spec_tree_seeds(auth, idx), pid)->Some_0.0
}

/// Whether the derivation finds a tree address for this index.
pub open spec fn tree_pda_ok(pid: Seq<u8>, auth: Seq<u8>, idx: u64) -> bool {
    derive_of(spec_tree_seeds(auth, idx), pid) is Some
}

/// N successive create-tree calls against one issuer, each supplying the
/// derived address for the issuer's counter at that moment.
pub open spec fn spec_run_create_trees(
    m: Map<Seq<u8>, Seq<u8>>,
    pid: Seq<u8>,
    auth: Seq<u8>,
    ipda: Seq<u8>,
    steps: Seq<(CreateMerkleTreeView, i64)>,
) -> Map<Seq<u8>, Seq<u8>>
    decreases steps.len(),
{
    if steps.len() == 0 {
        m
    } else {
        let prev = spec_run_create_trees(m, pid, auth, ipda, steps.drop_last());
        match spec_load_issuer(prev, ipda) {
            Ok(iss) => match derive_of(spec_tree_seeds(auth, iss.merkle_tree_count), pid) {
                Some(pb) => spec_create_tree(
                    prev,
                    pid,
                    auth,
                    true,
                    ipda,
                    pb.0,
                    steps.last().0,
                    steps.last().1,
                ).1,
                None => prev,
            },
            Err(_) => prev,
        }
    }
}

/// Creating N trees in sequence yields N tree records, at the addresses
/// derived from indices `c0`, `c0 + 1`, ..., `c0 + N - 1`, each owned by
/// the issuer's authority and carrying its step's parameters, and leaves
/// the issuer's tree counter at `c0 + N` with every other issuer field
/// unchanged. Hypotheses exclude only the statistically impossible
/// cases: a derivation that fails, or two distinct indices deriving the
/// same address.
#[verifier::rlimit(100)]
#[verifier::spinoff_prover]
pub proof fn lemma_create_tree_run(
    m: Map<Seq<u8>, Seq<u8>>,
    pid: Seq<u8>,
    auth: Seq<u8>,
    ipda: Seq<u8>,
    steps: Seq<(CreateMerkleTreeView, i64)>,
)
    requires
        spec_load_issuer(m, ipda) is Ok,
        spec_load_issuer(m, ipda)->Ok_0.authority == auth,
        spec_load_issuer(m, ipda)->Ok_0.merkle_tree_count + steps.len() <= u64::MAX,
        forall|idx: u64|
            #![trigger tree_pda_ok(pid, auth, idx)]
            spec_load_issuer(m, ipda)->Ok_0.merkle_tree_count <= idx < spec_load_issuer(m, ipda)->Ok_0.merkle_tree_count
                + steps.len() ==> tree_pda_ok(pid, auth, idx),
        forall|idx: u64|
            #![trigger tree_pda(pid, auth, idx)]
            spec_load_issuer(m, ipda)->Ok_0.merkle_tree_count <= idx < spec_load_issuer(m, ipda)->Ok_0.merkle_tree_count
                + steps.len() ==> tree_pda(pid, auth, idx).len() == 32 && tree_pda(pid, auth, idx)
                != ipda && !m.contains_key(tree_pda(pid, auth, idx)),
        forall|i1: u64, i2: u64|
            #![trigger tree_pda(pid, auth, i1), tree_pda(pid, auth, i2)]
            spec_load_issuer(m, ipda)->Ok_0.merkle_tree_count <= i1 < i2 < spec_load_issuer(
                m,
                ipda,
            )->Ok_0.merkle_tree_count + steps.len() ==> tree_pda(pid, auth, i1) != tree_pda(
                pid,
                auth,
                i2,
            ),
    ensures
        ({
            let c0 = spec_load_issuer(m, ipda)->Ok_0.merkle_tree_count;
            let mn = spec_run_create_trees(m, pid, auth, ipda, steps);
            &&& spec_load_issuer(mn, ipda) is Ok
            &&& spec_load_issuer(mn, ipda)->Ok_0 == IssuerView {
                merkle_tree_count: (c0 + steps.len()) as u64,
                ..spec_load_issuer(m, ipda)->Ok_0
            }
            &&& forall|i: int|
                0 <= i < steps.len() ==> {
                    let pda = tree_pda(pid, auth, (c0 + i) as u64);
                    &&& mn.contains_key(pda)
                    &&& spec_parse_tree(mn[pda]) == Some(
                        MerkleTreeView {
                            tree_authority: auth,
                            merkle_tree: pda,
                            max_depth: (#[trigger] steps[i]).0.max_depth,
                            max_buffer_size: steps[i].0.max_buffer_size,
                            created_at: steps[i].1,
                            is_active: true,
                        },
                    )
                }
            &&& forall|a: Seq<u8>|
                #[trigger] mn.contains_key(a) <==> m.contains_key(a) || (exists|idx: u64|
                    c0 <= idx < c0 + steps.len() && #[trigger] tree_pda(pid, auth, idx) == a)
        }),
    decreases steps.len(),
{
    let c0 = spec_load_issuer(m, ipda)->Ok_0.merkle_tree_count;
    let iss0 = spec_load_issuer(m, ipda)->Ok_0;
    lemma_parse_issuer_wf(m[ipda]);
    if steps.len() == 0 {
        assert(spec_load_issuer(m, ipda)->Ok_0 == IssuerView { merkle_tree_count: c0, ..iss0 });
    } else {
        let head = steps.drop_last();
        let n = steps.len() - 1;
        lemma_create_tree_run(m, pid, auth, ipda, head);
        let prev = spec_run_create_trees(m, pid, auth, ipda, head);
        let issn = spec_load_issuer(prev, ipda)->Ok_0;
        assert(issn.merkle_tree_count == c0 + n);
        let idx = (c0 + n) as u64;
        assert(tree_pda_ok(pid, auth, idx));
        let pb = derive_of(spec_tree_seeds(auth, idx), pid)->Some_0;
        let pda = pb.0;
        assert(pda == tree_pda(pid, auth, idx));
        // the new address is fresh in `prev`
        assert(!prev.contains_key(pda)) by {
            if prev.contains_key(pda) {
                assert(m.contains_key(pda) || (exists|j: u64|
                    c0 <= j < c0 + n && tree_pda(pid, auth, j) == pda));
                if exists|j: u64| c0 <= j < c0 + n && tree_pda(pid, auth, j) == pda {
                    let j = choose|j: u64| c0 <= j < c0 + n && tree_pda(pid, auth, j) == pda;
                    assert(tree_pda(pid, auth, j) != tree_pda(pid, auth, idx));
                }
            }
        }
        let step = spec_create_tree(prev, pid, auth, true, ipda, pda, steps.last().0, steps.last().1);
        let tree = MerkleTreeView {
            tree_authority: auth,
            merkle_tree: pda,
            max_depth: steps.last().0.max_depth,
            max_buffer_size: steps.last().0.max_buffer_size,
            created_at: steps.last().1,
            is_active: true,
        };
        let iss2 = IssuerView { merkle_tree_count: (issn.merkle_tree_count + 1) as u64, ..issn };
        assert(step.0 == Ok::<MerkleTreeView, CredifyError>(tree));
        assert(step.1 == prev.insert(pda, spec_ser_tree(tree)).insert(ipda, spec_ser_issuer(iss2)));
        let mn = spec_run_create_trees(m, pid, auth, ipda, steps);
        assert(mn == step.1);
        // the rewritten issuer record reads back as itself
        assert(issuer_view_wf(issn)) by {
            lemma_parse_issuer_wf(prev[ipda]);
        }
        lemma_issuer_round_trip(iss2);
        assert(spec_load_issuer(mn, ipda) == Ok::<IssuerView, CredifyError>(iss2));
        assert(iss2 == IssuerView { merkle_tree_count: (c0 + steps.len()) as u64, ..iss0 });
        // the new tree record reads back as itself
        assert(tree_view_wf(tree));
        lemma_tree_round_trip(tree);
        assert(mn[pda] == spec_ser_tree(tree));
        assert(spec_parse_tree(mn[pda]) == Some(tree));
        // every earlier tree record is untouched by the two inserts
        assert forall|i: int| 0 <= i < steps.len() implies {
            let pda_i = tree_pda(pid, auth, (c0 + i) as u64);
            &&& mn.contains_key(pda_i)
            &&& spec_parse_tree(mn[pda_i]) == Some(
                MerkleTreeView {
                    tree_authority: auth,
                    merkle_tree: pda_i,
                    max_depth: (#[trigger] steps[i]).0.max_depth,
                    max_buffer_size: steps[i].0.max_buffer_size,
                    created_at: steps[i].1,
                    is_active: true,
                },
            )
        } by {
            let pda_i = tree_pda(pid, auth, (c0 + i) as u64);
            if i < n {
                assert(head[i] == steps[i]);
                assert(tree_pda(pid, auth, (c0 + i) as u64) != tree_pda(pid, auth, idx));
                assert(pda_i != ipda);
                assert(mn[pda_i] == prev[pda_i]);
            } else {
                assert(steps[i] == steps.last());
            }
        }
        // domain: the run adds exactly the derived tree addresses
        assert forall|a: Seq<u8>| #[trigger] mn.contains_key(a) implies m.contains_key(a) || (
        exists|j: u64| c0 <= j < c0 + steps.len() && #[trigger] tree_pda(pid, auth, j) == a) by {
            if a != pda && a != ipda {
                assert(prev.contains_key(a));
                if !m.contains_key(a) {
                    let j = choose|j: u64| c0 <= j < c0 + n && tree_pda(pid, auth, j) == a;
                    assert(c0 <= j < c0 + steps.len() && tree_pda(pid, auth, j) == a);
                }
            } else if a == ipda {
                assert(m.contains_key(ipda));
            } else {
                assert(c0 <= idx < c0 + steps.len() && tree_pda(pid, auth, idx) == a);
            }
        }
        assert forall|a: Seq<u8>|
            m.contains_key(a) || (exists|j: u64|
                c0 <= j < c0 + steps.len() && #[trigger] tree_pda(pid, auth, j) == a) implies #[trigger] mn.contains_key(
            a,
        ) by {
            if m.contains_key(a) {
                assert(prev.contains_key(a));
            } else {
                let j = choose|j: u64| c0 <= j < c0 + steps.len() && tree_pda(pid, auth, j) == a;
                if j < c0 + n {
                    assert(prev.contains_key(a));
                }
            }
        }
    }
}


} // verus!
