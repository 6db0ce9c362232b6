//! The library's stated laws, proved against the circuits' own
//! specifications: completeness of honest witnesses, the vacuity of dummy
//! spends, the enforcement of genuine ones, the sensitivity of verification
//! to public-input order, and the determinism of nullifier derivation.

use vstd::prelude::*;

use crate::backend;
use crate::cs::VerifyingKey;
use crate::field::Felt;
use crate::note::NoteCommitment;
use crate::output::{output_gates, OutputCircuit, OutputProof};
use crate::spend::{spec_nullifier, spend_gates, SpendCircuit, SpendProof};

verus! {

/// Completeness for spends: a proof generated from a circuit whose witness
/// is consistent with its declared public inputs — every gated relation
/// holds — is accepted by `verify` under a matching verifying key and the
/// same public inputs. The validity of the randomized key's encoding is the
/// one extra premise, since verification decompresses it.
pub proof fn lemma_spend_completeness(c: SpendCircuit, p: SpendProof, vk: VerifyingKey)
    requires
        c.spec_relations(),
        backend::spec_decodes(c.rk@),
        p.spec_shape() == spend_gates(),
        p.spec_public_inputs() == c.spec_public_inputs(),
        p.spec_satisfied() == c.spec_satisfied(),
        vk.shape@ == spend_gates(),
    ensures
        p.spec_accepts(vk, c.spec_public_inputs()),
{
}

/// Completeness for outputs: a proof generated from a circuit whose witness
/// is consistent with its declared public inputs is accepted by `verify`
/// under a matching verifying key and the same public inputs.
pub proof fn lemma_output_completeness(c: OutputCircuit, p: OutputProof, vk: VerifyingKey)
    requires
        c.spec_relations(),
        p.spec_shape() == output_gates(),
        p.spec_public_inputs() == c.spec_public_inputs(),
        p.spec_satisfied() == c.spec_satisfied(),
        vk.shape@ == output_gates(),
    ensures
        p.spec_accepts(vk, c.spec_public_inputs()),
{
}

/// Dummy-spend vacuity: a Spend circuit with amount zero is satisfied
/// whatever the rest of its witness and public inputs hold — every gated
/// constraint collapses to vacuous truth.
pub proof fn lemma_dummy_spend_vacuous(c: SpendCircuit)
    requires
        c.spec_is_dummy(),
    ensures
        c.spec_satisfied(),
{
}

/// Non-dummy enforcement: a Spend circuit with a nonzero amount is
/// satisfied exactly when every one of its gated relations holds, so a
/// witness violating any of them yields an unsatisfied circuit and a proof
/// that fails verification.
pub proof fn lemma_non_dummy_enforcement(c: SpendCircuit)
    requires
        !c.spec_is_dummy(),
    ensures
        c.spec_satisfied() <==> c.spec_relations(),
{
}

/// Public-input-order sensitivity: no proof is accepted under two distinct
/// ordered public-input vectors, so swapping any two unequal entries of the
/// vector makes verification fail.
pub proof fn lemma_spend_public_input_order(
    p: SpendProof,
    vk: VerifyingKey,
    u: Seq<Felt>,
    v: Seq<Felt>,
)
    requires
        u != v,
    ensures
        !(p.spec_accepts(vk, u) && p.spec_accepts(vk, v)),
{
}

/// Public-input-order sensitivity for outputs.
pub proof fn lemma_output_public_input_order(
    p: OutputProof,
    vk: VerifyingKey,
    u: Seq<Felt>,
    v: Seq<Felt>,
)
    requires
        u != v,
    ensures
        !(p.spec_accepts(vk, u) && p.spec_accepts(vk, v)),
{
}

/// Nullifier determinism: two spends of the same note commitment at the
/// same recorded position with the same nullifier key derive the same
/// nullifier.
pub proof fn lemma_nullifier_deterministic(
    nk1: Felt,
    cm1: NoteCommitment,
    pos1: u64,
    nk2: Felt,
    cm2: NoteCommitment,
    pos2: u64,
)
    requires
        nk1@ == nk2@,
        cm1.0@ == cm2.0@,
        pos1 == pos2,
    ensures
        spec_nullifier(nk1@, cm1.0@, pos1) == spec_nullifier(nk2@, cm2.0@, pos2),
{
}

} // verus!
