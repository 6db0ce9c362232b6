//! End-to-end tests of the Spend and Output proofs: completeness for honest
//! witnesses, failure under each single-field witness mutation, sensitivity
//! to public-input order, dummy-spend vacuity, non-dummy enforcement, and
//! the concrete one-note scenario.

use shielded_proofs::cs::ProofError;
use shielded_proofs::field::{El, Felt, Scalar};
use shielded_proofs::merkle::{MerkleProof, Root, Tree};
use shielded_proofs::note::{
    balance_commit, derive_transmission_key, BalanceCommitment, Note, NoteCommitment, Value,
};
use shielded_proofs::output::{OutputCircuit, OutputProof};
use shielded_proofs::spend::{derive_nullifier, derive_rk, Nullifier, SpendCircuit, SpendProof};

fn felt(x: u64) -> Felt {
    Felt::from_u64(x)
}

fn el_from_bytes(b: [u8; 32]) -> El {
    El {
        l0: u64::from_le_bytes(b[0..8].try_into().unwrap()),
        l1: u64::from_le_bytes(b[8..16].try_into().unwrap()),
        l2: u64::from_le_bytes(b[16..24].try_into().unwrap()),
        l3: u64::from_le_bytes(b[24..32].try_into().unwrap()),
    }
}

fn gen_times(k: u64) -> El {
    el_from_bytes((decaf377::Element::GENERATOR * decaf377::Fr::from(k)).vartime_compress().0)
}

/// An honest spend: one note of amount 1 of a fixed asset, committed into
/// an otherwise-empty tree, with every public input derived from the
/// witness.
struct SpendFixture {
    proof: MerkleProof,
    note: Note,
    v_blinding: Scalar,
    randomizer: Scalar,
    ak: El,
    nk: Felt,
    anchor: Root,
    bc: BalanceCommitment,
    nullifier: Nullifier,
    rk: El,
}

fn honest_spend() -> SpendFixture {
    let ak = gen_times(6);
    let nk = felt(7);
    let gd = gen_times(2);
    let tk = derive_transmission_key(&ak.as_field(), &nk, &gd).unwrap();
    let note = Note::from_parts(gd, tk, felt(9), Value { amount: 1, asset_id: felt(1) }, felt(11));
    let cm = note.commit();
    let mut tree = Tree::new();
    let pos = tree.insert(&cm);
    let anchor = tree.root();
    let proof = tree.witness(pos).unwrap();
    let v_blinding = Scalar::from_u64(1);
    let randomizer = Scalar::from_u64(1);
    let rk = derive_rk(&ak, &randomizer).unwrap();
    let nullifier = derive_nullifier(&nk, &cm, pos);
    let bc = balance_commit(1, &felt(1), &v_blinding);
    SpendFixture { proof, note, v_blinding, randomizer, ak, nk, anchor, bc, nullifier, rk }
}

fn prove_spend(f: &SpendFixture) -> Result<SpendProof, ProofError> {
    let (pk, _vk) = SpendCircuit::generate_test_parameters();
    SpendProof::prove(
        &pk,
        f.proof.clone(),
        f.note,
        f.v_blinding,
        f.randomizer,
        f.ak,
        f.nk,
        f.anchor,
        f.bc,
        f.nullifier,
        f.rk,
    )
}

fn verify_spend(p: &SpendProof, f: &SpendFixture) -> Result<(), ProofError> {
    let (_pk, vk) = SpendCircuit::generate_test_parameters();
    p.verify(&vk, f.anchor, f.bc, f.nullifier, f.rk)
}

#[test]
fn honest_spend_proves_and_verifies() {
    let f = honest_spend();
    let p = prove_spend(&f).unwrap();
    assert!(verify_spend(&p, &f).is_ok());
}

#[test]
fn spend_fails_with_wrong_amount() {
    let mut f = honest_spend();
    f.note.value.amount = 2;
    let p = prove_spend(&f).unwrap();
    assert!(verify_spend(&p, &f).is_err());
}

#[test]
fn spend_fails_with_wrong_asset_id() {
    let mut f = honest_spend();
    f.note.value.asset_id = felt(2);
    let p = prove_spend(&f).unwrap();
    assert!(verify_spend(&p, &f).is_err());
}

#[test]
fn spend_fails_with_wrong_note_blinding() {
    let mut f = honest_spend();
    f.note.note_blinding = felt(12);
    let p = prove_spend(&f).unwrap();
    assert!(verify_spend(&p, &f).is_err());
}

#[test]
fn spend_fails_with_wrong_position() {
    let mut f = honest_spend();
    f.proof.position = 1;
    let p = prove_spend(&f).unwrap();
    assert!(verify_spend(&p, &f).is_err());
}

#[test]
fn spend_fails_with_wrong_nullifier_key() {
    let mut f = honest_spend();
    f.nk = felt(8);
    let p = prove_spend(&f).unwrap();
    assert!(verify_spend(&p, &f).is_err());
}

#[test]
fn spend_fails_with_wrong_randomizer() {
    let mut f = honest_spend();
    f.randomizer = Scalar::from_u64(2);
    let p = prove_spend(&f).unwrap();
    assert!(verify_spend(&p, &f).is_err());
}

#[test]
fn spend_fails_with_wrong_v_blinding() {
    let mut f = honest_spend();
    f.v_blinding = Scalar::from_u64(2);
    let p = prove_spend(&f).unwrap();
    assert!(verify_spend(&p, &f).is_err());
}

#[test]
fn verify_fails_with_swapped_public_inputs() {
    let f = honest_spend();
    let p = prove_spend(&f).unwrap();
    let (_pk, vk) = SpendCircuit::generate_test_parameters();
    // Swap the two field-valued public inputs: anchor and nullifier.
    let r = p.verify(&vk, Root(f.nullifier.0), f.bc, Nullifier(f.anchor.0), f.rk);
    assert!(r.is_err());
}

#[test]
fn dummy_spend_verifies_with_garbage_witness() {
    let mut f = honest_spend();
    // Zero amount makes this a dummy spend; scramble everything else that
    // the gated constraints would look at.
    f.note.value.amount = 0;
    f.note.transmission_key = gen_times(3);
    f.ak = gen_times(4);
    f.anchor = Root(felt(123));
    f.nullifier = Nullifier(felt(5));
    f.rk = gen_times(9);
    f.bc = BalanceCommitment(gen_times(10));
    let p = prove_spend(&f).unwrap();
    assert!(verify_spend(&p, &f).is_ok());
}

#[test]
fn non_dummy_garbage_witness_fails() {
    let mut f = honest_spend();
    f.note.value.amount = 1;
    f.note.transmission_key = gen_times(3);
    f.ak = gen_times(4);
    f.anchor = Root(felt(123));
    f.nullifier = Nullifier(felt(5));
    f.rk = gen_times(9);
    f.bc = BalanceCommitment(gen_times(10));
    let p = prove_spend(&f).unwrap();
    assert!(verify_spend(&p, &f).is_err());
}

#[test]
fn spend_prove_rejects_invalid_witness_encoding() {
    let mut f = honest_spend();
    f.note.diversified_generator = El { l0: 0, l1: 0, l2: 0, l3: u64::MAX };
    let r = prove_spend(&f);
    assert_eq!(r.err().unwrap(), ProofError::Synthesis);
}

#[test]
fn spend_verify_rejects_invalid_rk_encoding() {
    let f = honest_spend();
    let p = prove_spend(&f).unwrap();
    let (_pk, vk) = SpendCircuit::generate_test_parameters();
    let bad_rk = El { l0: 0, l1: 0, l2: 0, l3: u64::MAX };
    let r = p.verify(&vk, f.anchor, f.bc, f.nullifier, bad_rk);
    assert_eq!(r.err().unwrap(), ProofError::InputProcessing);
}

#[test]
fn spend_prove_rejects_mismatched_key_shape() {
    let f = honest_spend();
    let (pk, _vk) = OutputCircuit::generate_test_parameters();
    let r = SpendProof::prove(
        &pk,
        f.proof.clone(),
        f.note,
        f.v_blinding,
        f.randomizer,
        f.ak,
        f.nk,
        f.anchor,
        f.bc,
        f.nullifier,
        f.rk,
    );
    assert_eq!(r.err().unwrap(), ProofError::Proving);
}

#[test]
fn concrete_scenario_spend_then_corrupted_nullifier() {
    // One note of amount 1 of a fixed asset, inserted into an otherwise
    // empty tree; v_blinding = 1 and spend_auth_randomizer = 1.
    let f = honest_spend();
    let p = prove_spend(&f).unwrap();
    assert!(verify_spend(&p, &f).is_ok());
    // Corrupt the nullifier public input by one bit: must fail.
    let (_pk, vk) = SpendCircuit::generate_test_parameters();
    let corrupted = Nullifier(Felt {
        l0: f.nullifier.0.l0 ^ 1,
        l1: f.nullifier.0.l1,
        l2: f.nullifier.0.l2,
        l3: f.nullifier.0.l3,
    });
    let r = p.verify(&vk, f.anchor, f.bc, corrupted, f.rk);
    assert_eq!(r.err().unwrap(), ProofError::VerificationFailed);
}

#[test]
fn honest_output_proves_and_verifies() {
    let gd = gen_times(2);
    let tk = gen_times(3);
    let note = Note::from_parts(gd, tk, felt(9), Value { amount: 5, asset_id: felt(1) }, felt(11));
    let cm = note.commit();
    let v_blinding = Scalar::from_u64(4);
    let bc = balance_commit(5, &felt(1), &v_blinding);
    let (pk, vk) = OutputCircuit::generate_test_parameters();
    let p = OutputProof::prove(&pk, note, v_blinding, bc, cm).unwrap();
    assert!(p.verify(&vk, bc, cm).is_ok());
}

#[test]
fn output_fails_with_wrong_blinding() {
    let gd = gen_times(2);
    let tk = gen_times(3);
    let note = Note::from_parts(gd, tk, felt(9), Value { amount: 5, asset_id: felt(1) }, felt(11));
    let cm = note.commit();
    let bc = balance_commit(5, &felt(1), &Scalar::from_u64(4));
    let (pk, vk) = OutputCircuit::generate_test_parameters();
    // Witness a different blinding than the one the commitment was built
    // with: the value-commitment relation fails.
    let p = OutputProof::prove(&pk, note, Scalar::from_u64(5), bc, cm).unwrap();
    assert!(p.verify(&vk, bc, cm).is_err());
}

#[test]
fn output_fails_with_swapped_public_inputs() {
    let gd = gen_times(2);
    let tk = gen_times(3);
    let note = Note::from_parts(gd, tk, felt(9), Value { amount: 5, asset_id: felt(1) }, felt(11));
    let cm = note.commit();
    let v_blinding = Scalar::from_u64(4);
    let bc = balance_commit(5, &felt(1), &v_blinding);
    let (pk, vk) = OutputCircuit::generate_test_parameters();
    let p = OutputProof::prove(&pk, note, v_blinding, bc, cm).unwrap();
    // Swap the two public inputs with each other, keeping well-typedness:
    // pass the balance commitment's field value as the note commitment and
    // vice versa.
    let swapped_cm = NoteCommitment(bc.0.as_field());
    let swapped_bc = BalanceCommitment(El {
        l0: cm.0.l0,
        l1: cm.0.l1,
        l2: cm.0.l2,
        l3: cm.0.l3,
    });
    assert!(p.verify(&vk, swapped_bc, swapped_cm).is_err());
}

#[test]
fn output_never_dummy_amount_zero_still_enforced() {
    let gd = gen_times(2);
    let tk = gen_times(3);
    let note = Note::from_parts(gd, tk, felt(9), Value { amount: 0, asset_id: felt(1) }, felt(11));
    let cm = note.commit();
    let (pk, vk) = OutputCircuit::generate_test_parameters();
    // A wrong balance commitment must fail even at amount zero: the Output
    // circuit's constraints are unconditional.
    let wrong_bc = BalanceCommitment(gen_times(10));
    let p = OutputProof::prove(&pk, note, Scalar::from_u64(4), wrong_bc, cm).unwrap();
    assert!(p.verify(&vk, wrong_bc, cm).is_err());
}
