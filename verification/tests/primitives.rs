//! Tests of the cryptographic primitives and the commitment tree: the
//! trusted bindings are cross-checked against direct backend computations,
//! and nullifier/key derivations are checked for determinism and
//! distinctness.

use shielded_proofs::field::{El, Felt, Scalar};
use shielded_proofs::merkle::Tree;
use shielded_proofs::note::{derive_transmission_key, Note, NoteCommitment, Value};
use shielded_proofs::spend::{derive_nullifier, derive_rk};

fn felt(x: u64) -> Felt {
    Felt::from_u64(x)
}

fn el_from_bytes(b: [u8; 32]) -> El {
    El {
        l0: u64::from_le_bytes(b[0..8].try_into().unwrap()),
        l1: u64::from_le_bytes(b[8..16].try_into().unwrap()),
        l2: u64::from_le_bytes(b[16..24].try_into().unwrap()),
        l3: u64::from_le_bytes(b[24..32].try_into().unwrap()),
    }
}

fn gen_times(k: u64) -> El {
    el_from_bytes((decaf377::Element::GENERATOR * decaf377::Fr::from(k)).vartime_compress().0)
}

fn fq_of_felt(f: &Felt) -> decaf377::Fq {
    let mut b = [0u8; 32];
    b[0..8].copy_from_slice(&f.l0.to_le_bytes());
    b[8..16].copy_from_slice(&f.l1.to_le_bytes());
    b[16..24].copy_from_slice(&f.l2.to_le_bytes());
    b[24..32].copy_from_slice(&f.l3.to_le_bytes());
    decaf377::Fq::from_le_bytes_mod_order(&b)
}

fn felt_of_fq(x: decaf377::Fq) -> Felt {
    let b = x.to_bytes();
    Felt {
        l0: u64::from_le_bytes(b[0..8].try_into().unwrap()),
        l1: u64::from_le_bytes(b[8..16].try_into().unwrap()),
        l2: u64::from_le_bytes(b[16..24].try_into().unwrap()),
        l3: u64::from_le_bytes(b[24..32].try_into().unwrap()),
    }
}

#[test]
fn nullifier_matches_backend_hash() {
    let nk = felt(7);
    let cm = NoteCommitment(felt(99));
    let nf = derive_nullifier(&nk, &cm, 5);
    let expected = poseidon377::hash_3(
        &decaf377::Fq::from(3u64),
        (fq_of_felt(&nk), fq_of_felt(&cm.0), decaf377::Fq::from(5u64)),
    );
    assert_eq!(nf.0, felt_of_fq(expected));
}

#[test]
fn note_commit_matches_backend_hash() {
    let gd = gen_times(2);
    let tk = gen_times(3);
    let note = Note::from_parts(gd, tk, felt(9), Value { amount: 4, asset_id: felt(1) }, felt(11));
    let cm = note.commit();
    let expected = poseidon377::hash_6(
        &decaf377::Fq::from(2u64),
        (
            decaf377::Fq::from(11u64),
            decaf377::Fq::from(4u64),
            decaf377::Fq::from(1u64),
            fq_of_felt(&gd.as_field()),
            fq_of_felt(&tk.as_field()),
            decaf377::Fq::from(9u64),
        ),
    );
    assert_eq!(cm.0, felt_of_fq(expected));
}

#[test]
fn rk_derivation_matches_group_arithmetic() {
    let ak = gen_times(5);
    let rk = derive_rk(&ak, &Scalar::from_u64(3)).unwrap();
    assert_eq!(rk, gen_times(8));
}

#[test]
fn rk_rejects_invalid_key_encoding() {
    let bad = El { l0: 1, l1: 2, l2: 3, l3: u64::MAX };
    assert!(derive_rk(&bad, &Scalar::from_u64(1)).is_none());
}

#[test]
fn nullifier_deterministic_and_position_sensitive() {
    let nk = felt(7);
    let cm = NoteCommitment(felt(42));
    let a = derive_nullifier(&nk, &cm, 0);
    let b = derive_nullifier(&nk, &cm, 0);
    assert_eq!(a, b);
    let c = derive_nullifier(&nk, &cm, 1);
    assert_ne!(a, c);
    let d = derive_nullifier(&felt(8), &cm, 0);
    assert_ne!(a, d);
}

#[test]
fn rk_values_pairwise_distinct_for_distinct_randomizers() {
    let ak = gen_times(6);
    let mut rks: Vec<El> = Vec::new();
    for r in 1u64..=5 {
        rks.push(derive_rk(&ak, &Scalar::from_u64(r)).unwrap());
    }
    for i in 0..rks.len() {
        for j in 0..rks.len() {
            if i != j {
                assert_ne!(rks[i], rks[j]);
            }
        }
    }
}

fn bytes_of(e: &El) -> [u8; 32] {
    let mut b = [0u8; 32];
    b[0..8].copy_from_slice(&e.l0.to_le_bytes());
    b[8..16].copy_from_slice(&e.l1.to_le_bytes());
    b[16..24].copy_from_slice(&e.l2.to_le_bytes());
    b[24..32].copy_from_slice(&e.l3.to_le_bytes());
    b
}

#[test]
fn transmission_key_matches_backend_derivation() {
    let ak = gen_times(6);
    let nk = felt(7);
    let gd = gen_times(2);
    let tk = derive_transmission_key(&ak.as_field(), &nk, &gd).unwrap();
    let ivk_fq = poseidon377::hash_2(
        &decaf377::Fq::from(4u64),
        (fq_of_felt(&nk), fq_of_felt(&ak.as_field())),
    );
    let ivk = decaf377::Fr::from_le_bytes_mod_order(&ivk_fq.to_bytes());
    let gd_point = decaf377::Encoding(bytes_of(&gd)).vartime_decompress().unwrap();
    let expected = el_from_bytes((gd_point * ivk).vartime_compress().0);
    assert_eq!(tk, expected);
}

#[test]
fn balance_commit_matches_group_arithmetic() {
    let bc = shielded_proofs::note::balance_commit(5, &felt(1), &Scalar::from_u64(4));
    let value_gen = decaf377::Element::encode_to_curve(&decaf377::Fq::from(1u64));
    let expected = el_from_bytes(
        (value_gen * decaf377::Fr::from(5u64)
            + decaf377::Element::GENERATOR * decaf377::Fr::from(4u64))
        .vartime_compress()
        .0,
    );
    assert_eq!(bc.0, expected);
}

#[test]
fn transmission_key_requires_valid_generator() {
    let ak = gen_times(6);
    let bad = El { l0: 0, l1: 0, l2: 0, l3: u64::MAX };
    assert!(derive_transmission_key(&ak.as_field(), &felt(7), &bad).is_none());
    assert!(derive_transmission_key(&ak.as_field(), &felt(7), &gen_times(2)).is_some());
}

#[test]
fn tree_insert_positions_and_witness_bounds() {
    let mut tree = Tree::new();
    let cm0 = NoteCommitment(felt(10));
    let cm1 = NoteCommitment(felt(20));
    assert_eq!(tree.insert(&cm0), 0);
    assert_eq!(tree.insert(&cm1), 1);
    assert!(tree.witness(2).is_none());
    let w0 = tree.witness(0).unwrap();
    assert_eq!(w0.position, 0);
    assert_eq!(w0.commitment, cm0);
    let w1 = tree.witness(1).unwrap();
    assert_eq!(w1.commitment, cm1);
}

#[test]
fn tree_witness_folds_to_root() {
    let mut tree = Tree::new();
    let cm0 = NoteCommitment(felt(10));
    let cm1 = NoteCommitment(felt(20));
    let cm2 = NoteCommitment(felt(30));
    tree.insert(&cm0);
    tree.insert(&cm1);
    tree.insert(&cm2);
    let anchor = tree.root();
    for pos in 0..3u64 {
        let w = tree.witness(pos).unwrap();
        assert_eq!(w.root(), anchor);
    }
}

#[test]
fn tree_root_changes_with_contents() {
    let mut t1 = Tree::new();
    t1.insert(&NoteCommitment(felt(1)));
    let mut t2 = Tree::new();
    t2.insert(&NoteCommitment(felt(2)));
    assert_ne!(t1.root(), t2.root());
    let empty_root = Tree::new().root();
    assert_ne!(t1.root(), empty_root);
}
