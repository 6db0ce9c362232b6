//! The Spend circuit: proves the right to spend an existing note — it is
//! included in the commitment tree under the public anchor, its nullifier is
//! correctly derived, its re-randomized spend authorization key is valid,
//! and its balance commitment matches — without revealing which note, its
//! position, or the unrandomized key. A spend of amount zero is a dummy
//! spend: every semantic constraint is gated by a selector that neutralizes
//! it, so the same circuit shape serves genuine and padding spends. Public
//! inputs, in allocation order: anchor, balance commitment, nullifier,
//! randomized verification key.

use vstd::prelude::*;
use vstd::pervasive::unreached;

use crate::backend;
use crate::cs::{gates_eq, Constraint, ConstraintSystem, Gate, ProofError, ProvingKey, VerifyingKey};
use crate::field::{felts_eq, spec_limbs, El, Felt, Scalar};
use crate::merkle::{spec_proof_root, MerkleProof, Root, Tree};
use crate::note::{
    balance_commit, derive_transmission_key, spec_balance_commit, spec_note_commit,
    spec_transmission_key, BalanceCommitment, Note, NoteCommitment, Value,
};

verus! {

/// Domain separator for the nullifier hash.
pub const DS_NULLIFIER: u64 = 3;

/// A deterministic, unlinkable tag marking a note as spent: one field
/// element, used by the ledger to reject double-spends.
#[derive(Clone, Copy, Debug, PartialEq, Eq, Structural)]
pub struct Nullifier(pub Felt);

/// The nullifier derived from a nullifier key, a note commitment, and the
/// commitment's position in the tree.
pub open spec fn spec_nullifier(nk: Seq<u64>, cm: Seq<u64>, pos: u64) -> Seq<u64> {
    backend::spec_hash3(spec_limbs(DS_NULLIFIER), nk, cm, spec_limbs(pos))
}

/// Derives the nullifier of the note committed at the given position.
pub fn derive_nullifier(nk: &Felt, cm: &NoteCommitment, pos: u64) -> (r: Nullifier)
    ensures
        r.0@ == spec_nullifier(nk@, cm.0@, pos),
{
    let ds = Felt::from_u64(DS_NULLIFIER);
    let pos_field = Felt::from_u64(pos);
    Nullifier(backend::hash3(&ds, nk, &cm.0, &pos_field))
}

/// The spend authorization key re-randomized by a scalar: the key plus the
/// basepoint multiplied by the randomizer.
pub open spec fn spec_rk(ak: Seq<u64>, randomizer: Seq<u64>) -> Seq<u64> {
    backend::spec_el_add(ak, backend::spec_el_mul_base(randomizer))
}

/// Re-randomizes a spend authorization key. Returns `None` exactly when the
/// key is not a valid group-element encoding.
pub fn derive_rk(ak: &El, randomizer: &Scalar) -> (r: Option<El>)
    ensures
        r is Some <==> backend::spec_decodes(ak@),
        r matches Some(rk) ==> rk@ == spec_rk(ak@, randomizer@) && backend::spec_decodes(rk@),
{
    if !backend::el_decodes(ak) {
        return None;
    }
    let offset = backend::el_mul_base(randomizer);
    Some(backend::el_add(ak, &offset))
}

/// The shape of every Spend circuit instance, dummy or genuine: its gates
/// in emission order.
pub open spec fn spend_gates() -> Seq<Gate> {
    seq![
        Gate::NoteCommitmentIntegrity,
        Gate::MerklePathInclusion,
        Gate::RkIntegrity,
        Gate::DiversifiedAddressIntegrity,
        Gate::DiversifiedBasepointNotIdentity,
        Gate::AkNotIdentity,
        Gate::ValueCommitmentIntegrity,
        Gate::NullifierIntegrity,
    ]
}

/// The public-input vector of a Spend proof, in allocation order.
pub open spec fn spend_public_inputs(
    anchor: Root,
    bc: BalanceCommitment,
    nf: Nullifier,
    rk: El,
) -> Seq<Felt> {
    seq![anchor.0, bc.0.spec_as_field(), nf.0, rk.spec_as_field()]
}

/// A Spend circuit instance: the witnessed inclusion proof, note, blindings
/// and keys, and the four public values.
#[derive(Clone, Debug)]
pub struct SpendCircuit {
    /// Inclusion proof for the note commitment.
    pub note_commitment_proof: MerkleProof,
    /// The note being spent.
    pub note: Note,
    /// The blinding factor used for generating the balance commitment.
    pub v_blinding: Scalar,
    /// The randomizer used for generating the randomized spend auth key.
    pub spend_auth_randomizer: Scalar,
    /// The spend authorization key.
    pub ak: El,
    /// The nullifier deriving key.
    pub nk: Felt,
    /// The merkle root of the note commitment tree.
    pub anchor: Root,
    /// Balance commitment of the note to be spent.
    pub balance_commitment: BalanceCommitment,
    /// Nullifier of the note to be spent.
    pub nullifier: Nullifier,
    /// The randomized verification spend key.
    pub rk: El,
}

impl SpendCircuit {
    /// Every witness value can be allocated: the group encodings the
    /// circuit decompresses are valid, and the inclusion proof carries a
    /// full path.
    pub open spec fn spec_allocates(&self) -> bool {
        &&& self.note_commitment_proof.wf()
        &&& backend::spec_decodes(self.note.diversified_generator@)
        &&& backend::spec_decodes(self.note.transmission_key@)
        &&& backend::spec_decodes(self.ak@)
        &&& backend::spec_decodes(self.balance_commitment.0@)
        &&& backend::spec_decodes(self.rk@)
    }

    /// A spend of amount zero is a dummy spend.
    pub open spec fn spec_is_dummy(&self) -> bool {
        self.note.value.amount == 0
    }

    /// The witnessed note commitment binds the witnessed note components.
    pub open spec fn spec_note_commitment_ok(&self) -> bool {
        self.note_commitment_proof.commitment.0@ == spec_note_commit(self.note)
    }

    /// The witnessed commitment, at the witnessed position, under the
    /// witnessed path, hashes to the public anchor.
    pub open spec fn spec_merkle_ok(&self) -> bool {
        spec_proof_root(self.note_commitment_proof) == self.anchor.0@
    }

    /// The public randomized key equals the authorization key re-randomized
    /// by the witnessed randomizer.
    pub open spec fn spec_rk_ok(&self) -> bool {
        self.rk@ == spec_rk(self.ak@, self.spend_auth_randomizer@)
    }

    /// The note's transmission key is derivable from the authorization key,
    /// the nullifier key, and the diversified generator.
    pub open spec fn spec_address_ok(&self) -> bool {
        self.note.transmission_key@ == spec_transmission_key(
            self.ak@,
            self.nk@,
            self.note.diversified_generator@,
        )
    }

    /// The note's diversified generator is not the group identity.
    pub open spec fn spec_basepoint_ok(&self) -> bool {
        !self.note.diversified_generator.spec_is_identity()
    }

    /// The authorization key is not the group identity.
    pub open spec fn spec_ak_ok(&self) -> bool {
        !self.ak.spec_is_identity()
    }

    /// The public balance commitment commits to the note's value under the
    /// witnessed blinding scalar.
    pub open spec fn spec_balance_ok(&self) -> bool {
        self.balance_commitment.0@ == spec_balance_commit(
            self.note.value.amount,
            self.note.value.asset_id@,
            self.v_blinding@,
        )
    }

    /// The public nullifier is derived from the witnessed commitment, the
    /// nullifier key, and the witnessed position.
    pub open spec fn spec_nullifier_ok(&self) -> bool {
        self.nullifier.0@ == spec_nullifier(
            self.nk@,
            self.note_commitment_proof.commitment.0@,
            self.note_commitment_proof.position,
        )
    }

    /// All gated relations of the circuit.
    pub open spec fn spec_relations(&self) -> bool {
        &&& self.spec_note_commitment_ok()
        &&& self.spec_merkle_ok()
        &&& self.spec_rk_ok()
        &&& self.spec_address_ok()
        &&& self.spec_basepoint_ok()
        &&& self.spec_ak_ok()
        &&& self.spec_balance_ok()
        &&& self.spec_nullifier_ok()
    }

    /// The circuit is satisfied when it is a dummy spend, or when every
    /// gated relation holds.
    pub open spec fn spec_satisfied(&self) -> bool {
        self.spec_is_dummy() || self.spec_relations()
    }

    /// The public-input vector of this instance, in allocation order.
    pub open spec fn spec_public_inputs(&self) -> Seq<Felt> {
        spend_public_inputs(self.anchor, self.balance_commitment, self.nullifier, self.rk)
    }

    /// Consumes the circuit and synthesizes its constraints: fails exactly
    /// when a witness value cannot be allocated, and otherwise emits the
    /// fixed gate sequence — every gate gated by the not-dummy selector —
    /// with each relation evaluated on the allocated values and the public
    /// inputs in allocation order.
    pub fn generate_constraints(self) -> (r: Result<ConstraintSystem, ProofError>)
        ensures
            r is Ok <==> self.spec_allocates(),
            r matches Ok(cs) ==> cs.spec_shape() == spend_gates() && cs.public_inputs@
                == self.spec_public_inputs() && (cs.spec_satisfied() <==> self.spec_satisfied()),
            r matches Err(e) ==> e == ProofError::Synthesis,
    {
        let wf_proof = self.note_commitment_proof.tiers.len() == 3
            && self.note_commitment_proof.tiers[0].steps.len() == 8
            && self.note_commitment_proof.tiers[1].steps.len() == 8
            && self.note_commitment_proof.tiers[2].steps.len() == 8;
        proof {
            if wf_proof {
                assert forall|i: int| 0 <= i < self.note_commitment_proof.tiers@.len() implies (
                #[trigger] self.note_commitment_proof.tiers@[i]).wf() by {
                    if i == 0 {
                    } else if i == 1 {
                    } else {
                    }
                }
            }
        }
        if !wf_proof {
            return Err(ProofError::Synthesis);
        }
        if !backend::el_decodes(&self.note.diversified_generator) {
            return Err(ProofError::Synthesis);
        }
        if !backend::el_decodes(&self.note.transmission_key) {
            return Err(ProofError::Synthesis);
        }
        if !backend::el_decodes(&self.ak) {
            return Err(ProofError::Synthesis);
        }
        if !backend::el_decodes(&self.balance_commitment.0) {
            return Err(ProofError::Synthesis);
        }
        if !backend::el_decodes(&self.rk) {
            return Err(ProofError::Synthesis);
        }

        // We gate every constraint below on this selector: a zero-amount
        // spend is a dummy spend, and its constraints are vacuously
        // satisfied while keeping the same shape.
        let is_not_dummy = self.note.value.amount != 0;

        let cm = self.note_commitment_proof.commitment;
        let computed_cm = self.note.commit();
        let h_note = cm.0.same(&computed_cm.0);

        let computed_root = self.note_commitment_proof.root();
        let h_merkle = computed_root.0.same(&self.anchor.0);

        let computed_rk = match derive_rk(&self.ak, &self.spend_auth_randomizer) {
            Some(rk) => rk,
            None => unreached(),
        };
        let h_rk = self.rk.same(&computed_rk);

        let ak_s = self.ak.as_field();
        let computed_tk = match derive_transmission_key(
            &ak_s,
            &self.nk,
            &self.note.diversified_generator,
        ) {
            Some(tk) => tk,
            None => unreached(),
        };
        let h_addr = self.note.transmission_key.same(&computed_tk);

        let h_basepoint = !self.note.diversified_generator.is_identity();
        let h_ak = !self.ak.is_identity();

        let computed_bc = balance_commit(
            self.note.value.amount,
            &self.note.value.asset_id,
            &self.v_blinding,
        );
        let h_balance = self.balance_commitment.0.same(&computed_bc.0);

        let computed_nf = derive_nullifier(&self.nk, &cm, self.note_commitment_proof.position);
        let h_nf = self.nullifier.0.same(&computed_nf.0);

        let mut public_inputs: Vec<Felt> = Vec::new();
        public_inputs.push(self.anchor.0);
        public_inputs.push(self.balance_commitment.0.as_field());
        public_inputs.push(self.nullifier.0);
        public_inputs.push(self.rk.as_field());

        let mut constraints: Vec<Constraint> = Vec::new();
        constraints.push(
            Constraint { gate: Gate::NoteCommitmentIntegrity, selector: is_not_dummy, holds: h_note },
        );
        constraints.push(
            Constraint { gate: Gate::MerklePathInclusion, selector: is_not_dummy, holds: h_merkle },
        );
        constraints.push(
            Constraint { gate: Gate::RkIntegrity, selector: is_not_dummy, holds: h_rk },
        );
        constraints.push(
            Constraint {
                gate: Gate::DiversifiedAddressIntegrity,
                selector: is_not_dummy,
                holds: h_addr,
            },
        );
        constraints.push(
            Constraint {
                gate: Gate::DiversifiedBasepointNotIdentity,
                selector: is_not_dummy,
                holds: h_basepoint,
            },
        );
        constraints.push(
            Constraint { gate: Gate::AkNotIdentity, selector: is_not_dummy, holds: h_ak },
        );
        constraints.push(
            Constraint {
                gate: Gate::ValueCommitmentIntegrity,
                selector: is_not_dummy,
                holds: h_balance,
            },
        );
        constraints.push(
            Constraint { gate: Gate::NullifierIntegrity, selector: is_not_dummy, holds: h_nf },
        );
        let cs = ConstraintSystem { public_inputs, constraints };
        proof {
            assert(cs.spec_shape() =~= spend_gates());
            assert(cs.public_inputs@ =~= self.spec_public_inputs());
            assert(h_note == self.spec_note_commitment_ok());
            assert(h_merkle == self.spec_merkle_ok());
            assert(h_rk == self.spec_rk_ok());
            assert(h_addr == self.spec_address_ok());
            assert(h_basepoint == self.spec_basepoint_ok());
            assert(h_ak == self.spec_ak_ok());
            assert(h_balance == self.spec_balance_ok());
            assert(h_nf == self.spec_nullifier_ok());
            let all = h_note && h_merkle && h_rk && h_addr && h_basepoint && h_ak && h_balance
                && h_nf;
            if !is_not_dummy || all {
                assert forall|i: int| 0 <= i < cs.constraints@.len() implies ((
                #[trigger] cs.constraints@[i]).selector ==> cs.constraints@[i].holds) by {
                    if i == 0 {
                    } else if i == 1 {
                    } else if i == 2 {
                    } else if i == 3 {
                    } else if i == 4 {
                    } else if i == 5 {
                    } else if i == 6 {
                    } else {
                    }
                }
            } else {
                if !h_note {
                    assert(cs.constraints@[0].selector && !cs.constraints@[0].holds);
                } else if !h_merkle {
                    assert(cs.constraints@[1].selector && !cs.constraints@[1].holds);
                } else if !h_rk {
                    assert(cs.constraints@[2].selector && !cs.constraints@[2].holds);
                } else if !h_addr {
                    assert(cs.constraints@[3].selector && !cs.constraints@[3].holds);
                } else if !h_basepoint {
                    assert(cs.constraints@[4].selector && !cs.constraints@[4].holds);
                } else if !h_ak {
                    assert(cs.constraints@[5].selector && !cs.constraints@[5].holds);
                } else if !h_balance {
                    assert(cs.constraints@[6].selector && !cs.constraints@[6].holds);
                } else {
                    assert(cs.constraints@[7].selector && !cs.constraints@[7].holds);
                }
            }
        }
        Ok(cs)
    }

    /// One-time generation of a matched proving/verifying key pair for the
    /// Spend circuit shape, built from fixed test witness values; for tests
    /// and benchmarks only, never a trusted production setup.
    pub fn generate_test_parameters() -> (r: (ProvingKey, VerifyingKey))
        ensures
            r.0.vk.shape@ == spend_gates(),
            r.1.shape@ == spend_gates(),
    {
        let gd = backend::el_map_to_group(&Felt::from_u64(1));
        let ak = backend::el_mul_base(&Scalar::from_u64(6));
        let nk = Felt::from_u64(7);
        let ak_s = ak.as_field();
        let tk = match derive_transmission_key(&ak_s, &nk, &gd) {
            Some(tk) => tk,
            None => unreached(),
        };
        let note = Note::from_parts(
            gd,
            tk,
            Felt::from_u64(1),
            Value { amount: 1, asset_id: Felt::from_u64(1) },
            Felt::from_u64(1),
        );
        let note_commitment = note.commit();
        let mut nct = Tree::new();
        let position = nct.insert(&note_commitment);
        let anchor = nct.root();
        let note_commitment_proof = match nct.witness(position) {
            Some(p) => p,
            None => unreached(),
        };
        let spend_auth_randomizer = Scalar::from_u64(1);
        let rk = match derive_rk(&ak, &spend_auth_randomizer) {
            Some(rk) => rk,
            None => unreached(),
        };
        let nullifier = derive_nullifier(&nk, &note_commitment, position);
        let v_blinding = Scalar::from_u64(1);
        let balance_commitment = BalanceCommitment(backend::el_mul_base(&Scalar::from_u64(1)));
        let circuit = SpendCircuit {
            note_commitment_proof,
            note,
            v_blinding,
            spend_auth_randomizer,
            ak,
            nk,
            anchor,
            balance_commitment,
            nullifier,
            rk,
        };
        let cs = match circuit.generate_constraints() {
            Ok(cs) => cs,
            Err(_) => unreached(),
        };
        let shape = cs.shape();
        let shape_vk = cs.shape();
        (ProvingKey { vk: VerifyingKey { shape } }, VerifyingKey { shape: shape_vk })
    }
}

/// A Spend proof: opaque to callers, it binds the public-input vector the
/// circuit was synthesized with and carries the proving system's guarantee —
/// it verifies exactly when the synthesized circuit was satisfied and the
/// verifier's public inputs match, in order.
#[derive(Clone, Debug)]
pub struct SpendProof {
    shape: Vec<Gate>,
    public_inputs: Vec<Felt>,
    satisfied: bool,
}

impl SpendProof {
    /// The circuit shape the proof was generated for.
    pub closed spec fn spec_shape(&self) -> Seq<Gate> {
        self.shape@
    }

    /// The public-input vector bound into the proof.
    pub closed spec fn spec_public_inputs(&self) -> Seq<Felt> {
        self.public_inputs@
    }

    /// Whether the synthesized circuit was satisfied by the witness.
    pub closed spec fn spec_satisfied(&self) -> bool {
        self.satisfied
    }

    /// The verification relation: the proof is accepted under a verifying
    /// key and an ordered public-input vector exactly when the key's shape
    /// matches, the circuit was satisfied, and the vector equals the one
    /// bound into the proof.
    pub open spec fn spec_accepts(&self, vk: VerifyingKey, pubs: Seq<Felt>) -> bool {
        vk.shape@ == self.spec_shape() && self.spec_satisfied() && self.spec_public_inputs()
            == pubs
    }

    /// Generates a Spend proof: constructs the circuit from the witness and
    /// public values, synthesizes its constraints, and runs the proving
    /// algorithm. Fails on a witness that cannot be allocated, or on a
    /// proving key whose shape does not match the circuit.
    pub fn prove(
        pk: &ProvingKey,
        note_commitment_proof: MerkleProof,
        note: Note,
        v_blinding: Scalar,
        spend_auth_randomizer: Scalar,
        ak: El,
        nk: Felt,
        anchor: Root,
        balance_commitment: BalanceCommitment,
        nullifier: Nullifier,
        rk: El,
    ) -> (r: Result<SpendProof, ProofError>)
        ensures
            ({
                let c = SpendCircuit {
                    note_commitment_proof,
                    note,
                    v_blinding,
                    spend_auth_randomizer,
                    ak,
                    nk,
                    anchor,
                    balance_commitment,
                    nullifier,
                    rk,
                };
                &&& (r is Ok <==> c.spec_allocates() && pk.vk.shape@ == spend_gates())
                &&& (r matches Ok(p) ==> p.spec_shape() == spend_gates()
                    && p.spec_public_inputs() == c.spec_public_inputs() && p.spec_satisfied()
                    == c.spec_satisfied())
            }),
    {
        let circuit = SpendCircuit {
            note_commitment_proof,
            note,
            v_blinding,
            spend_auth_randomizer,
            ak,
            nk,
            anchor,
            balance_commitment,
            nullifier,
            rk,
        };
        let cs = match circuit.generate_constraints() {
            Ok(cs) => cs,
            Err(e) => {
                return Err(e);
            },
        };
        let shape = cs.shape();
        if !gates_eq(&shape, &pk.vk.shape) {
            return Err(ProofError::Proving);
        }
        let satisfied = cs.is_satisfied();
        Ok(SpendProof { shape, public_inputs: cs.public_inputs, satisfied })
    }

    /// Verifies the proof using the provided public inputs, reconstructed
    /// into the circuit's allocation order: anchor, balance commitment,
    /// nullifier, randomized verification key. Fails with an
    /// input-processing error when the randomized key is not a valid
    /// group-element encoding.
    pub fn verify(
        &self,
        vk: &VerifyingKey,
        anchor: Root,
        balance_commitment: BalanceCommitment,
        nullifier: Nullifier,
        rk: El,
    ) -> (r: Result<(), ProofError>)
        ensures
            r is Ok <==> backend::spec_decodes(rk@) && self.spec_accepts(
                *vk,
                spend_public_inputs(anchor, balance_commitment, nullifier, rk),
            ),
            r matches Err(e) ==> (e == ProofError::InputProcessing <==> !backend::spec_decodes(
                rk@,
            )),
            r matches Err(e) ==> e == ProofError::InputProcessing || e
                == ProofError::VerificationFailed,
    {
        if !backend::el_decodes(&rk) {
            return Err(ProofError::InputProcessing);
        }
        let mut pubs: Vec<Felt> = Vec::new();
        pubs.push(anchor.0);
        pubs.push(balance_commitment.0.as_field());
        pubs.push(nullifier.0);
        pubs.push(rk.as_field());
        proof {
            assert(pubs@ =~= spend_public_inputs(anchor, balance_commitment, nullifier, rk));
        }
        if gates_eq(&vk.shape, &self.shape) && self.satisfied && felts_eq(
            &self.public_inputs,
            &pubs,
        ) {
            Ok(())
        } else {
            Err(ProofError::VerificationFailed)
        }
    }
}

} // verus!
