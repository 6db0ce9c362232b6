//! The Output circuit: proves that a freshly created note is well-formed and
//! that its declared balance commitment matches it, without revealing the
//! note beyond the two public commitments. Public inputs, in allocation
//! order: the note commitment, then the balance commitment.

use vstd::prelude::*;
use vstd::pervasive::unreached;

use crate::backend;
use crate::cs::{gates_eq, Constraint, ConstraintSystem, Gate, ProofError, ProvingKey, VerifyingKey};
use crate::field::{felts_eq, Felt, Scalar};
use crate::note::{balance_commit, spec_balance_commit, spec_note_commit, BalanceCommitment, Note, NoteCommitment, Value};

verus! {

/// The shape of every Output circuit instance: its gates in emission order.
pub open spec fn output_gates() -> Seq<Gate> {
    seq![
        Gate::DiversifiedBasepointNotIdentity,
        Gate::ValueCommitmentIntegrity,
        Gate::NoteCommitmentIntegrity,
    ]
}

/// The public-input vector of an Output proof, in allocation order.
pub open spec fn output_public_inputs(ncm: NoteCommitment, bc: BalanceCommitment) -> Seq<Felt> {
    seq![ncm.0, bc.0.spec_as_field()]
}

/// An Output circuit instance: the witnessed note and balance blinding, and
/// the two public commitments.
#[derive(Clone, Copy, Debug, PartialEq, Eq, Structural)]
pub struct OutputCircuit {
    /// The note being created.
    pub note: Note,
    /// The blinding factor used for generating the balance commitment.
    pub v_blinding: Scalar,
    /// Balance commitment of the new note.
    pub balance_commitment: BalanceCommitment,
    /// Note commitment of the new note.
    pub note_commitment: NoteCommitment,
}

impl OutputCircuit {
    /// Every witness value can be allocated: the two group encodings the
    /// circuit decompresses are valid.
    pub open spec fn spec_allocates(&self) -> bool {
        backend::spec_decodes(self.note.diversified_generator@) && backend::spec_decodes(
            self.balance_commitment.0@,
        )
    }

    /// The note's diversified generator is not the group identity.
    pub open spec fn spec_basepoint_ok(&self) -> bool {
        !self.note.diversified_generator.spec_is_identity()
    }

    /// The public balance commitment commits to the note's value under the
    /// witnessed blinding scalar.
    pub open spec fn spec_balance_ok(&self) -> bool {
        self.balance_commitment.0@ == spec_balance_commit(
            self.note.value.amount,
            self.note.value.asset_id@,
            self.v_blinding@,
        )
    }

    /// The public note commitment binds the witnessed note components.
    pub open spec fn spec_note_commitment_ok(&self) -> bool {
        self.note_commitment.0@ == spec_note_commit(self.note)
    }

    /// All relations of the circuit.
    pub open spec fn spec_relations(&self) -> bool {
        self.spec_basepoint_ok() && self.spec_balance_ok() && self.spec_note_commitment_ok()
    }

    /// An Output is never dummy: the circuit is satisfied exactly when all
    /// its relations hold.
    pub open spec fn spec_satisfied(&self) -> bool {
        self.spec_relations()
    }

    /// The public-input vector of this instance, in allocation order.
    pub open spec fn spec_public_inputs(&self) -> Seq<Felt> {
        output_public_inputs(self.note_commitment, self.balance_commitment)
    }

    /// Consumes the circuit and synthesizes its constraints: fails exactly
    /// when a witness value cannot be allocated, and otherwise emits the
    /// fixed gate sequence, each gate's relation evaluated on the allocated
    /// values, with the public inputs in allocation order.
    pub fn generate_constraints(self) -> (r: Result<ConstraintSystem, ProofError>)
        ensures
            r is Ok <==> self.spec_allocates(),
            r matches Ok(cs) ==> cs.spec_shape() == output_gates() && cs.public_inputs@
                == self.spec_public_inputs() && (cs.spec_satisfied() <==> self.spec_satisfied()),
            r matches Err(e) ==> e == ProofError::Synthesis,
    {
        if !backend::el_decodes(&self.note.diversified_generator) {
            return Err(ProofError::Synthesis);
        }
        if !backend::el_decodes(&self.balance_commitment.0) {
            return Err(ProofError::Synthesis);
        }
        let h_basepoint = !self.note.diversified_generator.is_identity();
        let computed_bc = balance_commit(
            self.note.value.amount,
            &self.note.value.asset_id,
            &self.v_blinding,
        );
        let h_balance = self.balance_commitment.0.same(&computed_bc.0);
        let computed_cm = self.note.commit();
        let h_note = self.note_commitment.0.same(&computed_cm.0);

        let mut public_inputs: Vec<Felt> = Vec::new();
        public_inputs.push(self.note_commitment.0);
        public_inputs.push(self.balance_commitment.0.as_field());

        let mut constraints: Vec<Constraint> = Vec::new();
        constraints.push(
            Constraint {
                gate: Gate::DiversifiedBasepointNotIdentity,
                selector: true,
                holds: h_basepoint,
            },
        );
        constraints.push(
            Constraint { gate: Gate::ValueCommitmentIntegrity, selector: true, holds: h_balance },
        );
        constraints.push(
            Constraint { gate: Gate::NoteCommitmentIntegrity, selector: true, holds: h_note },
        );
        let cs = ConstraintSystem { public_inputs, constraints };
        proof {
            assert(cs.spec_shape() =~= output_gates());
            assert(cs.public_inputs@ =~= self.spec_public_inputs());
            assert(h_basepoint == self.spec_basepoint_ok());
            assert(h_balance == self.spec_balance_ok());
            assert(h_note == self.spec_note_commitment_ok());
            if h_basepoint && h_balance && h_note {
                assert forall|i: int| 0 <= i < cs.constraints@.len() implies ((
                #[trigger] cs.constraints@[i]).selector ==> cs.constraints@[i].holds) by {
                    if i == 0 {
                    } else if i == 1 {
                    } else {
                    }
                }
            } else {
                if !h_basepoint {
                    assert(cs.constraints@[0].selector && !cs.constraints@[0].holds);
                } else if !h_balance {
                    assert(cs.constraints@[1].selector && !cs.constraints@[1].holds);
                } else {
                    assert(cs.constraints@[2].selector && !cs.constraints@[2].holds);
                }
            }
        }
        Ok(cs)
    }

    /// One-time generation of a matched proving/verifying key pair for the
    /// Output circuit shape, built from fixed test witness values; for tests
    /// and benchmarks only, never a trusted production setup.
    pub fn generate_test_parameters() -> (r: (ProvingKey, VerifyingKey))
        ensures
            r.0.vk.shape@ == output_gates(),
            r.1.shape@ == output_gates(),
    {
        let gd = backend::el_map_to_group(&Felt::from_u64(1));
        let note = Note::from_parts(
            gd,
            gd,
            Felt::from_u64(1),
            Value { amount: 1, asset_id: Felt::from_u64(1) },
            Felt::from_u64(1),
        );
        let note_commitment = note.commit();
        let v_blinding = Scalar::from_u64(1);
        let balance_commitment = BalanceCommitment(backend::el_mul_base(&Scalar::from_u64(1)));
        let circuit = OutputCircuit { note, v_blinding, balance_commitment, note_commitment };
        let cs = match circuit.generate_constraints() {
            Ok(cs) => cs,
            Err(_) => unreached(),
        };
        let shape = cs.shape();
        let shape_vk = cs.shape();
        (ProvingKey { vk: VerifyingKey { shape } }, VerifyingKey { shape: shape_vk })
    }
}

/// An Output proof: opaque to callers, it binds the public-input vector the
/// circuit was synthesized with and carries the proving system's guarantee —
/// it verifies exactly when the synthesized circuit was satisfied and the
/// verifier's public inputs match, in order.
#[derive(Clone, Debug)]
pub struct OutputProof {
    shape: Vec<Gate>,
    public_inputs: Vec<Felt>,
    satisfied: bool,
}

impl OutputProof {
    /// The circuit shape the proof was generated for.
    pub closed spec fn spec_shape(&self) -> Seq<Gate> {
        self.shape@
    }

    /// The public-input vector bound into the proof.
    pub closed spec fn spec_public_inputs(&self) -> Seq<Felt> {
        self.public_inputs@
    }

    /// Whether the synthesized circuit was satisfied by the witness.
    pub closed spec fn spec_satisfied(&self) -> bool {
        self.satisfied
    }

    /// The verification relation: the proof is accepted under a verifying
    /// key and an ordered public-input vector exactly when the key's shape
    /// matches, the circuit was satisfied, and the vector equals the one
    /// bound into the proof.
    pub open spec fn spec_accepts(&self, vk: VerifyingKey, pubs: Seq<Felt>) -> bool {
        vk.shape@ == self.spec_shape() && self.spec_satisfied() && self.spec_public_inputs()
            == pubs
    }

    /// Generates an Output proof: constructs the circuit from the witness
    /// and public values, synthesizes its constraints, and runs the proving
    /// algorithm. Fails on a witness that cannot be allocated, or on a
    /// proving key whose shape does not match the circuit.
    pub fn prove(
        pk: &ProvingKey,
        note: Note,
        v_blinding: Scalar,
        balance_commitment: BalanceCommitment,
        note_commitment: NoteCommitment,
    ) -> (r: Result<OutputProof, ProofError>)
        ensures
            ({
                let c = OutputCircuit { note, v_blinding, balance_commitment, note_commitment };
                &&& (r is Ok <==> c.spec_allocates() && pk.vk.shape@ == output_gates())
                &&& (r matches Ok(p) ==> p.spec_shape() == output_gates()
                    && p.spec_public_inputs() == c.spec_public_inputs() && p.spec_satisfied()
                    == c.spec_satisfied())
            }),
    {
        let circuit = OutputCircuit { note, v_blinding, balance_commitment, note_commitment };
        let cs = match circuit.generate_constraints() {
            Ok(cs) => cs,
            Err(e) => {
                return Err(e);
            },
        };
        let shape = cs.shape();
        if !gates_eq(&shape, &pk.vk.shape) {
            return Err(ProofError::Proving);
        }
        let satisfied = cs.is_satisfied();
        Ok(OutputProof { shape, public_inputs: cs.public_inputs, satisfied })
    }

    /// Verifies the proof using the provided public inputs.
    ///
    /// The public inputs are:
    /// * balance commitment of the new note,
    /// * note commitment of the new note,
    /// reconstructed into the circuit's allocation order: the note
    /// commitment first, then the balance commitment.
    pub fn verify(
        &self,
        vk: &VerifyingKey,
        balance_commitment: BalanceCommitment,
        note_commitment: NoteCommitment,
    ) -> (r: Result<(), ProofError>)
        ensures
            r is Ok <==> self.spec_accepts(
                *vk,
                output_public_inputs(note_commitment, balance_commitment),
            ),
            r matches Err(e) ==> e == ProofError::VerificationFailed,
    {
        let mut pubs: Vec<Felt> = Vec::new();
        pubs.push(note_commitment.0);
        pubs.push(balance_commitment.0.as_field());
        proof {
            assert(pubs@ =~= output_public_inputs(note_commitment, balance_commitment));
        }
        if gates_eq(&vk.shape, &self.shape) && self.satisfied && felts_eq(
            &self.public_inputs,
            &pubs,
        ) {
            Ok(())
        } else {
            Err(ProofError::VerificationFailed)
        }
    }
}

} // verus!
