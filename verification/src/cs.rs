//! The constraint-system model: a circuit instance synthesizes a fixed
//! sequence of named relations (gates), each carrying a selector and the
//! truth value of its relation on the allocated values. Every instance of a
//! circuit emits the same gate sequence — its shape — and only the effective
//! truth values differ; proving and verifying keys are matched per shape.

use vstd::prelude::*;

verus! {

/// The named relations that the circuits compose.
#[derive(Clone, Copy, Debug, PartialEq, Eq, Structural)]
pub enum Gate {
    /// The witnessed note commitment binds the witnessed note components.
    NoteCommitmentIntegrity,
    /// The witnessed commitment, at the witnessed position, under the
    /// witnessed path, hashes to the public anchor.
    MerklePathInclusion,
    /// The public randomized key equals the authorization key re-randomized
    /// by the witnessed randomizer.
    RkIntegrity,
    /// The note's transmission key is derivable from the authorization key,
    /// the nullifier key, and the diversified generator.
    DiversifiedAddressIntegrity,
    /// The note's diversified generator is not the group identity.
    DiversifiedBasepointNotIdentity,
    /// The authorization key is not the group identity.
    AkNotIdentity,
    /// The public balance commitment commits to the note's value under the
    /// witnessed blinding scalar.
    ValueCommitmentIntegrity,
    /// The public nullifier is derived from the witnessed commitment,
    /// nullifier key, and position.
    NullifierIntegrity,
}

/// One emitted constraint: a gate, its selector, and whether its relation
/// holds on the allocated values. A constraint with a false selector is
/// vacuously satisfied whatever its relation's truth value.
#[derive(Clone, Copy, Debug, PartialEq, Eq, Structural)]
pub struct Constraint {
    pub gate: Gate,
    pub selector: bool,
    pub holds: bool,
}

/// A synthesized constraint system: the public-input vector in allocation
/// order, and the emitted constraints in emission order.
#[derive(Clone, Debug, PartialEq, Eq)]
pub struct ConstraintSystem {
    pub public_inputs: Vec<crate::field::Felt>,
    pub constraints: Vec<Constraint>,
}

impl ConstraintSystem {
    /// The shape of the system: its gate sequence, without truth values.
    pub open spec fn spec_shape(&self) -> Seq<Gate> {
        self.constraints@.map_values(|c: Constraint| c.gate)
    }

    /// The system is satisfied when every constraint with a true selector
    /// holds.
    pub open spec fn spec_satisfied(&self) -> bool {
        forall|i: int|
            0 <= i < self.constraints@.len() ==> ((#[trigger] self.constraints@[i]).selector
                ==> self.constraints@[i].holds)
    }

    /// Whether every selected constraint holds.
    pub fn is_satisfied(&self) -> (r: bool)
        ensures
            r == self.spec_satisfied(),
    {
        let mut i: usize = 0;
        while i < self.constraints.len()
            invariant
                i <= self.constraints@.len(),
                forall|k: int|
                    0 <= k < i ==> ((#[trigger] self.constraints@[k]).selector
                        ==> self.constraints@[k].holds),
            decreases self.constraints@.len() - i,
        {
            let c = self.constraints[i];
            if c.selector && !c.holds {
                return false;
            }
            i = i + 1;
        }
        true
    }

    /// The gates of the system, in emission order.
    pub fn shape(&self) -> (r: Vec<Gate>)
        ensures
            r@ == self.spec_shape(),
    {
        let mut out: Vec<Gate> = Vec::new();
        let mut i: usize = 0;
        while i < self.constraints.len()
            invariant
                i <= self.constraints@.len(),
                out@.len() == i,
                forall|k: int| 0 <= k < i ==> out@[k] == (#[trigger] self.constraints@[k]).gate,
            decreases self.constraints@.len() - i,
        {
            out.push(self.constraints[i].gate);
            i = i + 1;
        }
        proof {
            assert(out@ =~= self.spec_shape());
        }
        out
    }
}

/// A proving key: parameters matched to one circuit shape.
#[derive(Clone, Debug, PartialEq, Eq)]
pub struct ProvingKey {
    pub vk: VerifyingKey,
}

/// A verifying key: the circuit shape that proofs are checked against.
#[derive(Clone, Debug, PartialEq, Eq)]
pub struct VerifyingKey {
    pub shape: Vec<Gate>,
}

/// The failures of the proving protocol.
#[derive(Clone, Copy, Debug, PartialEq, Eq, Structural)]
pub enum ProofError {
    /// A witness value could not be allocated into the constraint system.
    Synthesis,
    /// The proving key does not match the synthesized circuit shape.
    Proving,
    /// A public input could not be converted for verification.
    InputProcessing,
    /// The proof does not satisfy the public inputs under the verifying key.
    VerificationFailed,
}

/// Whether two gate sequences are equal.
pub fn gates_eq(a: &Vec<Gate>, b: &Vec<Gate>) -> (r: bool)
    ensures
        r == (a@ == b@),
{
    if a.len() != b.len() {
        return false;
    }
    let mut i: usize = 0;
    while i < a.len()
        invariant
            a@.len() == b@.len(),
            i <= a@.len(),
            forall|k: int| 0 <= k < i ==> a@[k] == b@[k],
        decreases a@.len() - i,
    {
        if a[i] != b[i] {
            return false;
        }
        i = i + 1;
    }
    proof {
        assert(a@ =~= b@);
    }
    true
}

} // verus!
