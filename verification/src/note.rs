//! Notes and the commitments that bind them: the note commitment (a hash
//! binding all six note components), the balance commitment (a Pedersen-style
//! commitment to the note's value under a blinding scalar), and the
//! derivation of a note's transmission key from the owner's key material.

use vstd::prelude::*;

use crate::backend;
use crate::field::{spec_limbs, El, Felt, Scalar};

verus! {

/// Domain separator for the note commitment hash.
pub const DS_NOTE_COMMIT: u64 = 2;

/// Domain separator for the incoming-viewing-key hash.
pub const DS_IVK: u64 = 4;

/// A typed amount of a single asset.
#[derive(Clone, Copy, Debug, PartialEq, Eq, Structural)]
pub struct Value {
    /// The amount of the asset.
    pub amount: u64,
    /// The asset identifier, as a base-field element.
    pub asset_id: Felt,
}

/// A unit of value addressed to a recipient. The address components are held
/// in their circuit-field representations: the diversified generator and
/// transmission key as group-element encodings, the clue key as the field
/// element read from its byte encoding.
#[derive(Clone, Copy, Debug, PartialEq, Eq, Structural)]
pub struct Note {
    /// The diversified basepoint of the recipient's address.
    pub diversified_generator: El,
    /// The transmission key of the recipient's address.
    pub transmission_key: El,
    /// The clue key of the recipient's address, as a field element.
    pub clue_key: Felt,
    /// The value carried by the note.
    pub value: Value,
    /// The blinding factor of the note commitment.
    pub note_blinding: Felt,
}

/// A binding and hiding commitment to a note: one field element.
#[derive(Clone, Copy, Debug, PartialEq, Eq, Structural)]
pub struct NoteCommitment(pub Felt);

/// A Pedersen-style commitment to a signed value under a blinding scalar:
/// one group element.
#[derive(Clone, Copy, Debug, PartialEq, Eq, Structural)]
pub struct BalanceCommitment(pub El);

/// The note commitment bound to the given note components: the hash of the
/// 6-tuple (note blinding, amount, asset id, diversified generator,
/// transmission key, clue key) under the note-commitment domain separator.
pub open spec fn spec_note_commit(n: Note) -> Seq<u64> {
    backend::spec_hash6(
        spec_limbs(DS_NOTE_COMMIT),
        n.note_blinding@,
        spec_limbs(n.value.amount),
        n.value.asset_id@,
        n.diversified_generator@,
        n.transmission_key@,
        n.clue_key@,
    )
}

/// The balance commitment bound to a value: the amount times the asset's
/// value generator, plus the blinding scalar times the basepoint.
pub open spec fn spec_balance_commit(amount: u64, asset_id: Seq<u64>, v_blinding: Seq<u64>) -> Seq<
    u64,
> {
    backend::spec_el_add(
        backend::spec_el_mul(spec_limbs(amount), backend::spec_el_map_to_group(asset_id)),
        backend::spec_el_mul_base(v_blinding),
    )
}

/// The transmission key derived from the spend authorization key (as the
/// field element carried by its encoding), the nullifier key, and the
/// diversified generator: the incoming viewing key is the hash of (nullifier
/// key, authorization key) reduced into the scalar field, and the
/// transmission key is the diversified generator multiplied by it.
pub open spec fn spec_transmission_key(ak_s: Seq<u64>, nk: Seq<u64>, gd: Seq<u64>) -> Seq<u64> {
    backend::spec_el_mul(
        backend::spec_fr_from_field(backend::spec_hash2(spec_limbs(DS_IVK), nk, ak_s)),
        gd,
    )
}

impl Note {
    /// Assembles a note from its components.
    pub fn from_parts(
        diversified_generator: El,
        transmission_key: El,
        clue_key: Felt,
        value: Value,
        note_blinding: Felt,
    ) -> (r: Note)
        ensures
            r == (Note {
                diversified_generator,
                transmission_key,
                clue_key,
                value,
                note_blinding,
            }),
    {
        Note { diversified_generator, transmission_key, clue_key, value, note_blinding }
    }

    /// The note commitment binding all six components of this note.
    pub fn commit(&self) -> (r: NoteCommitment)
        ensures
            r.0@ == spec_note_commit(*self),
    {
        let ds = Felt::from_u64(DS_NOTE_COMMIT);
        let amount = Felt::from_u64(self.value.amount);
        let gd = self.diversified_generator.as_field();
        let tk = self.transmission_key.as_field();
        NoteCommitment(
            backend::hash6(
                &ds,
                &self.note_blinding,
                &amount,
                &self.value.asset_id,
                &gd,
                &tk,
                &self.clue_key,
            ),
        )
    }
}

/// Commits to an amount of an asset under a blinding scalar.
pub fn balance_commit(amount: u64, asset_id: &Felt, v_blinding: &Scalar) -> (r: BalanceCommitment)
    ensures
        r.0@ == spec_balance_commit(amount, asset_id@, v_blinding@),
        backend::spec_decodes(r.0@),
{
    let value_generator = backend::el_map_to_group(asset_id);
    let amount_scalar = Scalar::from_u64(amount);
    let value_part = backend::el_mul(&amount_scalar, &value_generator);
    let blinding_part = backend::el_mul_base(v_blinding);
    BalanceCommitment(backend::el_add(&value_part, &blinding_part))
}

/// Derives the transmission key owned by the given key material at the given
/// diversified generator. Returns `None` exactly when the diversified
/// generator is not a valid group-element encoding.
pub fn derive_transmission_key(ak_s: &Felt, nk: &Felt, gd: &El) -> (r: Option<El>)
    ensures
        r is Some <==> backend::spec_decodes(gd@),
        r matches Some(tk) ==> tk@ == spec_transmission_key(ak_s@, nk@, gd@)
            && backend::spec_decodes(tk@),
{
    if !backend::el_decodes(gd) {
        return None;
    }
    let ds = Felt::from_u64(DS_IVK);
    let ivk_field = backend::hash2(&ds, nk, ak_s);
    let ivk = backend::fr_from_field(&ivk_field);
    Some(backend::el_mul(&ivk, gd))
}

} // verus!
