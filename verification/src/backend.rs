//! Trusted bindings to the cryptographic backend: the Poseidon hash family
//! and the decaf377 group. Each binding converts between the library's
//! limb-based representations and the backend's own types, makes exactly one
//! conceptual backend operation, and names its result with an uninterpreted
//! spec function. Everything above this module is verified against these
//! contracts.

use vstd::prelude::*;

use crate::field::{El, Felt, Scalar};

verus! {

/// The base field type of the backend.
#[verifier::external_type_specification]
#[verifier::external_body]
pub struct ExFq(decaf377::Fq);

/// The scalar field type of the backend.
#[verifier::external_type_specification]
#[verifier::external_body]
pub struct ExFr(decaf377::Fr);

/// The group element type of the backend.
#[verifier::external_type_specification]
#[verifier::external_body]
pub struct ExElement(decaf377::Element);

/// The Poseidon hash of two field elements under a domain separator.
pub uninterp spec fn spec_hash2(ds: Seq<u64>, a: Seq<u64>, b: Seq<u64>) -> Seq<u64>;

/// The Poseidon hash of three field elements under a domain separator.
pub uninterp spec fn spec_hash3(ds: Seq<u64>, a: Seq<u64>, b: Seq<u64>, c: Seq<u64>) -> Seq<u64>;

/// The Poseidon hash of four field elements under a domain separator.
pub uninterp spec fn spec_hash4(
    ds: Seq<u64>,
    a: Seq<u64>,
    b: Seq<u64>,
    c: Seq<u64>,
    d: Seq<u64>,
) -> Seq<u64>;

/// The Poseidon hash of six field elements under a domain separator.
pub uninterp spec fn spec_hash6(
    ds: Seq<u64>,
    a: Seq<u64>,
    b: Seq<u64>,
    c: Seq<u64>,
    d: Seq<u64>,
    e: Seq<u64>,
    f: Seq<u64>,
) -> Seq<u64>;

/// Whether 32 bytes are a valid canonical group-element encoding.
pub uninterp spec fn spec_decodes(e: Seq<u64>) -> bool;

/// The canonical encoding of the sum of two group elements, given by their
/// canonical encodings.
pub uninterp spec fn spec_el_add(a: Seq<u64>, b: Seq<u64>) -> Seq<u64>;

/// The canonical encoding of a scalar multiple of a group element, given by
/// its canonical encoding.
pub uninterp spec fn spec_el_mul(s: Seq<u64>, p: Seq<u64>) -> Seq<u64>;

/// The canonical encoding of the group basepoint multiplied by a scalar.
pub uninterp spec fn spec_el_mul_base(s: Seq<u64>) -> Seq<u64>;

/// The canonical encoding of the group element that a field element maps to
/// under the backend's encode-to-curve map.
pub uninterp spec fn spec_el_map_to_group(a: Seq<u64>) -> Seq<u64>;

/// The scalar obtained by reducing a base-field encoding modulo the scalar
/// field order.
pub uninterp spec fn spec_fr_from_field(a: Seq<u64>) -> Seq<u64>;

/// Relies on decaf377::Fq::from_le_bytes_mod_order to read limbs into a
/// backend field element.
#[verifier::external_body]
fn ark_fq(x: &Felt) -> decaf377::Fq {
    let mut b = [0u8; 32];
    b[0..8].copy_from_slice(&x.l0.to_le_bytes());
    b[8..16].copy_from_slice(&x.l1.to_le_bytes());
    b[16..24].copy_from_slice(&x.l2.to_le_bytes());
    b[24..32].copy_from_slice(&x.l3.to_le_bytes());
    decaf377::Fq::from_le_bytes_mod_order(&b)
}

/// Relies on decaf377::Fq::to_bytes to write a backend field element out as
/// its canonical little-endian bytes.
#[verifier::external_body]
fn fq_from_ark(x: decaf377::Fq) -> Felt {
    let b = x.to_bytes();
    Felt {
        l0: u64::from_le_bytes(b[0..8].try_into().unwrap()),
        l1: u64::from_le_bytes(b[8..16].try_into().unwrap()),
        l2: u64::from_le_bytes(b[16..24].try_into().unwrap()),
        l3: u64::from_le_bytes(b[24..32].try_into().unwrap()),
    }
}

/// Relies on decaf377::Fr::from_le_bytes_mod_order to read limbs into a
/// backend scalar.
#[verifier::external_body]
fn ark_fr(x: &Scalar) -> decaf377::Fr {
    let mut b = [0u8; 32];
    b[0..8].copy_from_slice(&x.l0.to_le_bytes());
    b[8..16].copy_from_slice(&x.l1.to_le_bytes());
    b[16..24].copy_from_slice(&x.l2.to_le_bytes());
    b[24..32].copy_from_slice(&x.l3.to_le_bytes());
    decaf377::Fr::from_le_bytes_mod_order(&b)
}

/// Relies on decaf377::Fr::to_bytes to write a backend scalar out as its
/// canonical little-endian bytes.
#[verifier::external_body]
fn fr_from_ark(x: decaf377::Fr) -> Scalar {
    let b = x.to_bytes();
    Scalar {
        l0: u64::from_le_bytes(b[0..8].try_into().unwrap()),
        l1: u64::from_le_bytes(b[8..16].try_into().unwrap()),
        l2: u64::from_le_bytes(b[16..24].try_into().unwrap()),
        l3: u64::from_le_bytes(b[24..32].try_into().unwrap()),
    }
}

/// Relies on decaf377::Encoding::vartime_decompress; the precondition rules
/// out the encodings it rejects.
#[verifier::external_body]
fn ark_el(x: &El) -> decaf377::Element
    requires
        spec_decodes(x@),
{
    let mut b = [0u8; 32];
    b[0..8].copy_from_slice(&x.l0.to_le_bytes());
    b[8..16].copy_from_slice(&x.l1.to_le_bytes());
    b[16..24].copy_from_slice(&x.l2.to_le_bytes());
    b[24..32].copy_from_slice(&x.l3.to_le_bytes());
    decaf377::Encoding(b).vartime_decompress().expect("precondition: valid encoding")
}

/// Relies on decaf377::Element::vartime_compress to write a group element
/// out as its canonical encoding, which decompresses back to the element.
#[verifier::external_body]
fn el_from_ark(x: decaf377::Element) -> El {
    let b = x.vartime_compress().0;
    El {
        l0: u64::from_le_bytes(b[0..8].try_into().unwrap()),
        l1: u64::from_le_bytes(b[8..16].try_into().unwrap()),
        l2: u64::from_le_bytes(b[16..24].try_into().unwrap()),
        l3: u64::from_le_bytes(b[24..32].try_into().unwrap()),
    }
}

/// Relies on poseidon377::hash_2: the result depends on the domain separator
/// and the inputs alone.
#[verifier::external_body]
pub(crate) fn hash2(ds: &Felt, a: &Felt, b: &Felt) -> (r: Felt)
    ensures
        r@ == spec_hash2(ds@, a@, b@),
{
    fq_from_ark(poseidon377::hash_2(&ark_fq(ds), (ark_fq(a), ark_fq(b))))
}

/// Relies on poseidon377::hash_3: the result depends on the domain separator
/// and the inputs alone.
#[verifier::external_body]
pub(crate) fn hash3(ds: &Felt, a: &Felt, b: &Felt, c: &Felt) -> (r: Felt)
    ensures
        r@ == spec_hash3(ds@, a@, b@, c@),
{
    fq_from_ark(poseidon377::hash_3(&ark_fq(ds), (ark_fq(a), ark_fq(b), ark_fq(c))))
}

/// Relies on poseidon377::hash_4: the result depends on the domain separator
/// and the inputs alone.
#[verifier::external_body]
pub(crate) fn hash4(ds: &Felt, a: &Felt, b: &Felt, c: &Felt, d: &Felt) -> (r: Felt)
    ensures
        r@ == spec_hash4(ds@, a@, b@, c@, d@),
{
    fq_from_ark(poseidon377::hash_4(&ark_fq(ds), (ark_fq(a), ark_fq(b), ark_fq(c), ark_fq(d))))
}

/// Relies on poseidon377::hash_6: the result depends on the domain separator
/// and the inputs alone.
#[verifier::external_body]
pub(crate) fn hash6(ds: &Felt, a: &Felt, b: &Felt, c: &Felt, d: &Felt, e: &Felt, f: &Felt) -> (r: Felt)
    ensures
        r@ == spec_hash6(ds@, a@, b@, c@, d@, e@, f@),
{
    fq_from_ark(poseidon377::hash_6(
        &ark_fq(ds),
        (ark_fq(a), ark_fq(b), ark_fq(c), ark_fq(d), ark_fq(e), ark_fq(f)),
    ))
}

/// Relies on decaf377::Encoding::vartime_decompress: says whether the bytes
/// are a valid canonical group-element encoding.
#[verifier::external_body]
pub(crate) fn el_decodes(x: &El) -> (r: bool)
    ensures
        r == spec_decodes(x@),
{
    let mut b = [0u8; 32];
    b[0..8].copy_from_slice(&x.l0.to_le_bytes());
    b[8..16].copy_from_slice(&x.l1.to_le_bytes());
    b[16..24].copy_from_slice(&x.l2.to_le_bytes());
    b[24..32].copy_from_slice(&x.l3.to_le_bytes());
    decaf377::Encoding(b).vartime_decompress().is_ok()
}

/// Relies on group addition of decaf377::Element; the result's canonical
/// encoding decompresses back to it.
#[verifier::external_body]
pub(crate) fn el_add(a: &El, b: &El) -> (r: El)
    requires
        spec_decodes(a@),
        spec_decodes(b@),
    ensures
        r@ == spec_el_add(a@, b@),
        spec_decodes(r@),
{
    el_from_ark(ark_el(a) + ark_el(b))
}

/// Relies on scalar multiplication of decaf377::Element; the result's
/// canonical encoding decompresses back to it.
#[verifier::external_body]
pub(crate) fn el_mul(s: &Scalar, p: &El) -> (r: El)
    requires
        spec_decodes(p@),
    ensures
        r@ == spec_el_mul(s@, p@),
        spec_decodes(r@),
{
    el_from_ark(ark_el(p) * &ark_fr(s))
}

/// Relies on decaf377::Element::GENERATOR and scalar multiplication; the
/// result's canonical encoding decompresses back to it.
#[verifier::external_body]
pub(crate) fn el_mul_base(s: &Scalar) -> (r: El)
    ensures
        r@ == spec_el_mul_base(s@),
        spec_decodes(r@),
{
    el_from_ark(decaf377::Element::GENERATOR * &ark_fr(s))
}

/// Relies on decaf377::Element::encode_to_curve; the result's canonical
/// encoding decompresses back to it.
#[verifier::external_body]
pub(crate) fn el_map_to_group(a: &Felt) -> (r: El)
    ensures
        r@ == spec_el_map_to_group(a@),
        spec_decodes(r@),
{
    el_from_ark(decaf377::Element::encode_to_curve(&ark_fq(a)))
}

/// Relies on decaf377::Fr::from_le_bytes_mod_order to reduce a base-field
/// encoding into the scalar field.
#[verifier::external_body]
pub(crate) fn fr_from_field(a: &Felt) -> (r: Scalar)
    ensures
        r@ == spec_fr_from_field(a@),
{
    let mut b = [0u8; 32];
    b[0..8].copy_from_slice(&a.l0.to_le_bytes());
    b[8..16].copy_from_slice(&a.l1.to_le_bytes());
    b[16..24].copy_from_slice(&a.l2.to_le_bytes());
    b[24..32].copy_from_slice(&a.l3.to_le_bytes());
    fr_from_ark(decaf377::Fr::from_le_bytes_mod_order(&b))
}

} // verus!
