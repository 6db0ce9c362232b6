//! Plain-value representations of the proof system's algebraic objects: base
//! field elements (`Felt`), scalar field elements (`Scalar`), and group elements
//! (`El`, held by their canonical 32-byte encoding). Each is stored as four
//! little-endian 64-bit limbs so that contracts can speak of the value
//! directly; the cryptographic operations on them live in `backend`.

use vstd::prelude::*;

verus! {

/// An element of the proof system's base field, as the four little-endian
/// 64-bit limbs of its 256-bit encoding.
#[derive(Clone, Copy, Debug, PartialEq, Eq, Structural)]
pub struct Felt {
    pub l0: u64,
    pub l1: u64,
    pub l2: u64,
    pub l3: u64,
}

impl View for Felt {
    type V = Seq<u64>;

    open spec fn view(&self) -> Seq<u64> {
        seq![self.l0, self.l1, self.l2, self.l3]
    }
}

impl Felt {
    /// The field element with the given small value.
    pub fn from_u64(x: u64) -> (r: Felt)
        ensures
            r@ == spec_limbs(x),
    {
        Felt { l0: x, l1: 0, l2: 0, l3: 0 }
    }
}

/// An element of the scalar field, as the four little-endian 64-bit limbs of
/// its 256-bit encoding.
#[derive(Clone, Copy, Debug, PartialEq, Eq, Structural)]
pub struct Scalar {
    pub l0: u64,
    pub l1: u64,
    pub l2: u64,
    pub l3: u64,
}

impl View for Scalar {
    type V = Seq<u64>;

    open spec fn view(&self) -> Seq<u64> {
        seq![self.l0, self.l1, self.l2, self.l3]
    }
}

impl Scalar {
    /// The scalar with the given small value.
    pub fn from_u64(x: u64) -> (r: Scalar)
        ensures
            r@ == spec_limbs(x),
    {
        Scalar { l0: x, l1: 0, l2: 0, l3: 0 }
    }
}

/// A group element, held by the four little-endian 64-bit limbs of its
/// canonical 32-byte encoding. The bytes are not necessarily a valid
/// encoding; validity is checked where an element is consumed, exactly as
/// the circuits decompress untrusted encodings at allocation time.
#[derive(Clone, Copy, Debug, PartialEq, Eq, Structural)]
pub struct El {
    pub l0: u64,
    pub l1: u64,
    pub l2: u64,
    pub l3: u64,
}

impl View for El {
    type V = Seq<u64>;

    open spec fn view(&self) -> Seq<u64> {
        seq![self.l0, self.l1, self.l2, self.l3]
    }
}

/// The limb sequence of a field element or encoding with the given small
/// value.
pub open spec fn spec_limbs(x: u64) -> Seq<u64> {
    seq![x, 0u64, 0u64, 0u64]
}

impl El {
    /// Whether this encoding is the all-zero byte string, the canonical
    /// encoding of the group identity.
    pub open spec fn spec_is_identity(&self) -> bool {
        self.l0 == 0 && self.l1 == 0 && self.l2 == 0 && self.l3 == 0
    }

    /// Whether this encoding is the canonical encoding of the group
    /// identity.
    pub fn is_identity(&self) -> (r: bool)
        ensures
            r == self.spec_is_identity(),
    {
        self.l0 == 0 && self.l1 == 0 && self.l2 == 0 && self.l3 == 0
    }

    /// The base-field element carried by this encoding: a valid encoding is
    /// the canonical byte string of a base-field value, so the limbs are
    /// reinterpreted unchanged.
    pub fn as_field(&self) -> (r: Felt)
        ensures
            r == self.spec_as_field(),
    {
        Felt { l0: self.l0, l1: self.l1, l2: self.l2, l3: self.l3 }
    }

    /// The base-field element with the same limbs as this encoding.
    pub open spec fn spec_as_field(&self) -> Felt {
        Felt { l0: self.l0, l1: self.l1, l2: self.l2, l3: self.l3 }
    }

    /// Whether two encodings hold the same bytes.
    pub fn same(&self, other: &El) -> (r: bool)
        ensures
            r == (self@ == other@),
    {
        let r = self.l0 == other.l0 && self.l1 == other.l1 && self.l2 == other.l2 && self.l3
            == other.l3;
        proof {
            if r {
                assert(self@ =~= other@);
            } else {
                if self@ == other@ {
                    assert(self@[0] == other@[0]);
                    assert(self@[1] == other@[1]);
                    assert(self@[2] == other@[2]);
                    assert(self@[3] == other@[3]);
                }
            }
        }
        r
    }
}

impl Felt {
    /// Whether two field elements hold the same limbs.
    pub fn same(&self, other: &Felt) -> (r: bool)
        ensures
            r == (self@ == other@),
    {
        let r = self.l0 == other.l0 && self.l1 == other.l1 && self.l2 == other.l2 && self.l3
            == other.l3;
        proof {
            if r {
                assert(self@ =~= other@);
            } else {
                if self@ == other@ {
                    assert(self@[0] == other@[0]);
                    assert(self@[1] == other@[1]);
                    assert(self@[2] == other@[2]);
                    assert(self@[3] == other@[3]);
                }
            }
        }
        r
    }
}

/// Whether two field-element vectors are equal elementwise.
pub fn felts_eq(a: &Vec<Felt>, b: &Vec<Felt>) -> (r: bool)
    ensures
        r == (a@ == b@),
{
    if a.len() != b.len() {
        return false;
    }
    let mut i: usize = 0;
    while i < a.len()
        invariant
            a@.len() == b@.len(),
            i <= a@.len(),
            forall|k: int| 0 <= k < i ==> a@[k] == b@[k],
        decreases a@.len() - i,
    {
        if !a[i].same(&b[i]) {
            proof {
                if a@ == b@ {
                    assert(a@[i as int] == b@[i as int]);
                }
                assert(a@[i as int]@ != b@[i as int]@);
                if a@[i as int] == b@[i as int] {
                    assert(a@[i as int]@ == b@[i as int]@);
                }
            }
            return false;
        }
        proof {
            let x = a@[i as int];
            let y = b@[i as int];
            assert(x@ == y@);
            assert(x@[0] == y@[0] && x@[1] == y@[1] && x@[2] == y@[2] && x@[3] == y@[3]);
            assert(x == y);
        }
        i = i + 1;
    }
    proof {
        assert(a@ =~= b@);
    }
    true
}

} // verus!
