//! The tiered commitment tree consumed by the spend circuit: a quad tree of
//! fixed depth, organised as three tiers of eight levels. An inclusion proof
//! carries the committed leaf, its position, and one group of three siblings
//! per level; folding the leaf up through the siblings with the level-tagged
//! node hash yields the tree root (the anchor).

use vstd::prelude::*;

use crate::backend;
use crate::field::{spec_limbs, Felt};
use crate::note::NoteCommitment;

verus! {

/// Number of levels in one tier.
pub const TIER_HEIGHT: usize = 8;

/// Number of tiers in the tree.
pub const NUM_TIERS: usize = 3;

/// Total depth of the tree.
pub const TREE_DEPTH: usize = 24;

/// Base of the per-level domain separators of the node hash.
pub const DS_MERKLE_BASE: u64 = 16;

/// The most leaves a tree may hold: a machine limit below what the depth
/// can address.
pub const MAX_LEAVES: usize = 0xFFFF0000;

/// The root (anchor) of the commitment tree: one field element.
#[derive(Clone, Copy, Debug, PartialEq, Eq, Structural)]
pub struct Root(pub Felt);

/// The three siblings of a node at one level of an authentication path, in
/// index order with the node's own slot left out.
#[derive(Clone, Copy, Debug, PartialEq, Eq, Structural)]
pub struct PathStep {
    pub s0: Felt,
    pub s1: Felt,
    pub s2: Felt,
}

/// One tier's worth of an authentication path: eight levels of siblings.
#[derive(Clone, Debug, PartialEq, Eq)]
pub struct Tier {
    pub steps: Vec<PathStep>,
}

impl Tier {
    /// A tier is well-formed when it carries one step per level.
    pub open spec fn wf(&self) -> bool {
        self.steps@.len() == TIER_HEIGHT
    }
}

/// An inclusion proof: the committed leaf, its position, and the siblings
/// along the path to the root, grouped by tier from the leaf upward.
#[derive(Clone, Debug, PartialEq, Eq)]
pub struct MerkleProof {
    /// The note commitment standing at the proven leaf.
    pub commitment: NoteCommitment,
    /// The position of the leaf: two bits per level, least significant first.
    pub position: u64,
    /// The sibling groups, one tier per eight levels.
    pub tiers: Vec<Tier>,
}

/// The domain separator of the node hash at the given level.
pub open spec fn spec_merkle_ds(level: nat) -> Seq<u64> {
    spec_limbs((DS_MERKLE_BASE + level) as u64)
}

/// The parent hash of a node standing in the given slot of its chunk of
/// four, with its three siblings filling the remaining slots in order.
pub open spec fn spec_parent(cur: Seq<u64>, step: PathStep, slot: int, level: nat) -> Seq<u64> {
    if slot == 0 {
        backend::spec_hash4(spec_merkle_ds(level), cur, step.s0@, step.s1@, step.s2@)
    } else if slot == 1 {
        backend::spec_hash4(spec_merkle_ds(level), step.s0@, cur, step.s1@, step.s2@)
    } else if slot == 2 {
        backend::spec_hash4(spec_merkle_ds(level), step.s0@, step.s1@, cur, step.s2@)
    } else {
        backend::spec_hash4(spec_merkle_ds(level), step.s0@, step.s1@, step.s2@, cur)
    }
}

/// The value obtained by folding `cur` upward through the given steps,
/// starting at the given level, with the position's base-4 digits selecting
/// the slot at each level.
pub open spec fn spec_root_from(cur: Seq<u64>, pos: nat, steps: Seq<PathStep>, level: nat) -> Seq<
    u64,
>
    decreases steps.len(),
{
    if steps.len() == 0 {
        cur
    } else {
        spec_root_from(
            spec_parent(cur, steps[0], (pos % 4) as int, level),
            pos / 4,
            steps.skip(1),
            level + 1,
        )
    }
}

/// The flat sequence of steps of a three-tier proof, leaf tier first.
pub open spec fn spec_proof_steps(p: MerkleProof) -> Seq<PathStep> {
    p.tiers@[0].steps@ + p.tiers@[1].steps@ + p.tiers@[2].steps@
}

/// The root that an inclusion proof folds up to.
pub open spec fn spec_proof_root(p: MerkleProof) -> Seq<u64> {
    spec_root_from(p.commitment.0@, p.position as nat, spec_proof_steps(p), 0)
}

/// Folds a leaf value upward through a flat list of sibling steps.
fn compute_root_from(cur0: &Felt, position: u64, steps: &Vec<PathStep>) -> (r: Felt)
    requires
        steps@.len() <= TREE_DEPTH,
    ensures
        r@ == spec_root_from(cur0@, position as nat, steps@, 0),
{
    let mut cur: Felt = *cur0;
    let mut pos: u64 = position;
    let mut i: usize = 0;
    proof {
        assert(steps@.skip(0) =~= steps@);
    }
    while i < steps.len()
        invariant
            i <= steps@.len(),
            steps@.len() <= TREE_DEPTH,
            spec_root_from(cur@, pos as nat, steps@.skip(i as int), i as nat) == spec_root_from(
                cur0@,
                position as nat,
                steps@,
                0,
            ),
        decreases steps@.len() - i,
    {
        let step = steps[i];
        let slot: u64 = pos % 4;
        let ds = Felt::from_u64(DS_MERKLE_BASE + (i as u64));
        let ghost prev_rest = steps@.skip(i as int);
        let next: Felt = if slot == 0 {
            backend::hash4(&ds, &cur, &step.s0, &step.s1, &step.s2)
        } else if slot == 1 {
            backend::hash4(&ds, &step.s0, &cur, &step.s1, &step.s2)
        } else if slot == 2 {
            backend::hash4(&ds, &step.s0, &step.s1, &cur, &step.s2)
        } else {
            backend::hash4(&ds, &step.s0, &step.s1, &step.s2, &cur)
        };
        proof {
            assert(prev_rest[0] == steps@[i as int]);
            assert(prev_rest.skip(1) =~= steps@.skip(i as int + 1));
            assert(next@ == spec_parent(cur@, steps@[i as int], (pos as nat % 4) as int, i as nat));
        }
        cur = next;
        pos = pos / 4;
        i = i + 1;
    }
    proof {
        assert(steps@.skip(steps@.len() as int) =~= Seq::<PathStep>::empty());
    }
    cur
}

impl MerkleProof {
    /// A proof is well-formed when it carries one full tier of siblings per
    /// tier of the tree.
    pub open spec fn wf(&self) -> bool {
        self.tiers@.len() == NUM_TIERS && forall|i: int|
            0 <= i < self.tiers@.len() ==> (#[trigger] self.tiers@[i]).wf()
    }

    /// The root this proof folds up to: the anchor under which the leaf is
    /// included.
    pub fn root(&self) -> (r: Root)
        requires
            self.wf(),
        ensures
            r.0@ == spec_proof_root(*self),
    {
        let mut steps: Vec<PathStep> = Vec::new();
        let mut t: usize = 0;
        while t < self.tiers.len()
            invariant
                self.wf(),
                t <= NUM_TIERS,
                steps@.len() == t * TIER_HEIGHT,
                steps@ == spec_tiers_prefix(self.tiers@, t as int),
            decreases self.tiers@.len() - t,
        {
            let tier = &self.tiers[t];
            let mut j: usize = 0;
            while j < tier.steps.len()
                invariant
                    self.wf(),
                    tier == self.tiers@[t as int],
                    t < NUM_TIERS,
                    j <= tier.steps@.len(),
                    tier.steps@.len() == TIER_HEIGHT,
                    steps@ == spec_tiers_prefix(self.tiers@, t as int) + tier.steps@.take(
                        j as int,
                    ),
                decreases tier.steps@.len() - j,
            {
                steps.push(tier.steps[j]);
                proof {
                    assert(tier.steps@.take(j as int).push(tier.steps@[j as int]) =~= tier.steps@
                        .take(j as int + 1));
                }
                j = j + 1;
            }
            proof {
                assert(tier.steps@.take(tier.steps@.len() as int) =~= tier.steps@);
                assert(spec_tiers_prefix(self.tiers@, t as int) + tier.steps@ == spec_tiers_prefix(
                    self.tiers@,
                    t as int + 1,
                ));
            }
            t = t + 1;
        }
        proof {
            assert(steps@ == spec_tiers_prefix(self.tiers@, 3));
            assert(spec_tiers_prefix(self.tiers@, 0) =~= Seq::<PathStep>::empty());
            assert(spec_tiers_prefix(self.tiers@, 1) =~= self.tiers@[0].steps@);
            assert(spec_tiers_prefix(self.tiers@, 2) =~= self.tiers@[0].steps@
                + self.tiers@[1].steps@);
            assert(spec_tiers_prefix(self.tiers@, 3) =~= spec_proof_steps(*self));
        }
        Root(compute_root_from(&self.commitment.0, self.position, &steps))
    }
}

/// The concatenation of the steps of the first `k` tiers.
pub open spec fn spec_tiers_prefix(tiers: Seq<Tier>, k: int) -> Seq<PathStep>
    decreases k,
{
    if k <= 0 {
        Seq::empty()
    } else {
        spec_tiers_prefix(tiers, k - 1) + tiers[k - 1].steps@
    }
}

/// The limb views of a sequence of field elements.
pub open spec fn spec_views(s: Seq<Felt>) -> Seq<Seq<u64>> {
    s.map_values(|f: Felt| f@)
}

/// The hash of the empty subtree whose leaves sit `level` levels down: the
/// zero field element at the leaves, and the node hash of four empty
/// children above.
pub open spec fn spec_empty_at(level: nat) -> Seq<u64>
    decreases level,
{
    if level == 0 {
        spec_limbs(0)
    } else {
        let e = spec_empty_at((level - 1) as nat);
        backend::spec_hash4(spec_merkle_ds((level - 1) as nat), e, e, e, e)
    }
}

/// The node at index `i` of a level, an empty subtree past the end.
pub open spec fn spec_node_at(nodes: Seq<Seq<u64>>, i: int, level: nat) -> Seq<u64> {
    if 0 <= i < nodes.len() {
        nodes[i]
    } else {
        spec_empty_at(level)
    }
}

/// How many parent nodes a level of the given width has.
pub open spec fn spec_chunks(len: nat) -> nat {
    ((len + 3) / 4) as nat
}

/// One level of the tree folded upward: each chunk of four children, padded
/// with empty subtrees, hashed into its parent.
pub open spec fn spec_level_up(nodes: Seq<Seq<u64>>, level: nat) -> Seq<Seq<u64>> {
    Seq::new(
        spec_chunks(nodes.len()),
        |j: int|
            backend::spec_hash4(
                spec_merkle_ds(level),
                spec_node_at(nodes, 4 * j, level),
                spec_node_at(nodes, 4 * j + 1, level),
                spec_node_at(nodes, 4 * j + 2, level),
                spec_node_at(nodes, 4 * j + 3, level),
            ),
    )
}

/// The root of the tree whose nodes at the given level are `nodes`.
pub open spec fn spec_up(nodes: Seq<Seq<u64>>, level: nat) -> Seq<u64>
    decreases TREE_DEPTH - level,
    when level <= TREE_DEPTH
{
    if level >= TREE_DEPTH {
        if nodes.len() >= 1 {
            nodes[0]
        } else {
            spec_empty_at(TREE_DEPTH as nat)
        }
    } else {
        spec_up(spec_level_up(nodes, level), level + 1)
    }
}

/// The root of the tree holding the given leaves in order.
pub open spec fn spec_tree_root(leaves: Seq<Seq<u64>>) -> Seq<u64> {
    spec_up(leaves, 0)
}

/// The hash of the empty subtree whose leaves sit `level` levels down.
pub fn empty_at(level: u64) -> (r: Felt)
    requires
        level <= TREE_DEPTH,
    ensures
        r@ == spec_empty_at(level as nat),
    decreases level,
{
    if level == 0 {
        Felt::from_u64(0)
    } else {
        let e = empty_at(level - 1);
        let ds = Felt::from_u64(DS_MERKLE_BASE + (level - 1));
        backend::hash4(&ds, &e, &e, &e, &e)
    }
}

/// Folds one level of the tree upward.
fn level_up(nodes: &Vec<Felt>, level: u64) -> (r: Vec<Felt>)
    requires
        level < TREE_DEPTH,
        nodes@.len() <= MAX_LEAVES,
    ensures
        spec_views(r@) == spec_level_up(spec_views(nodes@), level as nat),
{
    let e = empty_at(level);
    let ds = Felt::from_u64(DS_MERKLE_BASE + level);
    let n: usize = nodes.len();
    let mut out: Vec<Felt> = Vec::new();
    let mut base: usize = 0;
    while base < n
        invariant
            n == nodes@.len(),
            n <= MAX_LEAVES,
            e@ == spec_empty_at(level as nat),
            ds@ == spec_merkle_ds(level as nat),
            base == 4 * out@.len(),
            base <= n + 3,
            forall|k: int|
                0 <= k < out@.len() ==> (#[trigger] out@[k])@ == spec_level_up(
                    spec_views(nodes@),
                    level as nat,
                )[k],
        decreases n + 4 - base,
    {
        let c0 = nodes[base];
        let c1 = if base + 1 < n {
            nodes[base + 1]
        } else {
            e
        };
        let c2 = if base + 2 < n {
            nodes[base + 2]
        } else {
            e
        };
        let c3 = if base + 3 < n {
            nodes[base + 3]
        } else {
            e
        };
        let h = backend::hash4(&ds, &c0, &c1, &c2, &c3);
        proof {
            let nv = spec_views(nodes@);
            let j = out@.len() as int;
            assert(nv.len() == nodes@.len());
            assert(forall|i: int| 0 <= i < nodes@.len() ==> #[trigger] nv[i] == nodes@[i]@);
            assert(spec_node_at(nv, 4 * j, level as nat) == c0@);
            assert(spec_node_at(nv, 4 * j + 1, level as nat) == c1@);
            assert(spec_node_at(nv, 4 * j + 2, level as nat) == c2@);
            assert(spec_node_at(nv, 4 * j + 3, level as nat) == c3@);
        }
        out.push(h);
        base = base + 4;
    }
    proof {
        assert(out@.len() == spec_chunks(nodes@.len() as nat));
        assert(spec_views(out@) =~= spec_level_up(spec_views(nodes@), level as nat));
    }
    out
}

/// The base-4 digits of a position consumed from below: the node index that
/// a leaf's path passes through after climbing `k` levels.
pub open spec fn pos_after(p: nat, k: nat) -> nat
    decreases k,
{
    if k == 0 {
        p
    } else {
        pos_after(p, (k - 1) as nat) / 4
    }
}

/// Climbing one level first and then `k` more is climbing `k + 1` levels.
proof fn lemma_pos_after_shift(p: nat, k: nat)
    ensures
        pos_after(p / 4, k) == pos_after(p, k + 1),
    decreases k,
{
    if k == 0 {
        assert(pos_after(p / 4, 0) == p / 4);
        assert(pos_after(p, 0) == p);
        assert(pos_after(p, 1) == pos_after(p, 0) / 4);
    } else {
        lemma_pos_after_shift(p, (k - 1) as nat);
        assert(pos_after(p / 4, k) == pos_after(p / 4, (k - 1) as nat) / 4);
        assert(pos_after(p, k + 1) == pos_after(p, k) / 4);
    }
}

/// Appending a step to a path folds the previous result one level further:
/// the fold through `s.push(st)` is the parent of the fold through `s`,
/// taken at the slot that the position selects at the appended level.
proof fn lemma_root_from_push(c: Seq<u64>, p: nat, s: Seq<PathStep>, st: PathStep, l: nat)
    ensures
        spec_root_from(c, p, s.push(st), l) == spec_parent(
            spec_root_from(c, p, s, l),
            st,
            (pos_after(p, s.len()) % 4) as int,
            l + s.len(),
        ),
    decreases s.len(),
{
    if s.len() == 0 {
        assert(s.push(st)[0] == st);
        assert(s.push(st).skip(1) =~= Seq::<PathStep>::empty());
        assert(pos_after(p, 0) == p);
        let c1 = spec_parent(c, st, (p % 4) as int, l);
        assert(spec_root_from(c1, p / 4, s.push(st).skip(1), l + 1) == c1);
        assert(spec_root_from(c, p, s.push(st), l) == c1);
    } else {
        assert(s.push(st)[0] == s[0]);
        assert(s.push(st).skip(1) =~= s.skip(1).push(st));
        let c1 = spec_parent(c, s[0], (p % 4) as int, l);
        lemma_root_from_push(c1, p / 4, s.skip(1), st, l + 1);
        lemma_pos_after_shift(p, (s.len() - 1) as nat);
        assert(s.skip(1).len() == s.len() - 1);
    }
}

/// The append-only commitment tree: the collaborator that accumulates note
/// commitments and issues inclusion proofs against its root.
#[derive(Clone, Debug, PartialEq, Eq)]
pub struct Tree {
    leaves: Vec<Felt>,
}

impl Tree {
    /// The leaves committed so far, in insertion order.
    pub closed spec fn spec_leaves(&self) -> Seq<Felt> {
        self.leaves@
    }

    /// The tree never holds more leaves than its depth can address.
    pub open spec fn wf(&self) -> bool {
        self.spec_leaves().len() <= MAX_LEAVES
    }

    /// An empty tree.
    pub fn new() -> (r: Tree)
        ensures
            r.spec_leaves().len() == 0,
            r.wf(),
    {
        Tree { leaves: Vec::new() }
    }

    /// Appends a note commitment, returning the position it was recorded at.
    pub fn insert(&mut self, cm: &NoteCommitment) -> (r: u64)
        requires
            old(self).wf(),
            old(self).spec_leaves().len() < MAX_LEAVES,
        ensures
            final(self).spec_leaves() == old(self).spec_leaves().push(cm.0),
            r as int == old(self).spec_leaves().len(),
            final(self).wf(),
    {
        let pos = self.leaves.len() as u64;
        self.leaves.push(cm.0);
        pos
    }

    /// The current root (anchor) of the tree.
    pub fn root(&self) -> (r: Root)
        requires
            self.wf(),
        ensures
            r.0@ == spec_tree_root(spec_views(self.spec_leaves())),
    {
        let mut cur: Vec<Felt> = Vec::new();
        let mut i: usize = 0;
        while i < self.leaves.len()
            invariant
                i <= self.leaves@.len(),
                cur@ == self.leaves@.take(i as int),
            decreases self.leaves@.len() - i,
        {
            cur.push(self.leaves[i]);
            proof {
                assert(self.leaves@.take(i as int).push(self.leaves@[i as int]) =~= self.leaves@
                    .take(i as int + 1));
            }
            i = i + 1;
        }
        proof {
            assert(self.leaves@.take(self.leaves@.len() as int) =~= self.leaves@);
        }
        let mut level: u64 = 0;
        while level < TREE_DEPTH as u64
            invariant
                level <= TREE_DEPTH,
                cur@.len() <= MAX_LEAVES,
                spec_up(spec_views(cur@), level as nat) == spec_tree_root(
                    spec_views(self.leaves@),
                ),
            decreases TREE_DEPTH - level,
        {
            let next = level_up(&cur, level);
            proof {
                assert(spec_up(spec_views(cur@), level as nat) == spec_up(
                    spec_level_up(spec_views(cur@), level as nat),
                    level as nat + 1,
                ));
                assert(spec_level_up(spec_views(cur@), level as nat).len() <= MAX_LEAVES);
                assert(spec_views(next@).len() == next@.len());
            }
            cur = next;
            level = level + 1;
        }
        if cur.len() >= 1 {
            proof {
                assert(spec_views(cur@)[0] == cur@[0]@);
            }
            Root(cur[0])
        } else {
            Root(empty_at(TREE_DEPTH as u64))
        }
    }

    /// An inclusion proof for the leaf recorded at the given position, or
    /// `None` when no leaf was recorded there. The proof folds up to the
    /// tree's current root.
    pub fn witness(&self, position: u64) -> (r: Option<MerkleProof>)
        requires
            self.wf(),
        ensures
            r is Some <==> (position as int) < self.spec_leaves().len(),
            r matches Some(p) ==> p.wf() && p.position == position && p.commitment.0
                == self.spec_leaves()[position as int] && spec_proof_root(p) == spec_tree_root(
                spec_views(self.spec_leaves()),
            ),
    {
        if position >= self.leaves.len() as u64 {
            return None;
        }
        let commitment = NoteCommitment(self.leaves[position as usize]);
        let ghost leaf_value = self.leaves@[position as int]@;
        let mut cur: Vec<Felt> = Vec::new();
        let mut i: usize = 0;
        while i < self.leaves.len()
            invariant
                i <= self.leaves@.len(),
                cur@ == self.leaves@.take(i as int),
            decreases self.leaves@.len() - i,
        {
            cur.push(self.leaves[i]);
            proof {
                assert(self.leaves@.take(i as int).push(self.leaves@[i as int]) =~= self.leaves@
                    .take(i as int + 1));
            }
            i = i + 1;
        }
        proof {
            assert(self.leaves@.take(self.leaves@.len() as int) =~= self.leaves@);
            assert(spec_views(cur@)[position as int] == cur@[position as int]@);
        }
        let mut steps: Vec<PathStep> = Vec::new();
        let mut idx: u64 = position;
        let mut level: u64 = 0;
        while level < TREE_DEPTH as u64
            invariant
                self.wf(),
                level <= TREE_DEPTH,
                steps@.len() == level,
                1 <= cur@.len() <= MAX_LEAVES,
                (idx as int) < cur@.len(),
                idx as nat == pos_after(position as nat, level as nat),
                leaf_value == self.leaves@[position as int]@,
                (position as int) < self.leaves@.len(),
                spec_root_from(leaf_value, position as nat, steps@, 0) == spec_views(cur@)[idx as int],
                spec_up(spec_views(cur@), level as nat) == spec_tree_root(
                    spec_views(self.leaves@),
                ),
            decreases TREE_DEPTH - level,
        {
            let e = empty_at(level);
            let slot: u64 = idx % 4;
            let chunk: u64 = idx - slot;
            let n = cur.len() as u64;
            let o0: u64 = if slot == 0 {
                chunk + 1
            } else {
                chunk
            };
            let o1: u64 = if slot <= 1 {
                chunk + 2
            } else {
                chunk + 1
            };
            let o2: u64 = if slot <= 2 {
                chunk + 3
            } else {
                chunk + 2
            };
            let s0 = if o0 < n {
                cur[o0 as usize]
            } else {
                e
            };
            let s1 = if o1 < n {
                cur[o1 as usize]
            } else {
                e
            };
            let s2 = if o2 < n {
                cur[o2 as usize]
            } else {
                e
            };
            let st = PathStep { s0, s1, s2 };
            let ghost old_steps = steps@;
            steps.push(st);
            let next = level_up(&cur, level);
            proof {
                let nv = spec_views(cur@);
                let lvl = level as nat;
                let j = idx as int / 4;
                let slot_i = idx as int % 4;
                let lv = spec_level_up(nv, lvl);
                assert(nv.len() == cur@.len());
                assert(forall|i2: int| 0 <= i2 < cur@.len() ==> #[trigger] nv[i2] == cur@[i2]@);
                assert(spec_views(next@) == lv);
                assert(lv.len() == spec_chunks(nv.len() as nat));
                assert(j < lv.len()) by {
                    assert(idx as int + 1 <= nv.len() as int);
                    assert((idx as int) / 4 + 1 <= (nv.len() as int + 3) / 4);
                }
                assert(chunk as int == 4 * j);
                assert(4 * j + slot_i == idx as int);
                assert(spec_node_at(nv, 4 * j + slot_i, lvl) == nv[idx as int]);
                assert(st.s0@ == spec_node_at(nv, o0 as int, lvl));
                assert(st.s1@ == spec_node_at(nv, o1 as int, lvl));
                assert(st.s2@ == spec_node_at(nv, o2 as int, lvl));
                assert(lv[j] == backend::spec_hash4(
                    spec_merkle_ds(lvl),
                    spec_node_at(nv, 4 * j, lvl),
                    spec_node_at(nv, 4 * j + 1, lvl),
                    spec_node_at(nv, 4 * j + 2, lvl),
                    spec_node_at(nv, 4 * j + 3, lvl),
                ));
                if slot_i == 0 {
                    assert(o0 as int == 4 * j + 1 && o1 as int == 4 * j + 2 && o2 as int == 4 * j
                        + 3);
                    assert(spec_parent(nv[idx as int], st, slot_i, lvl) == lv[j]);
                } else if slot_i == 1 {
                    assert(o0 as int == 4 * j && o1 as int == 4 * j + 2 && o2 as int == 4 * j + 3);
                    assert(spec_parent(nv[idx as int], st, slot_i, lvl) == lv[j]);
                } else if slot_i == 2 {
                    assert(o0 as int == 4 * j && o1 as int == 4 * j + 1 && o2 as int == 4 * j + 3);
                    assert(spec_parent(nv[idx as int], st, slot_i, lvl) == lv[j]);
                } else {
                    assert(o0 as int == 4 * j && o1 as int == 4 * j + 1 && o2 as int == 4 * j + 2);
                    assert(spec_parent(nv[idx as int], st, slot_i, lvl) == lv[j]);
                }
                lemma_root_from_push(leaf_value, position as nat, old_steps, st, 0);
                assert(pos_after(position as nat, old_steps.len()) == idx as nat);
                assert(spec_root_from(leaf_value, position as nat, steps@, 0) == lv[j]);
                assert(pos_after(position as nat, lvl + 1) == idx as nat / 4);
                assert(spec_up(nv, lvl) == spec_up(lv, lvl + 1));
                assert(lv.len() <= MAX_LEAVES);
            }
            cur = next;
            idx = idx / 4;
            level = level + 1;
        }
        proof {
            let p = position as nat;
            assert(p < 0x100000000);
            assert(pos_after(p, 0) == p);
            assert(pos_after(p, 1) < 0x40000000);
            assert(pos_after(p, 2) < 0x10000000);
            assert(pos_after(p, 3) < 0x4000000);
            assert(pos_after(p, 4) < 0x1000000);
            assert(pos_after(p, 5) < 0x400000);
            assert(pos_after(p, 6) < 0x100000);
            assert(pos_after(p, 7) < 0x40000);
            assert(pos_after(p, 8) < 0x10000);
            assert(pos_after(p, 9) < 0x4000);
            assert(pos_after(p, 10) < 0x1000);
            assert(pos_after(p, 11) < 0x400);
            assert(pos_after(p, 12) < 0x100);
            assert(pos_after(p, 13) < 0x40);
            assert(pos_after(p, 14) < 0x10);
            assert(pos_after(p, 15) < 0x4);
            assert(pos_after(p, 16) < 1);
            assert(pos_after(p, 16) == 0);
            assert(pos_after(p, 17) == 0);
            assert(pos_after(p, 18) == 0);
            assert(pos_after(p, 19) == 0);
            assert(pos_after(p, 20) == 0);
            assert(pos_after(p, 21) == 0);
            assert(pos_after(p, 22) == 0);
            assert(pos_after(p, 23) == 0);
            assert(pos_after(p, 24) == 0);
            assert(idx == 0);
            assert(spec_up(spec_views(cur@), TREE_DEPTH as nat) == spec_views(cur@)[0]);
            assert(spec_root_from(leaf_value, position as nat, steps@, 0) == spec_tree_root(
                spec_views(self.leaves@),
            ));
        }
        let mut tiers: Vec<Tier> = Vec::new();
        let mut t: usize = 0;
        while t < NUM_TIERS
            invariant
                t <= NUM_TIERS,
                steps@.len() == TREE_DEPTH,
                tiers@.len() == t,
                forall|k: int| 0 <= k < t ==> (#[trigger] tiers@[k]).wf(),
                forall|k: int|
                    0 <= k < t ==> (#[trigger] tiers@[k]).steps@ == steps@.subrange(
                        8 * k,
                        8 * k + 8,
                    ),
            decreases NUM_TIERS - t,
        {
            let mut tier_steps: Vec<PathStep> = Vec::new();
            let mut j: usize = 0;
            while j < TIER_HEIGHT
                invariant
                    j <= TIER_HEIGHT,
                    t < NUM_TIERS,
                    steps@.len() == TREE_DEPTH,
                    tier_steps@ == steps@.subrange((8 * t) as int, (8 * t + j) as int),
                decreases TIER_HEIGHT - j,
            {
                tier_steps.push(steps[t * TIER_HEIGHT + j]);
                proof {
                    assert(steps@.subrange((8 * t) as int, (8 * t + j) as int).push(
                        steps@[(8 * t + j) as int],
                    ) =~= steps@.subrange((8 * t) as int, (8 * t + j + 1) as int));
                }
                j = j + 1;
            }
            tiers.push(Tier { steps: tier_steps });
            t = t + 1;
        }
        let mp = MerkleProof { commitment, position, tiers };
        proof {
            assert(mp.tiers@[0].steps@ == steps@.subrange(0, 8));
            assert(mp.tiers@[1].steps@ == steps@.subrange(8, 16));
            assert(mp.tiers@[2].steps@ == steps@.subrange(16, 24));
            assert(spec_proof_steps(mp) =~= steps@);
            assert(mp.commitment.0@ == leaf_value);
            assert(spec_proof_root(mp) == spec_tree_root(spec_views(self.leaves@)));
        }
        Some(mp)
    }
}

} // verus!
