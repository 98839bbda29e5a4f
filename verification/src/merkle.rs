//! Bitcoin Merkle trees: roots, the path of the first leaf, and how the two relate.
//!
//! The tree is built level by level. A level with an odd number of nodes has its last node
//! doubled, and each pair of nodes is hashed into one node of the level above.

use crate::hashing::{extend_bytes, sha256d};
use vstd::prelude::*;

verus! {

/// The byte strings that a sequence of 32-byte nodes stands for.
pub open spec fn node_bytes(nodes: Seq<[u8; 32]>) -> Seq<Seq<u8>> {
    nodes.map_values(|node: [u8; 32]| node@)
}

/// The node above `left` and `right`.
pub open spec fn parent_node(left: Seq<u8>, right: Seq<u8>) -> Seq<u8> {
    crate::hashing::sha256d_digest(left + right)
}

/// `level` with its last node doubled if the number of nodes is odd.
pub open spec fn even_level(level: Seq<Seq<u8>>) -> Seq<Seq<u8>> {
    if level.len() % 2 == 1 {
        level.push(level.last())
    } else {
        level
    }
}

/// The level above `level`.
pub open spec fn parent_level(level: Seq<Seq<u8>>) -> Seq<Seq<u8>> {
    let even = even_level(level);
    Seq::new(even.len() / 2, |i: int| parent_node(even[2 * i], even[2 * i + 1]))
}

/// Thirty-two zero bytes.
pub open spec fn zero_node() -> Seq<u8> {
    Seq::new(32, |i: int| 0u8)
}

/// The Merkle root over `level`; zero bytes if there is no leaf.
pub open spec fn tree_root(level: Seq<Seq<u8>>) -> Seq<u8>
    decreases level.len(),
{
    if level.len() == 0 {
        zero_node()
    } else if level.len() == 1 {
        level[0]
    } else {
        tree_root(parent_level(level))
    }
}

/// The siblings met on the way from the first leaf of `level` up to the root.
pub open spec fn first_leaf_path(level: Seq<Seq<u8>>) -> Seq<Seq<u8>>
    decreases level.len(),
{
    if level.len() <= 1 {
        Seq::empty()
    } else {
        seq![even_level(level)[1]] + first_leaf_path(parent_level(level))
    }
}

/// The root reached from `leaf` by hashing it with each node of `path` on its right in turn.
pub open spec fn climb(leaf: Seq<u8>, path: Seq<Seq<u8>>) -> Seq<u8>
    decreases path.len(),
{
    if path.len() == 0 {
        leaf
    } else {
        climb(parent_node(leaf, path[0]), path.drop_first())
    }
}

/// Climbing the path of the first leaf from any leaf gives the root of the tree in which that
/// leaf stands first. A path taken with a placeholder in front thus serves every leaf that is put
/// there later.
pub proof fn first_leaf_path_reconstructs_root(level: Seq<Seq<u8>>, leaf: Seq<u8>)
    requires
        level.len() >= 1,
    ensures
        climb(leaf, first_leaf_path(level)) == tree_root(level.update(0, leaf)),
    decreases level.len(),
{
    let replaced = level.update(0, leaf);
    if level.len() > 1 {
        let sibling = even_level(level)[1];
        let above = parent_node(leaf, sibling);
        let path = first_leaf_path(level);
        assert(path.drop_first() =~= first_leaf_path(parent_level(level)));
        assert(even_level(replaced) =~= even_level(level).update(0, leaf));
        assert(parent_level(replaced) =~= parent_level(level).update(0, above));
        first_leaf_path_reconstructs_root(parent_level(level), above);
    }
}

/// The path of the first leaf does not depend on the first leaf.
pub proof fn first_leaf_path_ignores_first_leaf(level: Seq<Seq<u8>>, leaf: Seq<u8>)
    requires
        level.len() >= 1,
    ensures
        first_leaf_path(level.update(0, leaf)) == first_leaf_path(level),
    decreases level.len(),
{
    let replaced = level.update(0, leaf);
    if level.len() > 1 {
        let above = parent_node(leaf, even_level(level)[1]);
        assert(even_level(replaced) =~= even_level(level).update(0, leaf));
        assert(parent_level(replaced) =~= parent_level(level).update(0, above));
        first_leaf_path_ignores_first_leaf(parent_level(level), above);
    }
}

/// Hashes two nodes into the node above them.
pub fn hash_pair(left: [u8; 32], right: [u8; 32]) -> (node: [u8; 32])
    ensures
        node@ == parent_node(left@, right@),
{
    let mut joined: Vec<u8> = Vec::with_capacity(64);
    extend_bytes(&mut joined, &left);
    extend_bytes(&mut joined, &right);
    assert(joined@ =~= left@ + right@);
    sha256d(joined.as_slice())
}

/// Replaces a level by the level above it.
fn ascend(level: Vec<[u8; 32]>) -> (above: Vec<[u8; 32]>)
    requires
        level@.len() % 2 == 0,
    ensures
        node_bytes(above@) == parent_level(node_bytes(level@)),
        above@.len() == level@.len() / 2,
{
    let pairs = level.len() / 2;
    let mut above: Vec<[u8; 32]> = Vec::with_capacity(pairs);
    let mut i: usize = 0;
    while i < pairs
        invariant
            2 * pairs == level.len(),
            i <= pairs,
            above@.len() == i,
            forall|k: int|
                0 <= k < i ==> (#[trigger] above@[k])@ == parent_node(
                    level@[2 * k]@,
                    level@[2 * k + 1]@,
                ),
        decreases pairs - i,
    {
        above.push(hash_pair(level[2 * i], level[2 * i + 1]));
        i = i + 1;
    }
    assert(node_bytes(above@) =~= parent_level(node_bytes(level@)));
    above
}

/// Doubles the last node of a level with an odd number of nodes.
fn pad_level(level: &mut Vec<[u8; 32]>)
    requires
        old(level)@.len() >= 1,
    ensures
        node_bytes(final(level)@) == even_level(node_bytes(old(level)@)),
        final(level)@.len() % 2 == 0,
        final(level)@.len() <= old(level)@.len() + 1,
        final(level)@.len() >= old(level)@.len(),
{
    let len = level.len();
    if len % 2 == 1 {
        let last = level[len - 1];
        level.push(last);
        assert(node_bytes(level@) =~= node_bytes(old(level)@).push(node_bytes(old(level)@).last()));
    }
}

/// The Merkle root over `level`.
pub fn merkle_root(level: Vec<[u8; 32]>) -> (root: [u8; 32])
    ensures
        root@ == tree_root(node_bytes(level@)),
{
    let ghost leaves = node_bytes(level@);
    if level.len() == 0 {
        let zeros = [0u8; 32];
        assert(zeros@ =~= zero_node());
        return zeros;
    }
    let mut level = level;
    while level.len() > 1
        invariant
            level@.len() >= 1,
            tree_root(node_bytes(level@)) == tree_root(leaves),
        decreases level@.len(),
    {
        let ghost below = node_bytes(level@);
        pad_level(&mut level);
        assert(even_level(even_level(below)) =~= even_level(below));
        level = ascend(level);
    }
    level[0]
}

/// The path of the first leaf of `level`.
pub fn merkle_path_for_first_leaf(level: Vec<[u8; 32]>) -> (path: Vec<[u8; 32]>)
    ensures
        node_bytes(path@) == first_leaf_path(node_bytes(level@)),
{
    let ghost whole = first_leaf_path(node_bytes(level@));
    let mut level = level;
    let mut path: Vec<[u8; 32]> = Vec::new();
    while level.len() > 1
        invariant
            node_bytes(path@) + first_leaf_path(node_bytes(level@)) == whole,
        decreases level@.len(),
    {
        let ghost below = node_bytes(level@);
        let ghost done = path@;
        pad_level(&mut level);
        path.push(level[1]);
        assert(node_bytes(path@) =~= node_bytes(done).push(even_level(below)[1]));
        assert(even_level(even_level(below)) =~= even_level(below));
        level = ascend(level);
        assert(node_bytes(done) + first_leaf_path(below) =~= node_bytes(path@) + first_leaf_path(
            node_bytes(level@),
        ));
    }
    assert(node_bytes(path@) =~= whole);
    path
}

/// The path of the coinbase, which stands in front of the transactions `txids`.
pub fn coinbase_merkle_path(txids: &[[u8; 32]]) -> (path: Vec<[u8; 32]>)
    ensures
        node_bytes(path@) == coinbase_path(node_bytes(txids@)),
{
    let mut level: Vec<[u8; 32]> = Vec::new();
    level.push([0u8; 32]);
    extend_nodes(&mut level, txids);
    let zeros = [0u8; 32];
    assert(zeros@ =~= zero_node());
    assert(node_bytes(level@) =~= seq![zero_node()] + node_bytes(txids@));
    merkle_path_for_first_leaf(level)
}

/// The path of the coinbase in a block whose other transactions have the identifiers `txids`.
pub open spec fn coinbase_path(txids: Seq<Seq<u8>>) -> Seq<Seq<u8>> {
    first_leaf_path(seq![zero_node()] + txids)
}

/// Climbing the coinbase path from the coinbase's identifier gives the Merkle root of the block.
pub proof fn coinbase_path_reconstructs_root(coinbase: Seq<u8>, txids: Seq<Seq<u8>>)
    ensures
        climb(coinbase, coinbase_path(txids)) == tree_root(seq![coinbase] + txids),
{
    let level = seq![zero_node()] + txids;
    first_leaf_path_reconstructs_root(level, coinbase);
    assert(level.update(0, coinbase) =~= seq![coinbase] + txids);
}

/// Copies the nodes `source` to the end of `target`.
pub(crate) fn extend_nodes(target: &mut Vec<[u8; 32]>, source: &[[u8; 32]])
    ensures
        final(target)@ == old(target)@ + source@,
{
    let mut i: usize = 0;
    while i < source.len()
        invariant
            i <= source@.len(),
            target@ == old(target)@ + source@.subrange(0, i as int),
        decreases source@.len() - i,
    {
        target.push(source[i]);
        i = i + 1;
        assert(source@.subrange(0, i as int) =~= source@.subrange(0, i - 1).push(source@[i - 1]));
    }
    assert(source@.subrange(0, i as int) =~= source@);
}

/// Climbs `path` from `hash`.
pub fn apply_merkle_path(hash: [u8; 32], path: &[[u8; 32]]) -> (root: [u8; 32])
    ensures
        root@ == climb(hash@, node_bytes(path@)),
{
    let mut node = hash;
    let mut i: usize = 0;
    assert(node_bytes(path@).skip(0) =~= node_bytes(path@));
    while i < path.len()
        invariant
            i <= path@.len(),
            climb(node@, node_bytes(path@).skip(i as int)) == climb(hash@, node_bytes(path@)),
        decreases path@.len() - i,
    {
        assert(node_bytes(path@).skip(i as int).drop_first() =~= node_bytes(path@).skip(i + 1));
        node = hash_pair(node, path[i]);
        i = i + 1;
    }
    node
}

/// Every node above a level is the double SHA-256 digest of the two nodes below it, the left one
/// first; the last node of a level that has no right neighbour stands in for it.
pub proof fn nodes_are_digests_of_the_two_below(level: Seq<Seq<u8>>, i: int)
    requires
        0 <= i,
        2 * i < level.len(),
    ensures
        2 * parent_level(level).len() == level.len() || 2 * parent_level(level).len()
            == level.len() + 1,
        parent_level(level)[i] == crate::hashing::sha256d_digest(
            level[2 * i] + if 2 * i + 1 < level.len() {
                level[2 * i + 1]
            } else {
                level[2 * i]
            },
        ),
{
}

/// No leaf has the root of zeros, one leaf is its own root, and the root of two is their digest.
pub proof fn roots_of_few_leaves(a: Seq<u8>, b: Seq<u8>)
    ensures
        tree_root(Seq::<Seq<u8>>::empty()).len() == 32,
        forall|k: int| 0 <= k < 32 ==> tree_root(Seq::<Seq<u8>>::empty())[k] == 0,
        tree_root(seq![a]) == a,
        tree_root(seq![a, b]) == crate::hashing::sha256d_digest(a + b),
{
    reveal_with_fuel(tree_root, 3);
    assert(parent_level(seq![a, b]) =~= seq![crate::hashing::sha256d_digest(a + b)]);
}

/// The root does not change if the last of an odd number of leaves, of more than one, is doubled.
pub proof fn odd_levels_are_filled_with_their_last_node(level: Seq<Seq<u8>>)
    requires
        level.len() > 1,
        level.len() % 2 == 1,
    ensures
        tree_root(level.push(level.last())) == tree_root(level),
        first_leaf_path(level.push(level.last())) == first_leaf_path(level),
{
    let even = level.push(level.last());
    assert(even_level(even) =~= even);
    assert(parent_level(even) =~= parent_level(level));
}

/// Two to the power of `k`.
pub open spec fn leaves_of(k: nat) -> nat
    decreases k,
{
    if k == 0 {
        1
    } else {
        2 * leaves_of((k - 1) as nat)
    }
}

/// The root of a full tree is the digest of the roots of its two halves, the left one first.
pub proof fn root_of_two_halves(k: nat, left: Seq<Seq<u8>>, right: Seq<Seq<u8>>)
    requires
        left.len() == leaves_of(k),
        right.len() == leaves_of(k),
    ensures
        tree_root(left + right) == crate::hashing::sha256d_digest(
            tree_root(left) + tree_root(right),
        ),
    decreases k,
{
    let all = left + right;
    if k == 0 {
        roots_of_few_leaves(left[0], right[0]);
        assert(all =~= seq![left[0], right[0]]);
    } else {
        let half = leaves_of((k - 1) as nat);
        lemma_leaves(((k - 1) as nat));
        assert(parent_level(left).len() == half);
        assert(parent_level(right).len() == half);
        assert(parent_level(all) =~= parent_level(left) + parent_level(right));
        root_of_two_halves((k - 1) as nat, parent_level(left), parent_level(right));
    }
}

/// A tree has a leaf.
proof fn lemma_leaves(k: nat)
    ensures
        leaves_of(k) >= 1,
    decreases k,
{
    if k > 0 {
        lemma_leaves((k - 1) as nat);
    }
}

/// Climbing one node further hashes what was reached with that node, which stands on the right;
/// climbing nothing stays at the leaf.
pub proof fn climbing_hashes_with_each_node_in_turn(leaf: Seq<u8>, path: Seq<Seq<u8>>, next: Seq<u8>)
    ensures
        climb(leaf, Seq::<Seq<u8>>::empty()) == leaf,
        climb(leaf, path.push(next)) == crate::hashing::sha256d_digest(climb(leaf, path) + next),
    decreases path.len(),
{
    if path.len() == 0 {
        reveal_with_fuel(climb, 2);
        assert(path.push(next).drop_first() =~= Seq::<Seq<u8>>::empty());
    } else {
        let above = crate::hashing::sha256d_digest(leaf + path[0]);
        assert(path.push(next).drop_first() =~= path.drop_first().push(next));
        climbing_hashes_with_each_node_in_turn(above, path.drop_first(), next);
    }
}

/// The path of the first leaf starts with the leaf beside it, and goes on with the path of the
/// node above the two. A leaf that stands alone has no path.
pub proof fn paths_start_with_the_neighbour(level: Seq<Seq<u8>>)
    ensures
        level.len() <= 1 ==> first_leaf_path(level).len() == 0,
        level.len() > 1 ==> first_leaf_path(level).len() > 0 && first_leaf_path(level)[0]
            == level[1] && first_leaf_path(level).drop_first() == first_leaf_path(
            parent_level(level),
        ),
{
    if level.len() > 1 {
        assert(first_leaf_path(level).drop_first() =~= first_leaf_path(parent_level(level)));
    }
}

/// The path of a coinbase in front of a full tree's other leaves has as many nodes as the tree has
/// levels above the leaves.
pub proof fn paths_are_as_long_as_the_tree_is_high(k: nat, level: Seq<Seq<u8>>)
    requires
        level.len() == leaves_of(k),
    ensures
        first_leaf_path(level).len() == k,
    decreases k,
{
    if k > 0 {
        lemma_leaves((k - 1) as nat);
        assert(parent_level(level).len() == leaves_of((k - 1) as nat));
        paths_are_as_long_as_the_tree_is_high((k - 1) as nat, parent_level(level));
    }
}

/// The coinbase path is that of a leaf in front of the other transactions: it leads from any
/// coinbase to the root over the coinbase and these, and starts with the first of them.
pub proof fn coinbase_paths_start_with_the_first_transaction(txids: Seq<Seq<u8>>)
    ensures
        txids.len() == 0 ==> coinbase_path(txids).len() == 0,
        txids.len() > 0 ==> coinbase_path(txids).len() > 0 && coinbase_path(txids)[0] == txids[0],
{
    let level = seq![zero_node()] + txids;
    paths_start_with_the_neighbour(level);
}

/// A level and the one above it have the same root, and the path of the first leaf is the leaf beside
/// it and the path of the node above the two, when each node of the level above is the double SHA-256
/// digest of the two nodes below it, the left one first, or of a last node without a neighbour and
/// itself. One node is its own root and has no path.
pub proof fn levels_have_the_root_of_the_one_above(
    level: Vec<[u8; 32]>,
    above: Vec<[u8; 32]>,
    root: [u8; 32],
    upper: [u8; 32],
    path: Vec<[u8; 32]>,
    upper_path: Vec<[u8; 32]>,
)
    requires
        call_ensures(merkle_root, (level,), root),
        call_ensures(merkle_root, (above,), upper),
        call_ensures(merkle_path_for_first_leaf, (level,), path),
        call_ensures(merkle_path_for_first_leaf, (above,), upper_path),
        2 * above@.len() == level@.len() || 2 * above@.len() == level@.len() + 1,
        forall|i: int|
            0 <= i < above@.len() ==> (#[trigger] above@[i])@ == crate::hashing::sha256d_digest(
                level@[2 * i]@ + if 2 * i + 1 < level@.len() {
                    level@[2 * i + 1]@
                } else {
                    level@[2 * i]@
                },
            ),
    ensures
        level@.len() > 1 ==> root@ == upper@,
        level@.len() > 1 ==> {
            &&& path@.len() == upper_path@.len() + 1
            &&& path@[0]@ == level@[1]@
            &&& forall|k: int|
                0 <= k < upper_path@.len() ==> (#[trigger] upper_path@[k])@ == path@[k + 1]@
        },
        level@.len() == 1 ==> root@ == level@[0]@ && path@.len() == 0,
        level@.len() == 0 ==> (forall|k: int| 0 <= k < 32 ==> root@[k] == 0) && path@.len() == 0,
{
    let lower = node_bytes(level@);
    let higher = node_bytes(above@);
    let nodes = node_bytes(path@);
    let upper_nodes = node_bytes(upper_path@);
    assert(nodes.len() == path@.len());
    assert(upper_nodes.len() == upper_path@.len());
    if level@.len() > 1 {
        assert forall|i: int| 0 <= i < higher.len() implies higher[i] == parent_level(lower)[i] by {
            assert(higher[i] == above@[i]@);
            assert(lower[2 * i] == level@[2 * i]@);
            if 2 * i + 1 < level@.len() {
                assert(lower[2 * i + 1] == level@[2 * i + 1]@);
            }
        }
        assert(higher =~= parent_level(lower));
        assert(nodes =~= seq![even_level(lower)[1]] + upper_nodes);
        assert(nodes[0] == path@[0]@);
        assert(lower[1] == level@[1]@);
        assert forall|k: int| 0 <= k < upper_path@.len() implies (#[trigger] upper_path@[k])@
            == path@[k + 1]@ by {
            assert(upper_nodes[k] == upper_path@[k]@);
            assert(nodes[k + 1] == path@[k + 1]@);
        }
    } else if level@.len() == 1 {
        assert(lower[0] == level@[0]@);
    }
}

/// The path of a coinbase is that of the first leaf of any tree whose other leaves are the
/// transactions, whatever the first leaf is.
pub proof fn coinbase_paths_are_those_of_the_first_leaf(
    txids: &[[u8; 32]],
    level: Vec<[u8; 32]>,
    path: Vec<[u8; 32]>,
    first_path: Vec<[u8; 32]>,
    k: int,
)
    requires
        call_ensures(coinbase_merkle_path, (txids,), path),
        call_ensures(merkle_path_for_first_leaf, (level,), first_path),
        level@.len() == txids@.len() + 1,
        forall|i: int| 0 <= i < txids@.len() ==> level@[i + 1] == #[trigger] txids@[i],
    ensures
        path@.len() == first_path@.len(),
        0 <= k < path@.len() ==> path@[k]@ == first_path@[k]@,
{
    let leaves = node_bytes(level@);
    let placeholder = leaves.update(0, zero_node());
    first_leaf_path_ignores_first_leaf(leaves, zero_node());
    assert forall|i: int| 0 <= i < placeholder.len() implies placeholder[i] == (
    seq![zero_node()] + node_bytes(txids@))[i] by {
        if i > 0 {
            assert(txids@[i - 1] == level@[i - 1 + 1]);
        }
    }
    assert(placeholder =~= seq![zero_node()] + node_bytes(txids@));
    assert(node_bytes(path@).len() == path@.len());
    assert(node_bytes(first_path@).len() == first_path@.len());
    if 0 <= k < path@.len() {
        assert(node_bytes(path@)[k] == path@[k]@);
        assert(node_bytes(first_path@)[k] == first_path@[k]@);
    }
}

/// Applying a path to a leaf hashes the leaf with the first node on its right, and what comes out
/// with the rest of the path; two nodes are hashed in the order in which they are given.
pub proof fn paths_are_applied_node_by_node(
    leaf: [u8; 32],
    path: &[[u8; 32]],
    rest: &[[u8; 32]],
    above: [u8; 32],
    root: [u8; 32],
    upper: [u8; 32],
)
    requires
        path@.len() > 0,
        rest@ == path@.skip(1),
        call_ensures(hash_pair, (leaf, path@[0]), above),
        call_ensures(apply_merkle_path, (leaf, path), root),
        call_ensures(apply_merkle_path, (above, rest), upper),
    ensures
        above@ == crate::hashing::sha256d_digest(leaf@ + path@[0]@),
        root@ == upper@,
{
    assert(node_bytes(path@).drop_first() =~= node_bytes(rest@));
    assert(node_bytes(path@)[0] == path@[0]@);
}

} // verus!
